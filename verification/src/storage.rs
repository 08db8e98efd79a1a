//! The SQLite layout of wallet records: the schema, the rows that store a
//! record, and the reading of a record back from a joined row.

use vstd::prelude::*;
use crate::crypto::{
    ArgonAlgorithm, ArgonVersion, EncryptionData, EncryptionDataView, algorithm_name,
    algorithm_named, bytes_of, lemma_stored_names_read_back, version_name, version_named,
};
use crate::wallet::{TXRPWallet, WalletView, text_of};

verus! {

/// The statement that creates the `Wallet` table.
pub open spec fn wallet_table_sql() -> Seq<char> {
    "CREATE TABLE IF NOT EXISTS `Wallet` (`ID` INTEGER PRIMARY KEY AUTOINCREMENT, `ClassicAddress` TEXT NOT NULL, `Name` TEXT NOT NULL, `Mnemonic` TEXT, `Seed` TEXT NOT NULL, `EncryptionEnabled` INTEGER NOT NULL DEFAULT 0)"@
}

/// The statement that creates the `EncryptionData` table.
pub open spec fn encryption_data_table_sql() -> Seq<char> {
    "CREATE TABLE IF NOT EXISTS `EncryptionData` (`ID` INTEGER PRIMARY KEY AUTOINCREMENT, `WalletID` INTEGER NOT NULL, `MnemonicSalt` TEXT NOT NULL, `MnemonicNonce` TEXT NOT NULL, `SeedSalt` TEXT NOT NULL, `SeedNonce` TEXT NOT NULL, `M_COST` INTEGER NOT NULL, `T_COST` INTEGER NOT NULL, `P_COST` INTEGER NOT NULL, `OUTPUT_LEN` INTEGER NOT NULL, `ArgonAlgorithm` TEXT NOT NULL, `ArgonVersion` TEXT NOT NULL, FOREIGN KEY (WalletID) REFERENCES Wallet(ID) ON UPDATE CASCADE ON DELETE CASCADE)"@
}

/// The statements that create the two tables, in the order they run.
pub fn schema_statements() -> (res: Vec<String>)
    ensures
        res@.len() == 2,
        res@[0]@ == wallet_table_sql(),
        res@[1]@ == encryption_data_table_sql(),
{
    let mut statements: Vec<String> = Vec::new();
    statements.push(String::from_str("CREATE TABLE IF NOT EXISTS `Wallet` (`ID` INTEGER PRIMARY KEY AUTOINCREMENT, `ClassicAddress` TEXT NOT NULL, `Name` TEXT NOT NULL, `Mnemonic` TEXT, `Seed` TEXT NOT NULL, `EncryptionEnabled` INTEGER NOT NULL DEFAULT 0)"));
    statements.push(String::from_str("CREATE TABLE IF NOT EXISTS `EncryptionData` (`ID` INTEGER PRIMARY KEY AUTOINCREMENT, `WalletID` INTEGER NOT NULL, `MnemonicSalt` TEXT NOT NULL, `MnemonicNonce` TEXT NOT NULL, `SeedSalt` TEXT NOT NULL, `SeedNonce` TEXT NOT NULL, `M_COST` INTEGER NOT NULL, `T_COST` INTEGER NOT NULL, `P_COST` INTEGER NOT NULL, `OUTPUT_LEN` INTEGER NOT NULL, `ArgonAlgorithm` TEXT NOT NULL, `ArgonVersion` TEXT NOT NULL, FOREIGN KEY (WalletID) REFERENCES Wallet(ID) ON UPDATE CASCADE ON DELETE CASCADE)"));
    statements
}

/// A value held in an SQLite column, as the database hands it out. A real
/// number is only marked: no record stores one.
#[derive(Clone, Debug)]
pub enum SqlValue {
    Null,
    Integer(i64),
    Real,
    Text(String),
    Blob(Vec<u8>),
}

/// The contents of an SQLite value.
pub enum SqlCell {
    Null,
    Integer(i64),
    Real,
    Text(Seq<char>),
    Blob(Seq<u8>),
}

impl View for SqlValue {
    type V = SqlCell;

    open spec fn view(&self) -> SqlCell {
        match self {
            SqlValue::Null => SqlCell::Null,
            SqlValue::Integer(i) => SqlCell::Integer(*i),
            SqlValue::Real => SqlCell::Real,
            SqlValue::Text(t) => SqlCell::Text(t@),
            SqlValue::Blob(b) => SqlCell::Blob(b@),
        }
    }
}

/// The contents of a list of values.
pub open spec fn cells(values: Seq<SqlValue>) -> Seq<SqlCell> {
    values.map_values(|v: SqlValue| v@)
}

/// The statement that inserts a wallet, with or without its mnemonic. The
/// statement for a wallet without a mnemonic lacks the comma between
/// `ClassicAddress` and `Seed` and binds four values to a list of three
/// columns, so SQLite refuses it: such a wallet is never stored.
pub open spec fn wallet_insert_sql(with_mnemonic: bool) -> Seq<char> {
    if with_mnemonic {
        "INSERT INTO `Wallet` (`Name`, `ClassicAddress`, `Mnemonic`, `Seed`, `EncryptionEnabled`) VALUES (?, ?, ?, ?, ?);"@
    } else {
        "INSERT INTO `Wallet` (`Name`, `ClassicAddress` `Seed`, `EncryptionEnabled`) VALUES (?, ?, ?, ?);"@
    }
}

/// The statement that inserts a wallet's encryption data.
pub open spec fn encryption_data_insert_sql() -> Seq<char> {
    "INSERT INTO `EncryptionData` (`WalletID`, `MnemonicSalt`, `MnemonicNonce`, `SeedSalt`, `SeedNonce`, `M_COST`, `T_COST`, `P_COST`, `OUTPUT_LEN`, `ArgonAlgorithm`, `ArgonVersion`) VALUES (?1, ?2, ?3, ?4, ?5, ?6, ?7, ?8, ?9, ?10, ?11)"@
}

/// How a flag is stored: 1 or 0.
pub open spec fn flag_cell(flag: bool) -> SqlCell {
    SqlCell::Integer(if flag { 1 } else { 0 })
}

/// How optional bytes are stored: a blob, or null.
pub open spec fn optional_blob_cell(bytes: Option<Seq<u8>>) -> SqlCell {
    match bytes {
        Some(b) => SqlCell::Blob(b),
        None => SqlCell::Null,
    }
}

/// The values bound to `wallet_insert_sql`: name, address, the mnemonic
/// where there is one, seed and the encryption flag.
pub open spec fn wallet_insert_cells(w: WalletView) -> Seq<SqlCell> {
    match w.mnemonic {
        Some(m) => seq![
            SqlCell::Text(w.name),
            SqlCell::Text(w.classic_address),
            SqlCell::Text(m),
            SqlCell::Text(w.seed),
            flag_cell(w.encryption_enabled),
        ],
        None => seq![
            SqlCell::Text(w.name),
            SqlCell::Text(w.classic_address),
            SqlCell::Text(w.seed),
            flag_cell(w.encryption_enabled),
        ],
    }
}

/// The values bound to `encryption_data_insert_sql` for the wallet row
/// `wallet_id`, in column order.
pub open spec fn encryption_data_insert_cells(wallet_id: i64, d: EncryptionDataView) -> Seq<SqlCell> {
    seq![
        SqlCell::Integer(wallet_id),
        optional_blob_cell(d.salt_mnemonic),
        optional_blob_cell(d.nonce_mnemonic),
        SqlCell::Blob(d.salt_seed),
        SqlCell::Blob(d.nonce_seed),
        SqlCell::Integer(d.m_cost as i64),
        SqlCell::Integer(d.t_cost as i64),
        SqlCell::Integer(d.p_cost as i64),
        SqlCell::Integer(d.output_len as i64),
        SqlCell::Text(algorithm_name(d.argon_algorithm)),
        SqlCell::Text(version_name(d.argon_version)),
    ]
}

/// Failures of preparing a wallet's rows.
#[derive(Clone, Copy, Debug, PartialEq, Eq, Structural)]
pub enum InsertError {
    /// The wallet is encrypted but has no encryption data.
    MissingEncryptionData,
    /// The key length does not fit the stored byte.
    OutputLenTooLarge,
}

/// The stored form of optional bytes.
fn optional_blob(bytes: &Option<Vec<u8>>) -> (res: SqlValue)
    ensures
        res@ == optional_blob_cell(bytes_of(*bytes)),
{
    match bytes {
        Some(b) => SqlValue::Blob(b.clone()),
        None => SqlValue::Null,
    }
}

/// The statement inserting `wallet` into the `Wallet` table and the values
/// it binds.
pub fn wallet_insert_statement(wallet: &TXRPWallet) -> (res: (String, Vec<SqlValue>))
    ensures
        res.0@ == wallet_insert_sql(wallet.mnemonic is Some),
        cells(res.1@) == wallet_insert_cells(wallet@),
        wallet.encryption_enabled ==> cells(res.1@).last() == SqlCell::Integer(1),
        !wallet.encryption_enabled ==> cells(res.1@).last() == SqlCell::Integer(0),
{
    let flag = SqlValue::Integer(if wallet.encryption_enabled { 1 } else { 0 });
    let mut values: Vec<SqlValue> = Vec::new();
    values.push(SqlValue::Text(wallet.name.clone()));
    values.push(SqlValue::Text(wallet.classic_address.clone()));
    let query = match &wallet.mnemonic {
        Some(mnemonic) => {
            values.push(SqlValue::Text(mnemonic.clone()));
            String::from_str("INSERT INTO `Wallet` (`Name`, `ClassicAddress`, `Mnemonic`, `Seed`, `EncryptionEnabled`) VALUES (?, ?, ?, ?, ?);")
        },
        None => String::from_str("INSERT INTO `Wallet` (`Name`, `ClassicAddress` `Seed`, `EncryptionEnabled`) VALUES (?, ?, ?, ?);"),
    };
    values.push(SqlValue::Text(wallet.seed.clone()));
    values.push(flag);
    assert(cells(values@) =~= wallet_insert_cells(wallet@));
    (query, values)
}

/// The statement inserting the encryption data of `wallet`, stored under
/// the wallet row `wallet_id`, and the values it binds. Fails where the
/// wallet has no encryption data or its key length exceeds 255.
pub fn encryption_data_insert_statement(wallet_id: i64, wallet: &TXRPWallet) -> (res: Result<(String, Vec<SqlValue>), InsertError>)
    ensures
        match res {
            Ok(statement) => wallet.encryption_data matches Some(d) && d.output_len <= 255
                && statement.0@ == encryption_data_insert_sql()
                && cells(statement.1@) == encryption_data_insert_cells(wallet_id, d@),
            Err(e) => match wallet.encryption_data {
                None => e == InsertError::MissingEncryptionData,
                Some(d) => e == InsertError::OutputLenTooLarge && d.output_len > 255,
            },
        },
{
    let data = match &wallet.encryption_data {
        Some(d) => d,
        None => return Err(InsertError::MissingEncryptionData),
    };
    if data.output_len > 255 {
        return Err(InsertError::OutputLenTooLarge);
    }
    let mut values: Vec<SqlValue> = Vec::new();
    values.push(SqlValue::Integer(wallet_id));
    values.push(optional_blob(&data.salt_mnemonic));
    values.push(optional_blob(&data.nonce_mnemonic));
    values.push(SqlValue::Blob(data.salt_seed.clone()));
    values.push(SqlValue::Blob(data.nonce_seed.clone()));
    values.push(SqlValue::Integer(data.m_cost as i64));
    values.push(SqlValue::Integer(data.t_cost as i64));
    values.push(SqlValue::Integer(data.p_cost as i64));
    values.push(SqlValue::Integer(data.output_len as i64));
    values.push(SqlValue::Text(data.argon_algorithm.to_string()));
    values.push(SqlValue::Text(data.argon_version.to_string()));
    assert(cells(values@) =~= encryption_data_insert_cells(wallet_id, data@));
    let query = String::from_str("INSERT INTO `EncryptionData` (`WalletID`, `MnemonicSalt`, `MnemonicNonce`, `SeedSalt`, `SeedNonce`, `M_COST`, `T_COST`, `P_COST`, `OUTPUT_LEN`, `ArgonAlgorithm`, `ArgonVersion`) VALUES (?1, ?2, ?3, ?4, ?5, ?6, ?7, ?8, ?9, ?10, ?11)");
    Ok((query, values))
}

/// The query reading every wallet with its encryption data (null columns
/// for wallets without encryption).
pub open spec fn wallets_select_sql() -> Seq<char> {
    "SELECT Wallet.*, EncryptionData.* FROM Wallet LEFT JOIN EncryptionData ON EncryptionData.WalletID = Wallet.ID AND Wallet.EncryptionEnabled = 1;"@
}

/// The query reading every wallet.
pub fn wallets_select_statement() -> (res: String)
    ensures
        res@ == wallets_select_sql(),
{
    String::from_str("SELECT Wallet.*, EncryptionData.* FROM Wallet LEFT JOIN EncryptionData ON EncryptionData.WalletID = Wallet.ID AND Wallet.EncryptionEnabled = 1;")
}

/// Failures of reading a wallet from a row.
#[derive(Clone, Copy, Debug, PartialEq, Eq, Structural)]
pub enum RowError {
    /// The column at this index is missing or holds a value of another type
    /// (or an integer out of range).
    Column(usize),
    /// The stored Argon2 variant has no known name.
    UnknownArgonAlgorithm,
    /// The stored Argon2 version has no known name.
    UnknownArgonVersion,
}

/// The text in column `i`.
pub open spec fn text_at(row: Seq<SqlCell>, i: int) -> Option<Seq<char>> {
    if 0 <= i < row.len() {
        match row[i] {
            SqlCell::Text(t) => Some(t),
            _ => None,
        }
    } else {
        None
    }
}

/// The optional text in column `i`: `Some(None)` for null.
pub open spec fn optional_text_at(row: Seq<SqlCell>, i: int) -> Option<Option<Seq<char>>> {
    if 0 <= i < row.len() {
        match row[i] {
            SqlCell::Null => Some(None),
            SqlCell::Text(t) => Some(Some(t)),
            _ => None,
        }
    } else {
        None
    }
}

/// The bytes in column `i`.
pub open spec fn blob_at(row: Seq<SqlCell>, i: int) -> Option<Seq<u8>> {
    if 0 <= i < row.len() {
        match row[i] {
            SqlCell::Blob(b) => Some(b),
            _ => None,
        }
    } else {
        None
    }
}

/// The optional bytes in column `i`: `Some(None)` for null.
pub open spec fn optional_blob_at(row: Seq<SqlCell>, i: int) -> Option<Option<Seq<u8>>> {
    if 0 <= i < row.len() {
        match row[i] {
            SqlCell::Null => Some(None),
            SqlCell::Blob(b) => Some(Some(b)),
            _ => None,
        }
    } else {
        None
    }
}

/// The integer in column `i`, where it lies in `lo..=hi`.
pub open spec fn integer_at(row: Seq<SqlCell>, i: int, lo: int, hi: int) -> Option<int> {
    if 0 <= i < row.len() {
        match row[i] {
            SqlCell::Integer(n) => if lo <= n <= hi {
                Some(n as int)
            } else {
                None
            },
            _ => None,
        }
    } else {
        None
    }
}

/// The encryption data in columns 8 to 17 of a joined row.
pub open spec fn row_encryption_data(row: Seq<SqlCell>) -> Result<EncryptionDataView, RowError> {
    if optional_blob_at(row, 8) is None {
        Err(RowError::Column(8))
    } else if optional_blob_at(row, 9) is None {
        Err(RowError::Column(9))
    } else if blob_at(row, 10) is None {
        Err(RowError::Column(10))
    } else if blob_at(row, 11) is None {
        Err(RowError::Column(11))
    } else if integer_at(row, 12, 0, u32::MAX as int) is None {
        Err(RowError::Column(12))
    } else if integer_at(row, 13, 0, u32::MAX as int) is None {
        Err(RowError::Column(13))
    } else if integer_at(row, 14, 0, u32::MAX as int) is None {
        Err(RowError::Column(14))
    } else if integer_at(row, 15, 0, u32::MAX as int) is None {
        Err(RowError::Column(15))
    } else if text_at(row, 16) is None {
        Err(RowError::Column(16))
    } else if text_at(row, 17) is None {
        Err(RowError::Column(17))
    } else if algorithm_named(text_at(row, 16).unwrap()) is None {
        Err(RowError::UnknownArgonAlgorithm)
    } else if version_named(text_at(row, 17).unwrap()) is None {
        Err(RowError::UnknownArgonVersion)
    } else {
        Ok(EncryptionDataView {
            salt_mnemonic: optional_blob_at(row, 8).unwrap(),
            nonce_mnemonic: optional_blob_at(row, 9).unwrap(),
            salt_seed: blob_at(row, 10).unwrap(),
            nonce_seed: blob_at(row, 11).unwrap(),
            m_cost: integer_at(row, 12, 0, u32::MAX as int).unwrap() as u32,
            t_cost: integer_at(row, 13, 0, u32::MAX as int).unwrap() as u32,
            p_cost: integer_at(row, 14, 0, u32::MAX as int).unwrap() as u32,
            output_len: integer_at(row, 15, 0, u32::MAX as int).unwrap() as usize,
            argon_algorithm: algorithm_named(text_at(row, 16).unwrap()).unwrap(),
            argon_version: version_named(text_at(row, 17).unwrap()).unwrap(),
        })
    }
}

/// The wallet in a joined row: ID (a 16-bit unsigned integer), address,
/// name, optional mnemonic, seed and encryption flag in columns 0 to 5, and,
/// for an encrypted wallet, its encryption data in columns 8 to 17. The
/// first column that is missing or of the wrong type is the error.
pub open spec fn row_wallet(row: Seq<SqlCell>) -> Result<WalletView, RowError> {
    if integer_at(row, 0, 0, u16::MAX as int) is None {
        Err(RowError::Column(0))
    } else if text_at(row, 1) is None {
        Err(RowError::Column(1))
    } else if text_at(row, 2) is None {
        Err(RowError::Column(2))
    } else if optional_text_at(row, 3) is None {
        Err(RowError::Column(3))
    } else if text_at(row, 4) is None {
        Err(RowError::Column(4))
    } else if integer_at(row, 5, i64::MIN as int, i64::MAX as int) is None {
        Err(RowError::Column(5))
    } else {
        let encryption_enabled = integer_at(row, 5, i64::MIN as int, i64::MAX as int).unwrap() != 0;
        let data = if encryption_enabled {
            match row_encryption_data(row) {
                Ok(d) => Ok(Some(d)),
                Err(e) => Err(e),
            }
        } else {
            Ok(None)
        };
        match data {
            Err(e) => Err(e),
            Ok(encryption_data) => Ok(WalletView {
                classic_address: text_at(row, 1).unwrap(),
                seed: text_at(row, 4).unwrap(),
                mnemonic: optional_text_at(row, 3).unwrap(),
                encryption_enabled,
                name: text_at(row, 2).unwrap(),
                encryption_data,
            }),
        }
    }
}

/// The text in column `i`.
fn read_text(row: &Vec<SqlValue>, i: usize) -> (res: Result<String, RowError>)
    ensures
        match res {
            Ok(t) => text_at(cells(row@), i as int) == Some(t@),
            Err(e) => text_at(cells(row@), i as int) is None && e == RowError::Column(i),
        },
{
    if i < row.len() {
        match &row[i] {
            SqlValue::Text(t) => Ok(t.clone()),
            _ => Err(RowError::Column(i)),
        }
    } else {
        Err(RowError::Column(i))
    }
}

/// The optional text in column `i`.
fn read_optional_text(row: &Vec<SqlValue>, i: usize) -> (res: Result<Option<String>, RowError>)
    ensures
        match res {
            Ok(t) => optional_text_at(cells(row@), i as int) == Some(text_of(t)),
            Err(e) => optional_text_at(cells(row@), i as int) is None && e == RowError::Column(i),
        },
{
    if i < row.len() {
        match &row[i] {
            SqlValue::Null => Ok(None),
            SqlValue::Text(t) => Ok(Some(t.clone())),
            _ => Err(RowError::Column(i)),
        }
    } else {
        Err(RowError::Column(i))
    }
}

/// The bytes in column `i`.
fn read_blob(row: &Vec<SqlValue>, i: usize) -> (res: Result<Vec<u8>, RowError>)
    ensures
        match res {
            Ok(b) => blob_at(cells(row@), i as int) == Some(b@),
            Err(e) => blob_at(cells(row@), i as int) is None && e == RowError::Column(i),
        },
{
    if i < row.len() {
        match &row[i] {
            SqlValue::Blob(b) => {
                let copy = b.clone();
                assert(copy@ =~= b@);
                Ok(copy)
            },
            _ => Err(RowError::Column(i)),
        }
    } else {
        Err(RowError::Column(i))
    }
}

/// The optional bytes in column `i`.
fn read_optional_blob(row: &Vec<SqlValue>, i: usize) -> (res: Result<Option<Vec<u8>>, RowError>)
    ensures
        match res {
            Ok(b) => optional_blob_at(cells(row@), i as int) == Some(bytes_of(b)),
            Err(e) => optional_blob_at(cells(row@), i as int) is None && e == RowError::Column(i),
        },
{
    if i < row.len() {
        match &row[i] {
            SqlValue::Null => Ok(None),
            SqlValue::Blob(b) => {
                let copy = b.clone();
                assert(copy@ =~= b@);
                Ok(Some(copy))
            },
            _ => Err(RowError::Column(i)),
        }
    } else {
        Err(RowError::Column(i))
    }
}

/// The integer in column `i`, where it lies in `lo..=hi`.
fn read_integer(row: &Vec<SqlValue>, i: usize, lo: i64, hi: i64) -> (res: Result<i64, RowError>)
    ensures
        match res {
            Ok(n) => integer_at(cells(row@), i as int, lo as int, hi as int) == Some(n as int),
            Err(e) => integer_at(cells(row@), i as int, lo as int, hi as int) is None && e == RowError::Column(i),
        },
{
    if i < row.len() {
        match &row[i] {
            SqlValue::Integer(n) => if lo <= *n && *n <= hi {
                Ok(*n)
            } else {
                Err(RowError::Column(i))
            },
            _ => Err(RowError::Column(i)),
        }
    } else {
        Err(RowError::Column(i))
    }
}

/// Reads the encryption data of a joined row (columns 8 to 17).
pub fn encryption_data_from_row(row: &Vec<SqlValue>) -> (res: Result<EncryptionData, RowError>)
    ensures
        match res {
            Ok(d) => row_encryption_data(cells(row@)) == Ok::<EncryptionDataView, RowError>(d@),
            Err(e) => row_encryption_data(cells(row@)) == Err::<EncryptionDataView, RowError>(e),
        },
{
    let ghost r = cells(row@);
    let salt_mnemonic = read_optional_blob(row, 8)?;
    let nonce_mnemonic = read_optional_blob(row, 9)?;
    let salt_seed = read_blob(row, 10)?;
    let nonce_seed = read_blob(row, 11)?;
    let m_cost = read_integer(row, 12, 0, u32::MAX as i64)?;
    let t_cost = read_integer(row, 13, 0, u32::MAX as i64)?;
    let p_cost = read_integer(row, 14, 0, u32::MAX as i64)?;
    let output_len = read_integer(row, 15, 0, u32::MAX as i64)?;
    let algorithm_string = read_text(row, 16)?;
    let version_string = read_text(row, 17)?;
    let argon_algorithm = match ArgonAlgorithm::from_string(&algorithm_string) {
        Some(a) => a,
        None => return Err(RowError::UnknownArgonAlgorithm),
    };
    let argon_version = match ArgonVersion::from_string(&version_string) {
        Some(v) => v,
        None => return Err(RowError::UnknownArgonVersion),
    };
    let data = EncryptionData {
        salt_mnemonic,
        salt_seed,
        nonce_mnemonic,
        nonce_seed,
        m_cost: m_cost as u32,
        t_cost: t_cost as u32,
        p_cost: p_cost as u32,
        output_len: output_len as usize,
        argon_algorithm,
        argon_version,
    };
    Ok(data)
}

/// Reads a wallet from a row of `wallets_select_sql`; the error names the
/// first column that could not be read. A wallet ID is read as a 16-bit
/// unsigned number: `requires` leaves out rows whose ID is an integer out of
/// that range, as no reading of them is defined.
pub fn wallet_from_row(row: &Vec<SqlValue>) -> (res: Result<TXRPWallet, RowError>)
    requires
        integer_at(cells(row@), 0, i64::MIN as int, i64::MAX as int) matches Some(id)
            ==> 0 <= id <= u16::MAX,
    ensures
        match res {
            Ok(w) => row_wallet(cells(row@)) == Ok::<WalletView, RowError>(w@),
            Err(e) => row_wallet(cells(row@)) == Err::<WalletView, RowError>(e),
        },
{
    let _id = read_integer(row, 0, 0, u16::MAX as i64)?;
    let classic_address = read_text(row, 1)?;
    let name = read_text(row, 2)?;
    let mnemonic = read_optional_text(row, 3)?;
    let seed = read_text(row, 4)?;
    let flag = read_integer(row, 5, i64::MIN, i64::MAX)?;
    let encryption_enabled = flag != 0;
    let encryption_data = if encryption_enabled {
        Some(encryption_data_from_row(row)?)
    } else {
        None
    };
    Ok(TXRPWallet { classic_address, name, seed, mnemonic, encryption_enabled, encryption_data })
}

/// The columns of the `Wallet` row that the database stores for the values
/// bound to `wallet_insert_sql`, given the row's ID: ID, address, name,
/// mnemonic (null where the statement sets none), seed, flag.
pub open spec fn stored_wallet_columns(id: i64, inserted: Seq<SqlCell>, with_mnemonic: bool) -> Seq<SqlCell> {
    if with_mnemonic {
        seq![SqlCell::Integer(id), inserted[1], inserted[0], inserted[2], inserted[3], inserted[4]]
    } else {
        seq![SqlCell::Integer(id), inserted[1], inserted[0], SqlCell::Null, inserted[2], inserted[3]]
    }
}

/// The joined row `wallets_select_sql` reads for a stored wallet: the
/// wallet's columns followed by its `EncryptionData` row (its own ID, then
/// the bound values), or by twelve nulls where it has none. The join
/// attaches that row only where its `WalletID` (its first bound value) is
/// the wallet's ID and the wallet's stored `EncryptionEnabled` (the last
/// value bound for the wallet) is 1.
pub open spec fn stored_row(
    id: i64,
    inserted: Seq<SqlCell>,
    with_mnemonic: bool,
    encryption_id: i64,
    encryption_inserted: Option<Seq<SqlCell>>,
) -> Seq<SqlCell> {
    stored_wallet_columns(id, inserted, with_mnemonic) + match encryption_inserted {
        Some(e) => if e.len() > 0 && e[0] == SqlCell::Integer(id) && inserted.len() > 0
            && inserted.last() == SqlCell::Integer(1) {
            seq![SqlCell::Integer(encryption_id)] + e
        } else {
            Seq::new(12, |i: int| SqlCell::Null)
        },
        None => Seq::new(12, |i: int| SqlCell::Null),
    }
}

/// The wallet row binds `EncryptionEnabled` last, as 1 for an encrypted
/// wallet (the value `wallets_select_sql` joins the encryption data on) and
/// 0 otherwise; the encryption row binds the wallet's ID first (the value
/// the join matches `WalletID` against).
pub proof fn lemma_stored_flag_and_id_join(w: WalletView, id: i64, d: EncryptionDataView)
    ensures
        wallet_insert_cells(w).len() == (if w.mnemonic is Some { 5int } else { 4int }),
        w.encryption_enabled ==> wallet_insert_cells(w).last() == SqlCell::Integer(1),
        !w.encryption_enabled ==> wallet_insert_cells(w).last() == SqlCell::Integer(0),
        encryption_data_insert_cells(id, d)[0] == SqlCell::Integer(id),
        encryption_data_insert_cells(id, d).len() == 11,
{
}

/// A record whose flag and encryption data agree, with a key length that
/// fits the stored byte.
pub open spec fn storable(w: WalletView) -> bool {
    &&& w.encryption_enabled <==> w.encryption_data is Some
    &&& w.encryption_data matches Some(d) ==> d.output_len <= 255
}

/// Reading back a stored wallet gives the wallet: the row that the database
/// holds for the values the insert statements bind (wallet row ID `id`, a
/// 16-bit number, and encryption row ID `encryption_id`) reads as the
/// record that was inserted. Only wallets with a mnemonic are stored (see
/// `wallet_insert_sql`).
pub proof fn lemma_stored_wallet_reads_back(w: WalletView, id: i64, encryption_id: i64)
    requires
        storable(w),
        w.mnemonic is Some,
        0 <= id <= u16::MAX,
    ensures
        row_wallet(stored_row(
            id,
            wallet_insert_cells(w),
            w.mnemonic is Some,
            encryption_id,
            match w.encryption_data {
                Some(d) => Some(encryption_data_insert_cells(id, d)),
                None => None,
            },
        )) == Ok::<WalletView, RowError>(w),
{
    let encryption_inserted = match w.encryption_data {
        Some(d) => Some(encryption_data_insert_cells(id, d)),
        None => None,
    };
    let row = stored_row(id, wallet_insert_cells(w), w.mnemonic is Some, encryption_id, encryption_inserted);
    assert(row.len() == 18);
    assert(text_at(row, 1) == Some(w.classic_address));
    assert(text_at(row, 2) == Some(w.name));
    assert(optional_text_at(row, 3) == Some(w.mnemonic));
    assert(text_at(row, 4) == Some(w.seed));
    if let Some(d) = w.encryption_data {
        lemma_stored_names_read_back(d.argon_algorithm, d.argon_version);
        assert(optional_blob_at(row, 8) == Some(d.salt_mnemonic));
        assert(optional_blob_at(row, 9) == Some(d.nonce_mnemonic));
        assert(row_encryption_data(row) == Ok::<EncryptionDataView, RowError>(d));
    }
}

} // verus!
