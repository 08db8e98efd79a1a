use txrp::crypto::{ArgonAlgorithm, ArgonVersion, EncryptionData};
use txrp::storage::{
    encryption_data_from_row, encryption_data_insert_statement, schema_statements,
    wallet_from_row, wallet_insert_statement, wallets_select_statement, InsertError, RowError,
    SqlValue,
};
use txrp::wallet::TXRPWallet;

fn text(s: &str) -> SqlValue {
    SqlValue::Text(s.to_string())
}

fn plain_wallet(mnemonic: Option<&str>) -> TXRPWallet {
    TXRPWallet {
        classic_address: "rAddr".to_string(),
        seed: "sSeed".to_string(),
        mnemonic: mnemonic.map(|m| m.to_string()),
        encryption_enabled: false,
        name: "name".to_string(),
        encryption_data: None,
    }
}

fn encrypted_wallet() -> TXRPWallet {
    let mut w = plain_wallet(Some("ct-mnemonic"));
    w.encryption_enabled = true;
    w.encryption_data = Some(EncryptionData::new(Some(vec![1; 32]), vec![2; 32], Some(vec![3; 12]), vec![4; 12]));
    w
}

fn values_equal(a: &SqlValue, b: &SqlValue) -> bool {
    match (a, b) {
        (SqlValue::Null, SqlValue::Null) | (SqlValue::Real, SqlValue::Real) => true,
        (SqlValue::Integer(x), SqlValue::Integer(y)) => x == y,
        (SqlValue::Text(x), SqlValue::Text(y)) => x == y,
        (SqlValue::Blob(x), SqlValue::Blob(y)) => x == y,
        _ => false,
    }
}

/// The joined row the database holds for the bound values of a stored wallet.
fn stored_row(id: i64, wallet: &[SqlValue], with_mnemonic: bool, encryption: Option<(i64, Vec<SqlValue>)>) -> Vec<SqlValue> {
    let mut row = vec![SqlValue::Integer(id), wallet[1].clone(), wallet[0].clone()];
    if with_mnemonic {
        row.extend([wallet[2].clone(), wallet[3].clone(), wallet[4].clone()]);
    } else {
        row.extend([SqlValue::Null, wallet[2].clone(), wallet[3].clone()]);
    }
    match encryption {
        Some((eid, values)) => {
            row.push(SqlValue::Integer(eid));
            row.extend(values);
        }
        None => row.extend((0..12).map(|_| SqlValue::Null)),
    }
    row
}

fn same_wallet(a: &TXRPWallet, b: &TXRPWallet) -> bool {
    let data_eq = match (&a.encryption_data, &b.encryption_data) {
        (None, None) => true,
        (Some(x), Some(y)) => x.salt_mnemonic == y.salt_mnemonic && x.salt_seed == y.salt_seed
            && x.nonce_mnemonic == y.nonce_mnemonic && x.nonce_seed == y.nonce_seed
            && x.m_cost == y.m_cost && x.t_cost == y.t_cost && x.p_cost == y.p_cost
            && x.output_len == y.output_len && x.argon_algorithm == y.argon_algorithm
            && x.argon_version == y.argon_version,
        _ => false,
    };
    a.classic_address == b.classic_address && a.seed == b.seed && a.mnemonic == b.mnemonic
        && a.encryption_enabled == b.encryption_enabled && a.name == b.name && data_eq
}

#[test]
fn schema_has_both_tables() {
    let s = schema_statements();
    assert_eq!(s.len(), 2);
    assert!(s[0].starts_with("CREATE TABLE IF NOT EXISTS `Wallet`"));
    assert!(s[1].starts_with("CREATE TABLE IF NOT EXISTS `EncryptionData`"));
    assert!(wallets_select_statement().contains("LEFT JOIN EncryptionData"));
}

#[test]
fn wallet_insert_binds_name_address_mnemonic_seed_flag() {
    let (query, values) = wallet_insert_statement(&plain_wallet(Some("words")));
    assert_eq!(query, "INSERT INTO `Wallet` (`Name`, `ClassicAddress`, `Mnemonic`, `Seed`, `EncryptionEnabled`) VALUES (?, ?, ?, ?, ?);");
    let expected = [text("name"), text("rAddr"), text("words"), text("sSeed"), SqlValue::Integer(0)];
    assert_eq!(values.len(), 5);
    assert!(values.iter().zip(expected.iter()).all(|(a, b)| values_equal(a, b)));
    let (query, values) = wallet_insert_statement(&plain_wallet(None));
    assert_eq!(query, "INSERT INTO `Wallet` (`Name`, `ClassicAddress` `Seed`, `EncryptionEnabled`) VALUES (?, ?, ?, ?);");
    assert_eq!(values.len(), 4);
}

#[test]
fn encryption_data_insert_binds_in_column_order() {
    let w = encrypted_wallet();
    let (query, values) = encryption_data_insert_statement(7, &w).unwrap();
    assert!(query.starts_with("INSERT INTO `EncryptionData`"));
    let expected = [
        SqlValue::Integer(7),
        SqlValue::Blob(vec![1; 32]),
        SqlValue::Blob(vec![3; 12]),
        SqlValue::Blob(vec![2; 32]),
        SqlValue::Blob(vec![4; 12]),
        SqlValue::Integer(30000),
        SqlValue::Integer(5),
        SqlValue::Integer(1),
        SqlValue::Integer(32),
        text("Argon2id"),
        text("V0x13"),
    ];
    assert_eq!(values.len(), 11);
    assert!(values.iter().zip(expected.iter()).all(|(a, b)| values_equal(a, b)));
}

#[test]
fn encryption_data_insert_errors() {
    let w = plain_wallet(None);
    assert_eq!(encryption_data_insert_statement(1, &w).unwrap_err(), InsertError::MissingEncryptionData);
    let mut e = encrypted_wallet();
    e.encryption_data.as_mut().unwrap().output_len = 256;
    assert_eq!(encryption_data_insert_statement(1, &e).unwrap_err(), InsertError::OutputLenTooLarge);
}

#[test]
fn stored_wallets_read_back() {
    for w in [plain_wallet(Some("words")), encrypted_wallet()] {
        let (_, values) = wallet_insert_statement(&w);
        let encryption = if w.encryption_enabled {
            Some((3, encryption_data_insert_statement(9, &w).unwrap().1))
        } else {
            None
        };
        let row = stored_row(9, &values, w.mnemonic.is_some(), encryption);
        let read = wallet_from_row(&row).unwrap();
        assert!(same_wallet(&read, &w));
    }
}

#[test]
fn row_errors_name_the_column() {
    let w = encrypted_wallet();
    let (_, values) = wallet_insert_statement(&w);
    let encryption = encryption_data_insert_statement(9, &w).unwrap().1;
    let good = stored_row(9, &values, true, Some((3, encryption)));

    let mut bad_id = good.clone();
    bad_id[0] = SqlValue::Integer(70000);
    assert_eq!(wallet_from_row(&bad_id).unwrap_err(), RowError::Column(0));

    let mut bad_name = good.clone();
    bad_name[2] = SqlValue::Null;
    assert_eq!(wallet_from_row(&bad_name).unwrap_err(), RowError::Column(2));

    let mut bad_salt = good.clone();
    bad_salt[10] = text("salt");
    assert_eq!(wallet_from_row(&bad_salt).unwrap_err(), RowError::Column(10));

    let mut bad_cost = good.clone();
    bad_cost[12] = SqlValue::Integer(-1);
    assert_eq!(encryption_data_from_row(&bad_cost).unwrap_err(), RowError::Column(12));

    let mut bad_algorithm = good.clone();
    bad_algorithm[16] = text("scrypt");
    assert_eq!(wallet_from_row(&bad_algorithm).unwrap_err(), RowError::UnknownArgonAlgorithm);

    let mut bad_version = good.clone();
    bad_version[17] = text("V0x99");
    assert_eq!(wallet_from_row(&bad_version).unwrap_err(), RowError::UnknownArgonVersion);

    assert_eq!(wallet_from_row(&good[..5].to_vec()).unwrap_err(), RowError::Column(5));
}

#[test]
fn unencrypted_rows_ignore_encryption_columns() {
    let w = plain_wallet(Some("words"));
    let (_, values) = wallet_insert_statement(&w);
    let mut row = stored_row(1, &values, true, None);
    row[16] = SqlValue::Real;
    let read = wallet_from_row(&row).unwrap();
    assert!(same_wallet(&read, &w));
    let mut flagged = row.clone();
    flagged[5] = SqlValue::Integer(2);
    assert_eq!(wallet_from_row(&flagged).unwrap_err(), RowError::Column(10));
    let _ = (ArgonAlgorithm::Argon2i, ArgonVersion::V0x10);
}
