//! Wallet records: their creation from a mnemonic, from a family seed or
//! from nothing, and the password encryption and decryption of their secrets.

use vstd::prelude::*;
use vstd::utf8::*;
use crate::crypto::{
    EncryptionData, EncryptionDataView, MAX_ARGON_INPUT_LEN, NONCE_LEN, SALT_LEN,
    decrypt_ciphertext, encrypt_plaintext, lemma_ciphertext_differs, opened_text, parameters_in_use, password_fits,
    plaintext_accepted, plaintext_fits, seals,
};
use crate::keys::{
    Mnemonic, SEED_ENTROPY_LEN, WORD_COUNT, bip39_entropy, classic_address_of_seed,
    derive_seed_and_address, generate_family_seed_from_mnemonic, generate_mnemonic,
    phrase_keys, seed_address, xrpl_family_seed,
};

verus! {

/// A wallet as TXRP stores it: the seed (and the mnemonic it came from, if
/// any) from which the XRPL keys are derived again when needed. Where
/// `encryption_enabled` holds, seed and mnemonic hold base64 ciphertexts and
/// `encryption_data` what decrypts them.
#[derive(Clone, Debug)]
pub struct TXRPWallet {
    pub classic_address: String,
    pub seed: String,
    pub mnemonic: Option<String>,
    pub encryption_enabled: bool,
    pub name: String,
    pub encryption_data: Option<EncryptionData>,
}

/// The contents of a wallet record.
pub struct WalletView {
    pub classic_address: Seq<char>,
    pub seed: Seq<char>,
    pub mnemonic: Option<Seq<char>>,
    pub encryption_enabled: bool,
    pub name: Seq<char>,
    pub encryption_data: Option<EncryptionDataView>,
}

/// The text of an optional string.
pub open spec fn text_of(s: Option<String>) -> Option<Seq<char>> {
    match s {
        Some(t) => Some(t@),
        None => None,
    }
}

/// The contents of optional encryption data.
pub open spec fn data_of(d: Option<EncryptionData>) -> Option<EncryptionDataView> {
    match d {
        Some(data) => Some(data@),
        None => None,
    }
}

impl View for TXRPWallet {
    type V = WalletView;

    open spec fn view(&self) -> WalletView {
        WalletView {
            classic_address: self.classic_address@,
            seed: self.seed@,
            mnemonic: text_of(self.mnemonic),
            encryption_enabled: self.encryption_enabled,
            name: self.name@,
            encryption_data: data_of(self.encryption_data),
        }
    }
}

/// An unencrypted wallet record.
pub open spec fn plain_wallet(name: Seq<char>, address: Seq<char>, seed: Seq<char>, mnemonic: Option<Seq<char>>) -> WalletView {
    WalletView {
        classic_address: address,
        seed: seed,
        mnemonic: mnemonic,
        encryption_enabled: false,
        name: name,
        encryption_data: None,
    }
}

/// The record `e` holds the secrets of the plain record `p` encrypted under
/// `password`, each with its own fresh salt and nonce, under the key
/// derivation this library uses; name and address stay in the clear.
pub open spec fn encrypts(e: WalletView, p: WalletView, password: Seq<char>) -> bool {
    &&& e.name == p.name
    &&& e.classic_address == p.classic_address
    &&& e.encryption_enabled
    &&& e.encryption_data matches Some(d)
    &&& parameters_in_use(d)
    &&& d.salt_seed.len() == SALT_LEN
    &&& d.nonce_seed.len() == NONCE_LEN
    &&& seals(e.seed, p.seed, password, d.salt_seed, d.nonce_seed)
    &&& match p.mnemonic {
        None => e.mnemonic is None && d.salt_mnemonic is None && d.nonce_mnemonic is None,
        Some(m) => {
            &&& e.mnemonic matches Some(em)
            &&& d.salt_mnemonic matches Some(sm)
            &&& d.nonce_mnemonic matches Some(nm)
            &&& sm.len() == SALT_LEN
            &&& nm.len() == NONCE_LEN
            &&& seals(em, m, password, sm, nm)
        },
    }
}

/// The record made from `plain` with `password`: `plain` itself without a
/// password, an encryption of it with one.
pub open spec fn protected(w: WalletView, plain: WalletView, password: Option<Seq<char>>) -> bool {
    match password {
        None => w == plain,
        Some(p) => encrypts(w, plain, p),
    }
}

/// `w` is the record of the mnemonic `phrase`, named `name`: the phrase's
/// family seed and address, with the phrase kept, protected by `password`.
pub open spec fn wallet_from_phrase(name: Seq<char>, phrase: Seq<char>, password: Option<Seq<char>>, w: WalletView) -> bool {
    match phrase_keys(phrase) {
        Some(keys) => protected(w, plain_wallet(name, keys.1, keys.0, Some(phrase)), password),
        None => false,
    }
}

/// `w` is the record of the family seed `seed`, named `name`, without a
/// mnemonic, protected by `password`.
pub open spec fn wallet_from_seed(name: Seq<char>, seed: Seq<char>, password: Option<Seq<char>>, w: WalletView) -> bool {
    match seed_address(seed) {
        Some(address) => protected(w, plain_wallet(name, address, seed, None), password),
        None => false,
    }
}

/// The secrets can be encrypted under `password`: the password fits the key
/// derivation, and seed and mnemonic fit the cipher.
pub open spec fn secrets_encryptable(seed: Seq<char>, mnemonic: Option<Seq<char>>, password: Seq<char>) -> bool {
    &&& encode_utf8(password).len() <= MAX_ARGON_INPUT_LEN
    &&& plaintext_accepted(seed)
    &&& mnemonic matches Some(m) ==> plaintext_accepted(m)
}

/// The plain record that encrypting `w` starts from: a record with a
/// mnemonic is derived again from the mnemonic, one without from its seed.
pub open spec fn regenerated(w: WalletView) -> WalletView {
    match w.mnemonic {
        Some(m) => {
            let keys = phrase_keys(m).unwrap();
            plain_wallet(w.name, keys.1, keys.0, Some(m))
        },
        None => plain_wallet(w.name, seed_address(w.seed).unwrap(), w.seed, None),
    }
}

/// An unencrypted record can be encrypted under `password`: its mnemonic
/// (or, without one, its seed) yields keys, and its secrets fit.
pub open spec fn encryption_possible(w: WalletView, password: Seq<char>) -> bool {
    match w.mnemonic {
        Some(m) => match phrase_keys(m) {
            Some(keys) => secrets_encryptable(keys.0, Some(m), password),
            None => false,
        },
        None => seed_address(w.seed) is Some && secrets_encryptable(w.seed, None, password),
    }
}

/// What decrypting the record `e` with `password` gives: the plain record
/// with the recovered seed and mnemonic; `None` where the record lacks
/// encryption data (or a mnemonic's salt or nonce) or a secret does not open.
pub open spec fn decryption(e: WalletView, password: Seq<char>) -> Option<WalletView> {
    match e.encryption_data {
        None => None,
        Some(d) => match opened_text(e.seed, password, d.salt_seed, d.nonce_seed) {
            None => None,
            Some(seed) => match e.mnemonic {
                None => Some(plain_wallet(e.name, e.classic_address, seed, None)),
                Some(em) => match (d.salt_mnemonic, d.nonce_mnemonic) {
                    (Some(sm), Some(nm)) => match opened_text(em, password, sm, nm) {
                        Some(m) => Some(plain_wallet(e.name, e.classic_address, seed, Some(m))),
                        None => None,
                    },
                    _ => None,
                },
            },
        },
    }
}

/// Failures of wallet operations.
#[derive(Clone, Copy, Debug, PartialEq, Eq, Structural)]
pub enum WalletError {
    /// The seed is not a valid XRPL family seed.
    InvalidSeed,
    /// The wallet to encrypt is encrypted already.
    AlreadyEncrypted,
    /// The wallet to decrypt is not encrypted.
    NotEncrypted,
    /// A secret did not decrypt with the password.
    DecryptionFailed,
}

impl WalletError {
    /// The message shown for the failure.
    pub fn message(&self) -> (res: String)
        ensures
            res@ == (match *self {
                WalletError::InvalidSeed => "Error: The seed provided isn't a valid XRP wallet seed."@,
                WalletError::AlreadyEncrypted => "Error: convert_unencrypted_wallet_to_encrypted wallet failed because current wallet is encrypted."@,
                WalletError::NotEncrypted => "Error: decrypt() failed because current wallet isn't encrypted."@,
                WalletError::DecryptionFailed => "Error decryptiong wallet. Perhaps the password is wrong?"@,
            }),
    {
        match self {
            WalletError::InvalidSeed => String::from_str("Error: The seed provided isn't a valid XRP wallet seed."),
            WalletError::AlreadyEncrypted => String::from_str("Error: convert_unencrypted_wallet_to_encrypted wallet failed because current wallet is encrypted."),
            WalletError::NotEncrypted => String::from_str("Error: decrypt() failed because current wallet isn't encrypted."),
            WalletError::DecryptionFailed => String::from_str("Error decryptiong wallet. Perhaps the password is wrong?"),
        }
    }
}

/// A record with empty fields, for branches that the contracts rule out.
fn blank_wallet() -> (res: TXRPWallet)
    ensures
        res@ == plain_wallet(Seq::empty(), Seq::empty(), Seq::empty(), None),
{
    TXRPWallet {
        classic_address: String::new(),
        seed: String::new(),
        mnemonic: None,
        encryption_enabled: false,
        name: String::new(),
        encryption_data: None,
    }
}

impl TXRPWallet {
    /// The record of a mnemonic phrase: the phrase's family seed and the
    /// seed's classic address, with the phrase kept; seed and phrase are
    /// encrypted where a password is given.
    pub fn generate_from_mnemonic(wallet_name: String, mnemonic_string: &str, encryption_password: Option<String>) -> (res: TXRPWallet)
        requires
            phrase_keys(mnemonic_string@) is Some,
            encryption_password matches Some(p) ==> secrets_encryptable(
                phrase_keys(mnemonic_string@).unwrap().0, Some(mnemonic_string@), p@),
        ensures
            wallet_from_phrase(wallet_name@, mnemonic_string@, text_of(encryption_password), res@),
    {
        let mnemonic = match Mnemonic::parse(mnemonic_string) {
            Some(m) => m,
            None => {
                proof {
                    assert(false);
                }
                return blank_wallet();
            },
        };
        let seed = generate_family_seed_from_mnemonic(&mnemonic);
        let classic_address = match classic_address_of_seed(seed.as_str()) {
            Some(address) => address,
            None => {
                proof {
                    assert(false);
                }
                return blank_wallet();
            },
        };
        match encryption_password {
            None => TXRPWallet {
                classic_address,
                name: wallet_name,
                seed,
                mnemonic: Some(mnemonic_string.to_string()),
                encryption_enabled: false,
                encryption_data: None,
            },
            Some(password) => {
                let (seed_ciphertext, seed_salt, seed_nonce) = encrypt_plaintext(seed.as_str(), password.as_str());
                let (mnemonic_ciphertext, mnemonic_salt, mnemonic_nonce) = encrypt_plaintext(mnemonic_string, password.as_str());
                let encryption_data = EncryptionData::new(Some(mnemonic_salt), seed_salt, Some(mnemonic_nonce), seed_nonce);
                TXRPWallet {
                    classic_address,
                    name: wallet_name,
                    seed: seed_ciphertext,
                    mnemonic: Some(mnemonic_ciphertext),
                    encryption_enabled: true,
                    encryption_data: Some(encryption_data),
                }
            },
        }
    }

    /// The record of a family seed, without a mnemonic; the seed is
    /// encrypted where a password is given. Fails exactly where the XRPL
    /// crate refuses the seed.
    pub fn generate_from_seed(wallet_name: String, seed: &str, encryption_password: Option<String>) -> (res: Result<TXRPWallet, WalletError>)
        requires
            seed_address(seed@) is Some ==> (encryption_password matches Some(p) ==> secrets_encryptable(seed@, None, p@)),
        ensures
            match res {
                Ok(w) => wallet_from_seed(wallet_name@, seed@, text_of(encryption_password), w@),
                Err(e) => e == WalletError::InvalidSeed && seed_address(seed@) is None,
            },
    {
        let address = match classic_address_of_seed(seed) {
            Some(address) => address,
            None => return Err(WalletError::InvalidSeed),
        };
        match encryption_password {
            None => Ok(TXRPWallet {
                classic_address: address,
                name: wallet_name,
                seed: seed.to_string(),
                mnemonic: None,
                encryption_enabled: false,
                encryption_data: None,
            }),
            Some(password) => {
                let (seed_ciphertext, seed_salt, seed_nonce) = encrypt_plaintext(seed, password.as_str());
                let encryption_data = EncryptionData::new(None, seed_salt, None, seed_nonce);
                Ok(TXRPWallet {
                    classic_address: address,
                    name: wallet_name,
                    seed: seed_ciphertext,
                    mnemonic: None,
                    encryption_enabled: true,
                    encryption_data: Some(encryption_data),
                })
            },
        }
    }

    /// `generate_from_mnemonic` where its requirements hold: `None` exactly
    /// where the phrase yields no keys, or a password is given that the
    /// secrets or the password itself do not fit.
    pub fn generate_from_mnemonic_checked(wallet_name: String, mnemonic_string: &str, encryption_password: Option<String>) -> (res: Option<TXRPWallet>)
        ensures
            match res {
                Some(w) => wallet_from_phrase(wallet_name@, mnemonic_string@, text_of(encryption_password), w@),
                None => !(phrase_keys(mnemonic_string@) matches Some(keys) && (encryption_password matches Some(p)
                    ==> secrets_encryptable(keys.0, Some(mnemonic_string@), p@))),
            },
    {
        let fits = match derive_seed_and_address(mnemonic_string) {
            None => false,
            Some((seed, _)) => match &encryption_password {
                None => true,
                Some(p) => password_fits(p.as_str()) && plaintext_fits(seed.as_str()) && plaintext_fits(mnemonic_string),
            },
        };
        if fits {
            Some(TXRPWallet::generate_from_mnemonic(wallet_name, mnemonic_string, encryption_password))
        } else {
            None
        }
    }

    /// Whether `encrypt` can run on this unencrypted wallet with `password`:
    /// exactly where `encryption_possible` holds.
    pub fn encryption_possible_with(&self, password: &str) -> (res: bool)
        ensures
            res == encryption_possible(self@, password@),
    {
        if !password_fits(password) {
            return false;
        }
        match &self.mnemonic {
            Some(m) => match derive_seed_and_address(m.as_str()) {
                None => false,
                Some((seed, _)) => plaintext_fits(seed.as_str()) && plaintext_fits(m.as_str()),
            },
            None => classic_address_of_seed(self.seed.as_str()).is_some() && plaintext_fits(self.seed.as_str()),
        }
    }

    /// A record for a fresh random 12-word mnemonic, as
    /// `generate_from_mnemonic` makes it. `None` where the generated
    /// mnemonic yields no XRPL keys or its secrets do not fit the cipher.
    pub fn generate_from_nothing(wallet_name: String, encryption_password: Option<String>) -> (res: Option<TXRPWallet>)
        requires
            encryption_password matches Some(p) ==> encode_utf8(p@).len() <= MAX_ARGON_INPUT_LEN,
        ensures
            match res {
                Some(w) => exists|phrase: Seq<char>| {
                    &&& #[trigger] bip39_entropy(phrase) matches Some(entropy)
                    &&& entropy.len() == SEED_ENTROPY_LEN
                    &&& wallet_from_phrase(wallet_name@, phrase, text_of(encryption_password), w@)
                },
                None => exists|phrase: Seq<char>| {
                    &&& #[trigger] bip39_entropy(phrase) matches Some(entropy)
                    &&& entropy.len() == SEED_ENTROPY_LEN
                    &&& !(phrase_keys(phrase) matches Some(keys) && (encryption_password matches Some(p)
                        ==> secrets_encryptable(keys.0, Some(phrase), p@)))
                },
            },
    {
        let mnemonic = generate_mnemonic(WORD_COUNT);
        let mnemonic_string = mnemonic.to_string();
        let ghost phrase = mnemonic_string@;
        assert(bip39_entropy(phrase) == Some(mnemonic.entropy()));
        let keys = derive_seed_and_address(mnemonic_string.as_str());
        let fits = match (&keys, &encryption_password) {
            (None, _) => false,
            (Some(_), None) => true,
            (Some((seed, _)), Some(_)) => plaintext_fits(seed.as_str()) && plaintext_fits(mnemonic_string.as_str()),
        };
        if !fits {
            return None;
        }
        let wallet = TXRPWallet::generate_from_mnemonic(wallet_name, mnemonic_string.as_str(), encryption_password);
        Some(wallet)
    }

    /// The record with this wallet's secrets encrypted under `password`,
    /// made as `generate_from_mnemonic` (or, without a mnemonic,
    /// `generate_from_seed`) makes it from the wallet's mnemonic (or seed)
    /// and name. Fails where the wallet is encrypted already.
    pub fn encrypt(&self, password: &str) -> (res: Result<TXRPWallet, WalletError>)
        requires
            !self.encryption_enabled ==> encryption_possible(self@, password@),
        ensures
            self.encryption_enabled ==> res == Err::<TXRPWallet, WalletError>(WalletError::AlreadyEncrypted),
            !self.encryption_enabled ==> (res matches Ok(e) && encrypts(e@, regenerated(self@), password@)),
    {
        if self.encryption_enabled {
            return Err(WalletError::AlreadyEncrypted);
        }
        let wallet_name = self.name.clone();
        match &self.mnemonic {
            Some(mnemonic_string) => {
                let encrypted_wallet = TXRPWallet::generate_from_mnemonic(
                    wallet_name,
                    mnemonic_string.as_str(),
                    Some(password.to_string()),
                );
                Ok(encrypted_wallet)
            },
            None => match TXRPWallet::generate_from_seed(wallet_name, self.seed.as_str(), Some(password.to_string())) {
                Ok(encrypted_wallet) => Ok(encrypted_wallet),
                Err(_) => {
                    proof {
                        assert(false);
                    }
                    Err(WalletError::InvalidSeed)
                },
            },
        }
    }

    /// `encrypt` where its requirement holds: `None` exactly where the wallet
    /// is unencrypted and `encryption_possible` fails; otherwise what
    /// `encrypt` returns.
    pub fn encrypt_checked(&self, password: &str) -> (res: Option<Result<TXRPWallet, WalletError>>)
        ensures
            res is None <==> (!self.encryption_enabled && !encryption_possible(self@, password@)),
            self.encryption_enabled ==> res == Some(Err::<TXRPWallet, WalletError>(WalletError::AlreadyEncrypted)),
            (!self.encryption_enabled && encryption_possible(self@, password@)) ==> (res matches Some(Ok(e))
                && encrypts(e@, regenerated(self@), password@)),
    {
        if !self.encryption_enabled && !self.encryption_possible_with(password) {
            return None;
        }
        Some(self.encrypt(password))
    }

    /// The record with this wallet's secrets decrypted with `password`.
    /// Fails where the wallet is not encrypted, or where its secrets do not
    /// decrypt (a wrong password among other causes).
    pub fn decrypt(&self, password: &str) -> (res: Result<TXRPWallet, WalletError>)
        ensures
            match res {
                Ok(w) => self.encryption_enabled && decryption(self@, password@) == Some(w@),
                Err(e) => if self.encryption_enabled {
                    e == WalletError::DecryptionFailed && decryption(self@, password@) is None
                } else {
                    e == WalletError::NotEncrypted
                },
            },
    {
        if !self.encryption_enabled {
            return Err(WalletError::NotEncrypted);
        }
        match decrypt_wallet(self, password) {
            Some(wallet) => Ok(wallet),
            None => Err(WalletError::DecryptionFailed),
        }
    }
}

/// Decrypts the secrets of `wallet` with `password`; `None` exactly where
/// `decryption` is.
pub fn decrypt_wallet(wallet: &TXRPWallet, password: &str) -> (res: Option<TXRPWallet>)
    ensures
        match res {
            Some(w) => decryption(wallet@, password@) == Some(w@),
            None => decryption(wallet@, password@) is None,
        },
{
    let data = match &wallet.encryption_data {
        Some(d) => d,
        None => return None,
    };
    let seed = match decrypt_ciphertext(wallet.seed.as_str(), password, data.salt_seed.as_slice(), data.nonce_seed.as_slice()) {
        Some(s) => s,
        None => return None,
    };
    let mnemonic = match &wallet.mnemonic {
        None => None,
        Some(encrypted_mnemonic) => match (&data.salt_mnemonic, &data.nonce_mnemonic) {
            (Some(salt), Some(nonce)) => match decrypt_ciphertext(encrypted_mnemonic.as_str(), password, salt.as_slice(), nonce.as_slice()) {
                Some(m) => Some(m),
                None => return None,
            },
            _ => return None,
        },
    };
    Some(TXRPWallet {
        classic_address: wallet.classic_address.clone(),
        seed,
        mnemonic,
        encryption_enabled: false,
        name: wallet.name.clone(),
        encryption_data: None,
    })
}

/// Decryption undoes encryption: whatever salts and nonces encrypting a
/// plain record under `password` drew, decrypting the result with the same
/// password gives the plain record back.
pub proof fn lemma_decryption_undoes_encryption(e: WalletView, p: WalletView, password: Seq<char>)
    requires
        encrypts(e, p, password),
        p == plain_wallet(p.name, p.classic_address, p.seed, p.mnemonic),
    ensures
        decryption(e, password) == Some(p),
{
}

/// Encrypting a wallet and decrypting the result with the same password
/// gives back the plain record that encryption starts from.
pub proof fn lemma_encrypt_then_decrypt(w: WalletView, e: WalletView, password: Seq<char>)
    requires
        !w.encryption_enabled,
        encryption_possible(w, password),
        encrypts(e, regenerated(w), password),
    ensures
        decryption(e, password) == Some(regenerated(w)),
{
    lemma_decryption_undoes_encryption(e, regenerated(w), password);
}

/// A record made without a password from a mnemonic or from a seed is the
/// record that encrypting it starts from: it can be encrypted with any
/// password that fits, and decrypting that gives back the record itself.
pub proof fn lemma_generated_wallet_round_trip(w: WalletView, e: WalletView, name: Seq<char>, secret: Seq<char>, password: Seq<char>)
    requires
        wallet_from_phrase(name, secret, None, w) || wallet_from_seed(name, secret, None, w),
        encrypts(e, regenerated(w), password),
    ensures
        regenerated(w) == w,
        decryption(e, password) == Some(w),
{
    if wallet_from_phrase(name, secret, None, w) {
        assert(w.mnemonic == Some(secret));
    } else {
        assert(w.mnemonic is None);
    }
    lemma_decryption_undoes_encryption(e, regenerated(w), password);
}

/// Encryption hides the secrets: the stored seed differs from the plain
/// seed, and a stored mnemonic from the plain mnemonic.
pub proof fn lemma_encryption_hides_secrets(e: WalletView, p: WalletView, password: Seq<char>)
    requires
        encrypts(e, p, password),
    ensures
        e.seed != p.seed,
        p.mnemonic matches Some(m) ==> (e.mnemonic matches Some(em) && em != m),
{
    let d = e.encryption_data.unwrap();
    lemma_ciphertext_differs(e.seed, p.seed, password, d.salt_seed, d.nonce_seed);
    if let Some(m) = p.mnemonic {
        let em = e.mnemonic.unwrap();
        lemma_ciphertext_differs(em, m, password, d.salt_mnemonic.unwrap(), d.nonce_mnemonic.unwrap());
    }
}

/// The record of a mnemonic made with a password, against the one made
/// without: same name and address, encrypted where the other is not, seed
/// and mnemonic both stored differently, with a salt and nonce for the
/// mnemonic, and decrypting it with the password gives the other back.
pub proof fn lemma_password_record_against_plain(name: Seq<char>, phrase: Seq<char>, password: Seq<char>, a: WalletView, b: WalletView)
    requires
        wallet_from_phrase(name, phrase, None, a),
        wallet_from_phrase(name, phrase, Some(password), b),
    ensures
        b.classic_address == a.classic_address,
        b.name == a.name,
        b.encryption_enabled && !a.encryption_enabled,
        b.seed != a.seed,
        b.mnemonic != a.mnemonic,
        b.encryption_data matches Some(d) && d.salt_mnemonic is Some && d.nonce_mnemonic is Some,
        decryption(b, password) == Some(a),
{
    lemma_encryption_hides_secrets(b, a, password);
    lemma_decryption_undoes_encryption(b, a, password);
}

/// What encrypting a wallet keeps: the name, an encryption flag with its
/// data, a mnemonic exactly where the wallet had one, and a mnemonic salt and
/// nonce exactly where the record holds a mnemonic.
pub proof fn lemma_encrypted_record_shape(w: WalletView, e: WalletView, password: Seq<char>)
    requires
        encrypts(e, regenerated(w), password),
    ensures
        e.name == w.name,
        e.encryption_enabled,
        e.encryption_data is Some,
        (e.mnemonic is Some) == (w.mnemonic is Some),
        (e.encryption_data.unwrap().salt_mnemonic is Some) == (e.mnemonic is Some),
        (e.encryption_data.unwrap().nonce_mnemonic is Some) == (e.mnemonic is Some),
{
}

/// A record made from a mnemonic phrase holds the phrase's keys: its name
/// is the given name; its address is the classic address of the XRPL family
/// seed of the phrase's BIP-39 entropy; without a password its seed is that
/// family seed, its mnemonic the phrase, and it is not encrypted; with one,
/// seed and phrase are sealed under the password and open back to them.
pub proof fn lemma_phrase_record_holds_its_keys(name: Seq<char>, phrase: Seq<char>, password: Option<Seq<char>>, w: WalletView)
    requires
        wallet_from_phrase(name, phrase, password, w),
    ensures
        bip39_entropy(phrase) matches Some(entropy) && {
            let seed = xrpl_family_seed(entropy);
            &&& entropy.len() == SEED_ENTROPY_LEN
            &&& w.name == name
            &&& seed_address(seed) == Some(w.classic_address)
            &&& password is None ==> (w.seed == seed && w.mnemonic == Some(phrase) && !w.encryption_enabled)
            &&& password matches Some(p) ==> (w.encryption_enabled
                && decryption(w, p) == Some(plain_wallet(name, w.classic_address, seed, Some(phrase))))
        },
{
    if let Some(p) = password {
        let keys = phrase_keys(phrase).unwrap();
        lemma_decryption_undoes_encryption(w, plain_wallet(name, keys.1, keys.0, Some(phrase)), p);
    }
}

/// A record made from a family seed holds the seed's keys: its name is the
/// given name, its address the seed's classic address, and it has no
/// mnemonic; without a password its seed is the given seed and it is not
/// encrypted; with one, the seed is sealed under the password and opens
/// back to the given seed.
pub proof fn lemma_seed_record_holds_its_keys(name: Seq<char>, seed: Seq<char>, password: Option<Seq<char>>, w: WalletView)
    requires
        wallet_from_seed(name, seed, password, w),
    ensures
        seed_address(seed) == Some(w.classic_address),
        w.name == name,
        w.mnemonic is None,
        password is None ==> (w.seed == seed && !w.encryption_enabled),
        password matches Some(p) ==> (w.encryption_enabled
            && decryption(w, p) == Some(plain_wallet(name, w.classic_address, seed, None))),
{
    if let Some(p) = password {
        lemma_decryption_undoes_encryption(w, plain_wallet(name, seed_address(seed).unwrap(), seed, None), p);
    }
}

} // verus!
