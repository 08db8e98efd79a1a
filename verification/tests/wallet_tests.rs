use txrp::keys::{
    classic_address_of_seed, derive_seed_and_address, generate_family_seed_from_mnemonic,
    generate_mnemonic, generate_xrp_wallet_without_mnemonic_or_seed, Mnemonic,
};
use txrp::wallet::{decrypt_wallet, TXRPWallet, WalletError};

const ABANDON: &str = "abandon abandon abandon abandon abandon abandon abandon abandon abandon abandon abandon about";
const GENESIS_SEED: &str = "snoPBrXtMeMyMHUVTgbuqAfg1SUTb";
const GENESIS_ADDRESS: &str = "rHb9CJAWyB4rj91VRWn96DkukG4bwdtyTh";

#[test]
fn mnemonic_parse_gives_entropy() {
    let m = Mnemonic::parse(ABANDON).unwrap();
    assert_eq!(m.to_entropy(), vec![0u8; 16]);
    assert_eq!(m.to_string(), ABANDON);
    assert!(Mnemonic::parse("abandon abandon").is_none());
    assert!(Mnemonic::parse("abandon abandon abandon abandon abandon abandon abandon abandon abandon abandon abandon abandon").is_none());
}

#[test]
fn generated_mnemonic_parses_back() {
    let m = generate_mnemonic(12);
    let phrase = m.to_string();
    assert_eq!(phrase.split(' ').count(), 12);
    assert_eq!(m.to_entropy().len(), 16);
    assert_eq!(Mnemonic::parse(&phrase).unwrap().to_entropy(), m.to_entropy());
    let m24 = generate_mnemonic(24);
    assert_eq!(m24.to_entropy().len(), 32);
}

#[test]
fn family_seed_of_mnemonic_matches_xrpl() {
    let m = Mnemonic::parse(ABANDON).unwrap();
    let seed = generate_family_seed_from_mnemonic(&m);
    let expected = xrpl::core::keypairs::generate_seed(Some([0u8; 16]), None).unwrap();
    assert_eq!(seed, expected);
    assert!(seed.starts_with("sEd"));
}

#[test]
fn classic_address_of_genesis_seed() {
    assert_eq!(classic_address_of_seed(GENESIS_SEED), Some(GENESIS_ADDRESS.to_string()));
    assert_eq!(classic_address_of_seed("not a seed"), None);
}

#[test]
fn derive_seed_and_address_of_phrase() {
    let (seed, address) = derive_seed_and_address(ABANDON).unwrap();
    assert_eq!(classic_address_of_seed(&seed), Some(address.clone()));
    assert!(address.starts_with('r'));
    assert!(derive_seed_and_address("not a mnemonic").is_none());
    let m24 = generate_mnemonic(24).to_string();
    assert!(derive_seed_and_address(&m24).is_none());
}

#[test]
fn wallet_from_seed_without_password() {
    let w = TXRPWallet::generate_from_seed("w".to_string(), GENESIS_SEED, None).unwrap();
    assert_eq!(w.classic_address, GENESIS_ADDRESS);
    assert_eq!(w.seed, GENESIS_SEED);
    assert_eq!(w.mnemonic, None);
    assert!(!w.encryption_enabled);
    assert!(w.encryption_data.is_none());
    assert_eq!(w.name, "w");
}

#[test]
fn wallet_from_invalid_seed_fails() {
    let r = TXRPWallet::generate_from_seed("w".to_string(), "xyz", None);
    assert_eq!(r.unwrap_err(), WalletError::InvalidSeed);
    assert_eq!(WalletError::InvalidSeed.message(), "Error: The seed provided isn't a valid XRP wallet seed.");
}

#[test]
fn seed_wallet_encrypt_then_decrypt() {
    let w = TXRPWallet::generate_from_seed("w".to_string(), GENESIS_SEED, None).unwrap();
    assert!(w.encryption_possible_with("test"));
    let e = w.encrypt("test").unwrap();
    assert!(e.encryption_enabled);
    assert_ne!(e.seed, GENESIS_SEED);
    assert_eq!(e.classic_address, GENESIS_ADDRESS);
    let data = e.encryption_data.as_ref().unwrap();
    assert!(data.salt_mnemonic.is_none() && data.nonce_mnemonic.is_none());
    assert_eq!(data.salt_seed.len(), 32);
    assert_eq!(data.nonce_seed.len(), 12);
    let d = e.decrypt("test").unwrap();
    assert_eq!(d.seed, GENESIS_SEED);
    assert_eq!(d.classic_address, GENESIS_ADDRESS);
    assert_eq!(d.name, "w");
    assert!(!d.encryption_enabled && d.encryption_data.is_none());
}

#[test]
fn mnemonic_wallet_encrypt_then_decrypt() {
    let w = TXRPWallet::generate_from_mnemonic("u1".to_string(), ABANDON, None);
    assert_eq!(w.mnemonic.as_deref(), Some(ABANDON));
    let e = w.encrypt("test").unwrap();
    assert_ne!(e.mnemonic.as_deref(), Some(ABANDON));
    let d = e.decrypt("test").unwrap();
    assert_eq!(d.seed, w.seed);
    assert_eq!(d.mnemonic, w.mnemonic);
    assert_eq!(d.classic_address, w.classic_address);
    assert_eq!(d.name, "u1");
}

#[test]
fn wallet_encryption_errors() {
    let w = TXRPWallet::generate_from_seed("w".to_string(), GENESIS_SEED, None).unwrap();
    assert_eq!(w.decrypt("test").unwrap_err(), WalletError::NotEncrypted);
    let e = w.encrypt("test").unwrap();
    assert_eq!(e.encrypt("test").unwrap_err(), WalletError::AlreadyEncrypted);
    assert_eq!(e.decrypt("wrong").unwrap_err(), WalletError::DecryptionFailed);
    assert!(decrypt_wallet(&e, "wrong").is_none());
}

#[test]
fn mnemonic_wallet_generated_with_password() {
    let e = TXRPWallet::generate_from_mnemonic("p".to_string(), ABANDON, Some("pw".to_string()));
    assert!(e.encryption_enabled);
    let data = e.encryption_data.as_ref().unwrap();
    assert_eq!(data.salt_mnemonic.as_ref().unwrap().len(), 32);
    let d = e.decrypt("pw").unwrap();
    assert_eq!(d.mnemonic.as_deref(), Some(ABANDON));
    let plain = TXRPWallet::generate_from_mnemonic("p".to_string(), ABANDON, None);
    assert_eq!(d.seed, plain.seed);
    assert_eq!(d.classic_address, plain.classic_address);
}

#[test]
fn checked_generation_refuses_bad_phrases() {
    assert!(TXRPWallet::generate_from_mnemonic_checked("x".to_string(), "not a phrase", None).is_none());
    let w = TXRPWallet::generate_from_mnemonic_checked("x".to_string(), ABANDON, None).unwrap();
    assert_eq!(w.mnemonic.as_deref(), Some(ABANDON));
}

#[test]
fn generate_from_nothing_then_round_trip() {
    let w = TXRPWallet::generate_from_nothing("u1".to_string(), None).unwrap();
    let phrase = w.mnemonic.clone().unwrap();
    assert_eq!(phrase.split(' ').count(), 12);
    assert_eq!(classic_address_of_seed(&w.seed), Some(w.classic_address.clone()));
    let e = w.encrypt("test").unwrap();
    let d = e.decrypt("test").unwrap();
    assert_eq!(d.seed, w.seed);
    assert_eq!(d.mnemonic, w.mnemonic);
}

#[test]
fn generates_random_xrpl_wallet() {
    let wallet = generate_xrp_wallet_without_mnemonic_or_seed(None).unwrap();
    assert!(wallet.classic_address.starts_with('r'));
    let other = generate_xrp_wallet_without_mnemonic_or_seed(Some(24)).unwrap();
    assert_ne!(wallet.classic_address, other.classic_address);
}

#[test]
fn encrypt_checked_refuses_only_what_encrypt_cannot_take() {
    let w = TXRPWallet::generate_from_seed("w".to_string(), GENESIS_SEED, None).unwrap();
    let e = w.encrypt_checked("pw").unwrap().unwrap();
    assert!(e.encryption_enabled);
    assert_eq!(e.decrypt("pw").unwrap().seed, GENESIS_SEED);
    assert_eq!(e.encrypt_checked("pw").unwrap().unwrap_err(), WalletError::AlreadyEncrypted);
    let mut broken = w.clone();
    broken.seed = "not a seed at all".to_string();
    assert!(broken.encrypt_checked("pw").is_none());
}
