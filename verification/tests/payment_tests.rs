use txrp::crypto::encrypt_with_salt_and_nonce;
use txrp::keys::classic_address_of_seed;
use txrp::ledger::{submit_params, JsonValue};
use txrp::payment::{address_fits, PaymentError};
use txrp::wallet::TXRPWallet;

const GENESIS_SEED: &str = "snoPBrXtMeMyMHUVTgbuqAfg1SUTb";
const GENESIS_ADDRESS: &str = "rHb9CJAWyB4rj91VRWn96DkukG4bwdtyTh";
const DESTINATION: &str = "r9cZA1mLK5R5Am25ArfXFmqgNwjZgnfk59";
// Base58 texts with a valid checksum and a payload of 0 and 2 bytes.
const EMPTY_PAYLOAD: &str = "sQJm86";
const TWO_BYTE_PAYLOAD: &str = "r3wVnsK";

fn wallet(address: &str, seed: &str) -> TXRPWallet {
    TXRPWallet {
        classic_address: address.to_string(),
        seed: seed.to_string(),
        mnemonic: None,
        encryption_enabled: false,
        name: "w".to_string(),
        encryption_data: None,
    }
}

#[test]
fn short_seed_texts_are_refused_without_panic() {
    assert_eq!(classic_address_of_seed(EMPTY_PAYLOAD), None);
    assert_eq!(classic_address_of_seed(TWO_BYTE_PAYLOAD), None);
    assert_eq!(classic_address_of_seed(GENESIS_SEED), Some(GENESIS_ADDRESS.to_string()));
}

#[test]
fn address_checks() {
    assert!(address_fits(GENESIS_ADDRESS));
    assert!(address_fits(DESTINATION));
    assert!(!address_fits(TWO_BYTE_PAYLOAD));
    assert!(!address_fits("not an address at all"));
    assert!(!address_fits(GENESIS_SEED));
}

#[test]
fn signed_payment_is_deterministic_and_signed() {
    let w = wallet(GENESIS_ADDRESS, GENESIS_SEED);
    let signed = w.signed_payment(DESTINATION, 1000, "12", 0x1_0000_0005, 77).unwrap();
    assert!(signed.contains("TxnSignature"));
    assert!(signed.contains("SigningPubKey"));
    assert!(signed.contains(DESTINATION));
    assert!(signed.contains("\"Sequence\":5"));
    assert!(signed.contains("\"LastLedgerSequence\":77"));
    assert!(signed.contains("\"Fee\":\"12\""));
    let again = w.signed_payment(DESTINATION, 1000, "12", 5, 77).unwrap();
    assert_eq!(signed, again);
    let other = w.signed_payment(DESTINATION, 1001, "12", 5, 77).unwrap();
    assert_ne!(signed, other);
}

#[test]
fn signed_payment_errors() {
    let w = wallet(GENESIS_ADDRESS, GENESIS_SEED);
    assert_eq!(w.signed_payment(TWO_BYTE_PAYLOAD, 1, "12", 1, 1), Err(PaymentError::InvalidDestination));
    assert_eq!(wallet("x", GENESIS_SEED).signed_payment(DESTINATION, 1, "12", 1, 1), Err(PaymentError::InvalidAccount));
    assert_eq!(wallet(GENESIS_ADDRESS, EMPTY_PAYLOAD).signed_payment(DESTINATION, 1, "12", 1, 1), Err(PaymentError::InvalidSeed));
    let encrypted = wallet(GENESIS_ADDRESS, "aGVsbG8gd29ybGQgaGVsbG8gd29ybGQ=");
    assert_eq!(encrypted.signed_payment(DESTINATION, 1, "12", 1, 1), Err(PaymentError::SigningFailed));
}

#[test]
fn submit_params_wrap_the_transaction() {
    match submit_params(JsonValue::Bool(true)) {
        JsonValue::Object(entries) => {
            assert_eq!(entries.len(), 1);
            assert_eq!(entries[0].0, "tx_json");
            assert!(matches!(entries[0].1, JsonValue::Bool(true)));
        }
        _ => panic!("not an object"),
    }
}

#[test]
fn ciphertext_length_follows_the_secret_length() {
    let salt = [7u8; 32];
    let nonce = [9u8; 12];
    let empty = encrypt_with_salt_and_nonce("", "pw", &salt, &nonce);
    assert_eq!(empty.len(), 24);
    let seed = encrypt_with_salt_and_nonce(GENESIS_SEED, "pw", &salt, &nonce);
    assert_eq!(seed.len(), 4 * ((GENESIS_SEED.len() + 18) / 3));
    assert_ne!(seed, GENESIS_SEED);
}

const X_DESTINATION: &str = "X7AcgcsBL6XDcUb289X4mJ8djcdyKaB5hJDWMArnXr61cqZ";
// A checksum-valid text with the X-address prefix and a 22-byte payload.
const SHORT_X_PAYLOAD: &str = "wMREERzgZ7r6a3cHZPmiW3VQ34ojXvvvt7P";

#[test]
fn x_addresses_are_accepted_when_whole() {
    assert!(address_fits(X_DESTINATION));
    assert!(!address_fits(SHORT_X_PAYLOAD));
}

#[test]
fn payment_to_an_x_address_is_signed_to_its_classic_address() {
    let w = wallet(GENESIS_ADDRESS, GENESIS_SEED);
    let signed = w.signed_payment(X_DESTINATION, 1000, "12", 5, 77).unwrap();
    assert!(signed.contains("TxnSignature"));
    assert!(signed.contains(DESTINATION));
    assert_eq!(w.signed_payment(SHORT_X_PAYLOAD, 1000, "12", 5, 77), Err(PaymentError::InvalidDestination));
}
