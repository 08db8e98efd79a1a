use txrp::crypto::{
    create_key_from_password_and_salt, decrypt_ciphertext, encrypt_plaintext,
    encrypt_with_salt_and_nonce, password_fits, plaintext_fits, ArgonAlgorithm, ArgonVersion,
    EncryptionData, M_COST, OUTPUT_LEN, P_COST, T_COST,
};
use base64::Engine;
use txrp::encoding::utf8_text;

#[test]
fn ciphertext_is_standard_base64_of_sealed_bytes() {
    let ciphertext = encrypt_with_salt_and_nonce("hello", "pw", &[9u8; 32], &[8u8; 12]);
    let sealed = base64::engine::general_purpose::STANDARD.decode(&ciphertext).unwrap();
    assert_eq!(sealed.len(), 5 + 16);
    assert_eq!(base64::engine::general_purpose::STANDARD.encode(&sealed), ciphertext);
}

#[test]
fn utf8_text_accepts_only_valid_utf8() {
    assert_eq!(utf8_text("héllo".as_bytes().to_vec()), Some("héllo".to_string()));
    assert_eq!(utf8_text(vec![0xff, 0xfe]), None);
}

#[test]
fn key_derivation_is_deterministic_and_32_bytes() {
    let salt = [7u8; 32];
    let k1 = create_key_from_password_and_salt("test", &salt);
    let k2 = create_key_from_password_and_salt("test", &salt);
    let k3 = create_key_from_password_and_salt("other", &salt);
    assert_eq!(k1.len(), 32);
    assert_eq!(k1, k2);
    assert_ne!(k1, k3);
    assert_ne!(k1, b"test".to_vec());
}

#[test]
fn encryption_round_trip_with_fixed_salt_and_nonce() {
    let salt = [1u8; 32];
    let nonce = [2u8; 12];
    let ciphertext = encrypt_with_salt_and_nonce("snoPBrXtMeMyMHUVTgbuqAfg1SUTb", "pw", &salt, &nonce);
    assert_ne!(ciphertext, "snoPBrXtMeMyMHUVTgbuqAfg1SUTb");
    // 29 bytes of plaintext and a 16-byte tag give 45 bytes, 60 base64 characters.
    assert_eq!(ciphertext.len(), 60);
    let again = encrypt_with_salt_and_nonce("snoPBrXtMeMyMHUVTgbuqAfg1SUTb", "pw", &salt, &nonce);
    assert_eq!(ciphertext, again);
    assert_eq!(
        decrypt_ciphertext(&ciphertext, "pw", &salt, &nonce),
        Some("snoPBrXtMeMyMHUVTgbuqAfg1SUTb".to_string())
    );
}

#[test]
fn encrypt_plaintext_draws_fresh_salt_and_nonce() {
    let (ciphertext, salt, nonce) = encrypt_plaintext("secret words", "password");
    assert_eq!(salt.len(), 32);
    assert_eq!(nonce.len(), 12);
    assert_ne!(salt, vec![0u8; 32]);
    let (_, salt2, nonce2) = encrypt_plaintext("secret words", "password");
    assert_ne!(salt, salt2);
    assert_ne!(nonce, nonce2);
    assert_eq!(decrypt_ciphertext(&ciphertext, "password", &salt, &nonce), Some("secret words".to_string()));
    assert_eq!(decrypt_ciphertext(&ciphertext, "wrong", &salt, &nonce), None);
}

#[test]
fn decryption_refuses_unusable_inputs() {
    let salt = [1u8; 32];
    let nonce = [2u8; 12];
    assert_eq!(decrypt_ciphertext("aGVsbG8=", "pw", &salt, &[2u8; 11]), None);
    assert_eq!(decrypt_ciphertext("aGVsbG8=", "pw", &[1u8; 7], &nonce), None);
    assert_eq!(decrypt_ciphertext("not base64!", "pw", &salt, &nonce), None);
}

#[test]
fn argon_names_read_back() {
    for a in [ArgonAlgorithm::Argon2i, ArgonAlgorithm::Argon2d, ArgonAlgorithm::Argon2id] {
        assert_eq!(ArgonAlgorithm::from_string(&a.to_string()), Some(a));
    }
    for v in [ArgonVersion::V0x13, ArgonVersion::V0x10] {
        assert_eq!(ArgonVersion::from_string(&v.to_string()), Some(v));
    }
    assert_eq!(ArgonAlgorithm::Argon2id.to_string(), "Argon2id");
    assert_eq!(ArgonVersion::V0x13.to_string(), "V0x13");
    assert_eq!(ArgonAlgorithm::from_string(&"argon2id".to_string()), None);
    assert_eq!(ArgonVersion::from_string(&"V0x12".to_string()), None);
    assert_eq!(ArgonVersion::V0x13.number(), 19);
    assert_eq!(ArgonVersion::V0x10.number(), 16);
}

#[test]
fn encryption_data_records_parameters_in_use() {
    let d = EncryptionData::new(None, vec![1; 32], None, vec![2; 12]);
    assert_eq!((d.m_cost, d.t_cost, d.p_cost, d.output_len), (M_COST, T_COST, P_COST, OUTPUT_LEN));
    assert_eq!((d.m_cost, d.t_cost, d.p_cost, d.output_len), (30000, 5, 1, 32));
    assert_eq!(d.argon_algorithm, ArgonAlgorithm::Argon2id);
    assert_eq!(d.argon_version, ArgonVersion::V0x13);
}

#[test]
fn size_checks() {
    assert!(plaintext_fits("seed"));
    assert!(password_fits("password"));
}

#[test]
fn standard_base64_matches_rfc_4648_vectors() {
    let engine = &base64::engine::general_purpose::STANDARD;
    let vectors = [("", ""), ("f", "Zg=="), ("fo", "Zm8="), ("foo", "Zm9v"), ("foob", "Zm9vYg=="), ("fooba", "Zm9vYmE="), ("foobar", "Zm9vYmFy")];
    for (plain, text) in vectors {
        assert_eq!(engine.encode(plain.as_bytes()), text);
        assert_eq!(engine.decode(text).unwrap(), plain.as_bytes());
    }
    assert_eq!(engine.encode([0xfbu8, 0xff]), "+/8=");
}
