//! Password-based encryption of wallet secrets: an Argon2 key derived from
//! the password and a random salt, AES-256-GCM under a random nonce, and
//! base64 text for the stored ciphertext.

use aes_gcm::aead::Aead;
use aes_gcm::aead::AeadCore;
use aes_gcm::KeyInit;
use vstd::prelude::*;
use vstd::utf8::*;
use crate::encoding::{base64_encode, base64_decode, utf8_text, fill_random, base64_standard_encoding, base64_standard_decoding, lemma_base64_length, lemma_base64_decodes_encoding};

verus! {

broadcast use vstd::utf8::encode_utf8_decode_utf8, vstd::utf8::encode_utf8_valid_utf8;

/// Memory cost (KiB) of the key derivation.
pub const M_COST: u32 = 30000;
/// Number of passes of the key derivation.
pub const T_COST: u32 = 5;
/// Degree of parallelism of the key derivation.
pub const P_COST: u32 = 1;
/// Length in bytes of a derived key: an AES-256 key.
pub const OUTPUT_LEN: usize = 32;
/// Length in bytes of a fresh salt.
pub const SALT_LEN: usize = 32;
/// Length in bytes of an AES-GCM nonce.
pub const NONCE_LEN: usize = 12;
/// Largest plaintext, in bytes, that AES-GCM accepts.
pub const MAX_PLAINTEXT_LEN: u64 = 0x10_0000_0000;
/// Largest password or salt, in bytes, that Argon2 accepts.
pub const MAX_ARGON_INPUT_LEN: usize = 0xFFFF_FFFF;
/// Smallest salt, in bytes, that Argon2 accepts.
pub const MIN_SALT_LEN: usize = 8;

/// Version of the Argon2 algorithm.
#[derive(Clone, Copy, Debug, PartialEq, Eq, Structural)]
pub enum ArgonVersion {
    V0x13,
    V0x10,
}

/// Variant of the Argon2 algorithm.
#[derive(Clone, Copy, Debug, PartialEq, Eq, Structural)]
pub enum ArgonAlgorithm {
    Argon2i,
    Argon2d,
    Argon2id,
}

/// The variant this library derives keys with.
pub open spec fn argon_algorithm_in_use() -> ArgonAlgorithm {
    ArgonAlgorithm::Argon2id
}

/// The version this library derives keys with.
pub open spec fn argon_version_in_use() -> ArgonVersion {
    ArgonVersion::V0x13
}

/// The name under which an Argon2 variant is stored.
pub open spec fn algorithm_name(algorithm: ArgonAlgorithm) -> Seq<char> {
    match algorithm {
        ArgonAlgorithm::Argon2i => "Argon2i"@,
        ArgonAlgorithm::Argon2d => "Argon2d"@,
        ArgonAlgorithm::Argon2id => "Argon2id"@,
    }
}

/// The name under which an Argon2 version is stored.
pub open spec fn version_name(version: ArgonVersion) -> Seq<char> {
    match version {
        ArgonVersion::V0x13 => "V0x13"@,
        ArgonVersion::V0x10 => "V0x10"@,
    }
}

/// The variant whose stored name is `name`, if any.
pub open spec fn algorithm_named(name: Seq<char>) -> Option<ArgonAlgorithm> {
    if name == algorithm_name(ArgonAlgorithm::Argon2i) {
        Some(ArgonAlgorithm::Argon2i)
    } else if name == algorithm_name(ArgonAlgorithm::Argon2d) {
        Some(ArgonAlgorithm::Argon2d)
    } else if name == algorithm_name(ArgonAlgorithm::Argon2id) {
        Some(ArgonAlgorithm::Argon2id)
    } else {
        None
    }
}

/// The version whose stored name is `name`, if any.
pub open spec fn version_named(name: Seq<char>) -> Option<ArgonVersion> {
    if name == version_name(ArgonVersion::V0x13) {
        Some(ArgonVersion::V0x13)
    } else if name == version_name(ArgonVersion::V0x10) {
        Some(ArgonVersion::V0x10)
    } else {
        None
    }
}

/// Reading back a stored name gives the variant or version that was stored.
pub proof fn lemma_stored_names_read_back(algorithm: ArgonAlgorithm, version: ArgonVersion)
    ensures
        algorithm_named(algorithm_name(algorithm)) == Some(algorithm),
        version_named(version_name(version)) == Some(version),
{
    reveal_strlit("Argon2i");
    reveal_strlit("Argon2d");
    reveal_strlit("Argon2id");
    reveal_strlit("V0x13");
    reveal_strlit("V0x10");
    assert("Argon2i"@[6] != "Argon2d"@[6]);
    assert("Argon2i"@.len() != "Argon2id"@.len());
    assert("Argon2d"@.len() != "Argon2id"@.len());
    assert("V0x13"@[4] != "V0x10"@[4]);
}

impl ArgonAlgorithm {
    /// The stored name of the variant.
    pub fn to_string(&self) -> (res: String)
        ensures
            res@ == algorithm_name(*self),
    {
        match self {
            ArgonAlgorithm::Argon2i => String::from_str("Argon2i"),
            ArgonAlgorithm::Argon2d => String::from_str("Argon2d"),
            ArgonAlgorithm::Argon2id => String::from_str("Argon2id"),
        }
    }

    /// The variant stored under `name`, if any.
    pub fn from_string(name: &String) -> (res: Option<ArgonAlgorithm>)
        ensures
            res == algorithm_named(name@),
    {
        if *name == String::from_str("Argon2i") {
            Some(ArgonAlgorithm::Argon2i)
        } else if *name == String::from_str("Argon2d") {
            Some(ArgonAlgorithm::Argon2d)
        } else if *name == String::from_str("Argon2id") {
            Some(ArgonAlgorithm::Argon2id)
        } else {
            None
        }
    }
}

impl ArgonVersion {
    /// The stored name of the version.
    pub fn to_string(&self) -> (res: String)
        ensures
            res@ == version_name(*self),
    {
        match self {
            ArgonVersion::V0x13 => String::from_str("V0x13"),
            ArgonVersion::V0x10 => String::from_str("V0x10"),
        }
    }

    /// The version stored under `name`, if any.
    pub fn from_string(name: &String) -> (res: Option<ArgonVersion>)
        ensures
            res == version_named(name@),
    {
        if *name == String::from_str("V0x13") {
            Some(ArgonVersion::V0x13)
        } else if *name == String::from_str("V0x10") {
            Some(ArgonVersion::V0x10)
        } else {
            None
        }
    }

    /// The version number that Argon2 writes for this version.
    pub fn number(&self) -> (res: u32)
        ensures
            res == (match *self {
                ArgonVersion::V0x13 => 0x13u32,
                ArgonVersion::V0x10 => 0x10u32,
            }),
    {
        match self {
            ArgonVersion::V0x13 => 0x13,
            ArgonVersion::V0x10 => 0x10,
        }
    }
}

/// Declares `argon2::Error` so that the key derivation can return it.
#[verifier::external_type_specification]
#[verifier::external_body]
pub struct ExArgon2Error(argon2::Error);

/// Declares `aes_gcm::Error`, the AEAD failure.
#[verifier::external_type_specification]
#[verifier::external_body]
pub struct ExAeadError(aes_gcm::Error);

/// The bytes that Argon2, run with these parameters, writes for `password`
/// and `salt`.
pub uninterp spec fn argon2_hash_output(
    password: Seq<u8>,
    salt: Seq<u8>,
    m_cost: u32,
    t_cost: u32,
    p_cost: u32,
    output_len: usize,
    algorithm: ArgonAlgorithm,
    version: ArgonVersion,
) -> Seq<u8>;

/// The parameters that `argon2::Params::new` accepts.
pub open spec fn argon2_params_accepted(m_cost: u32, t_cost: u32, p_cost: u32, output_len: usize) -> bool {
    &&& m_cost >= 8
    &&& m_cost >= 8 * p_cost
    &&& t_cost >= 1
    &&& 1 <= p_cost <= 0xFF_FFFF
    &&& 4 <= output_len <= 0xFFFF_FFFF
}

/// Runs `argon2::Params::new`, `argon2::Argon2::new` (with the variant and
/// version of the same names in `argon2`) and `Argon2::hash_password_into`
/// (into a buffer of `output_len` bytes).
/// Claims what their source shows: the run succeeds exactly when the
/// parameters pass `Params::new`'s checks, the password holds at most
/// 2^32 - 1 bytes and the salt between 8 and 2^32 - 1; the bytes written are
/// the Argon2 output for these inputs. `Params::new` multiplies `p_cost` by 8
/// in `u32`; `requires` leaves out the values where that overflows.
#[verifier::external_body]
fn argon2_hash(
    password: &[u8],
    salt: &[u8],
    m_cost: u32,
    t_cost: u32,
    p_cost: u32,
    output_len: usize,
    algorithm: ArgonAlgorithm,
    version: ArgonVersion,
) -> (res: Result<Vec<u8>, argon2::Error>)
    requires
        p_cost <= 0x1FFF_FFFF,
    ensures
        res is Ok <==> (argon2_params_accepted(m_cost, t_cost, p_cost, output_len)
            && password@.len() <= MAX_ARGON_INPUT_LEN && MIN_SALT_LEN <= salt@.len() <= MAX_ARGON_INPUT_LEN),
        res matches Ok(key) ==> key@ == argon2_hash_output(
            password@, salt@, m_cost, t_cost, p_cost, output_len, algorithm, version)
            && key@.len() == output_len,
{
    let params = argon2::Params::new(m_cost, t_cost, p_cost, Some(output_len))?;
    let algorithm = match algorithm {
        ArgonAlgorithm::Argon2i => argon2::Algorithm::Argon2i,
        ArgonAlgorithm::Argon2d => argon2::Algorithm::Argon2d,
        ArgonAlgorithm::Argon2id => argon2::Algorithm::Argon2id,
    };
    let version = match version {
        ArgonVersion::V0x10 => argon2::Version::V0x10,
        ArgonVersion::V0x13 => argon2::Version::V0x13,
    };
    let mut key = vec![0u8; output_len];
    argon2::Argon2::new(algorithm, version, params).hash_password_into(password, salt, &mut key)?;
    Ok(key)
}

/// What AES-256-GCM, without associated data, makes of `plaintext` under
/// `key` and `nonce`: the ciphertext with its tag appended.
pub uninterp spec fn aes256gcm_seal(key: Seq<u8>, nonce: Seq<u8>, plaintext: Seq<u8>) -> Seq<u8>;

/// What AES-256-GCM, without associated data, recovers from `ciphertext`
/// under `key` and `nonce`; `None` where the tag does not authenticate it.
pub uninterp spec fn aes256gcm_open(key: Seq<u8>, nonce: Seq<u8>, ciphertext: Seq<u8>) -> Option<Seq<u8>>;

/// Calls `Aes256Gcm::new` on the key and `Aead::encrypt` with the nonce.
/// Claims what the source shows: it fails exactly on plaintexts longer than
/// 2^36 bytes; otherwise the result is the sealed text (the encrypted bytes
/// followed by the 16-byte tag), which `decrypt` under
/// the same key and nonce opens back to the plaintext. The key and nonce
/// are read as fixed-size arrays, which panics on other lengths: `requires`
/// leaves those out.
#[verifier::external_body]
fn aes256gcm_encrypt(key: &[u8], nonce: &[u8], plaintext: &[u8]) -> (res: Result<Vec<u8>, aes_gcm::Error>)
    requires
        key@.len() == OUTPUT_LEN,
        nonce@.len() == NONCE_LEN,
    ensures
        res is Ok <==> plaintext@.len() <= MAX_PLAINTEXT_LEN,
        res matches Ok(sealed) ==> sealed@ == aes256gcm_seal(key@, nonce@, plaintext@)
            && sealed@.len() == plaintext@.len() + 16
            && aes256gcm_open(key@, nonce@, sealed@) == Some(plaintext@),
{
    let cipher = aes_gcm::Aes256Gcm::new(aes_gcm::Key::<aes_gcm::Aes256Gcm>::from_slice(key));
    cipher.encrypt(aes_gcm::Nonce::from_slice(nonce), plaintext)
}

/// Calls `Aes256Gcm::new` on the key and `Aead::decrypt` with the nonce.
/// Claims that it succeeds exactly where the text opens, with that plaintext.
/// Key and nonce lengths as for encryption.
#[verifier::external_body]
fn aes256gcm_decrypt(key: &[u8], nonce: &[u8], ciphertext: &[u8]) -> (res: Result<Vec<u8>, aes_gcm::Error>)
    requires
        key@.len() == OUTPUT_LEN,
        nonce@.len() == NONCE_LEN,
    ensures
        match res {
            Ok(plain) => aes256gcm_open(key@, nonce@, ciphertext@) == Some(plain@),
            Err(_) => aes256gcm_open(key@, nonce@, ciphertext@) is None,
        },
{
    let cipher = aes_gcm::Aes256Gcm::new(aes_gcm::Key::<aes_gcm::Aes256Gcm>::from_slice(key));
    cipher.decrypt(aes_gcm::Nonce::from_slice(nonce), ciphertext)
}

/// Calls `Aes256Gcm::generate_nonce` with `rand::rngs::OsRng`. The bytes are
/// random: only the length, the cipher's 96-bit nonce size, is claimed.
#[verifier::external_body]
fn aes256gcm_generate_nonce() -> (res: Vec<u8>)
    ensures
        res@.len() == NONCE_LEN,
{
    aes_gcm::Aes256Gcm::generate_nonce(&mut rand::rngs::OsRng).to_vec()
}

/// The key this library derives from `password` and `salt`: Argon2id,
/// version 0x13, with the costs above and a 32-byte output.
pub open spec fn derived_key(password: Seq<char>, salt: Seq<u8>) -> Seq<u8> {
    argon2_hash_output(
        encode_utf8(password),
        salt,
        M_COST,
        T_COST,
        P_COST,
        OUTPUT_LEN,
        argon_algorithm_in_use(),
        argon_version_in_use(),
    )
}

/// Inputs the key derivation accepts: a password of at most 2^32 - 1 bytes
/// and a salt of 8 to 2^32 - 1 bytes.
pub open spec fn key_inputs_accepted(password: Seq<char>, salt: Seq<u8>) -> bool {
    &&& encode_utf8(password).len() <= MAX_ARGON_INPUT_LEN
    &&& MIN_SALT_LEN <= salt.len() <= MAX_ARGON_INPUT_LEN
}

/// Plaintexts that can be encrypted: at most 2^36 bytes of UTF-8 (the
/// cipher's limit), and short enough that the base64 text of the sealed
/// bytes has a length that fits in `usize`.
pub open spec fn plaintext_accepted(plaintext: Seq<char>) -> bool {
    &&& encode_utf8(plaintext).len() <= MAX_PLAINTEXT_LEN
    &&& (encode_utf8(plaintext).len() + 16) / 3 * 4 + 4 <= usize::MAX
}

/// The stored text of `plaintext` encrypted under `password` with `salt`
/// and `nonce`: the base64 of its AES-256-GCM sealing under the derived key.
pub open spec fn sealed_text(plaintext: Seq<char>, password: Seq<char>, salt: Seq<u8>, nonce: Seq<u8>) -> Seq<char> {
    base64_standard_encoding(aes256gcm_seal(derived_key(password, salt), nonce, encode_utf8(plaintext)))
}

/// What decryption recovers from the stored text `ciphertext` with
/// `password`, `salt` and `nonce`: `None` where the salt, nonce or password
/// cannot be used, the text is not base64, the tag does not authenticate, or
/// the recovered bytes are not UTF-8.
pub open spec fn opened_text(ciphertext: Seq<char>, password: Seq<char>, salt: Seq<u8>, nonce: Seq<u8>) -> Option<Seq<char>> {
    if !key_inputs_accepted(password, salt) || nonce.len() != NONCE_LEN {
        None
    } else {
        match base64_standard_decoding(ciphertext) {
            None => None,
            Some(sealed) => match aes256gcm_open(derived_key(password, salt), nonce, sealed) {
                None => None,
                Some(plain) => if valid_utf8(plain) {
                    Some(decode_utf8(plain))
                } else {
                    None
                },
            },
        }
    }
}

/// The length of the stored text of a plaintext of `n` UTF-8 bytes: the
/// padded base64 of the `n + 16` sealed bytes.
pub open spec fn sealed_text_len(n: nat) -> nat {
    4 * ((n + 18) / 3)
}

/// The stored text of `plaintext` is `sealed_text`, of the length that its
/// UTF-8 size gives, and it opens back to `plaintext` with the same
/// password, salt and nonce.
pub open spec fn seals(ciphertext: Seq<char>, plaintext: Seq<char>, password: Seq<char>, salt: Seq<u8>, nonce: Seq<u8>) -> bool {
    &&& ciphertext == sealed_text(plaintext, password, salt, nonce)
    &&& ciphertext.len() == sealed_text_len(encode_utf8(plaintext).len())
    &&& opened_text(ciphertext, password, salt, nonce) == Some(plaintext)
}

/// A text has at least as many UTF-8 bytes as characters.
pub proof fn lemma_utf8_len_at_least_chars(s: Seq<char>)
    ensures
        encode_utf8(s).len() >= s.len(),
    decreases s.len(),
{
    if s.len() > 0 {
        lemma_utf8_len_at_least_chars(s.drop_first());
    }
}

/// An encrypted secret is never its own plain text: the stored text is
/// longer than the secret.
pub proof fn lemma_ciphertext_differs(ciphertext: Seq<char>, plaintext: Seq<char>, password: Seq<char>, salt: Seq<u8>, nonce: Seq<u8>)
    requires
        seals(ciphertext, plaintext, password, salt, nonce),
    ensures
        ciphertext.len() > plaintext.len(),
        ciphertext != plaintext,
{
    lemma_utf8_len_at_least_chars(plaintext);
    let n = encode_utf8(plaintext).len();
    assert(4 * ((n + 18) / 3) > n) by (nonlinear_arith);
}

/// Derives the encryption key of `password` and `salt` (Argon2id, version
/// 0x13, memory 30000 KiB, 5 passes, 1 lane, 32 bytes).
pub fn create_key_from_password_and_salt(password: &str, salt: &[u8]) -> (key: Vec<u8>)
    requires
        key_inputs_accepted(password@, salt@),
    ensures
        key@ == derived_key(password@, salt@),
        key@.len() == OUTPUT_LEN,
{
    let password_bytes = password.as_bytes();
    let res = argon2_hash(
        password_bytes,
        salt,
        M_COST,
        T_COST,
        P_COST,
        OUTPUT_LEN,
        ArgonAlgorithm::Argon2id,
        ArgonVersion::V0x13,
    );
    match res {
        Ok(key) => {
            key
        },
        Err(_) => {
            proof {
                assert(false);
            }
            Vec::new()
        },
    }
}

/// Encrypts `plaintext` under `password` with the given salt and nonce and
/// returns the base64 text of the sealed bytes.
pub fn encrypt_with_salt_and_nonce(plaintext: &str, password: &str, salt: &[u8], nonce: &[u8]) -> (res: String)
    requires
        key_inputs_accepted(password@, salt@),
        nonce@.len() == NONCE_LEN,
        plaintext_accepted(plaintext@),
    ensures
        seals(res@, plaintext@, password@, salt@, nonce@),
{
    let key = create_key_from_password_and_salt(password, salt);
    let plaintext_bytes = plaintext.as_bytes();
    match aes256gcm_encrypt(key.as_slice(), nonce, plaintext_bytes) {
        Ok(sealed) => {
            let text = base64_encode(sealed.as_slice());
            proof {
                lemma_base64_length(sealed@);
                lemma_base64_decodes_encoding(sealed@);
                encode_utf8_valid_utf8(plaintext@);
                encode_utf8_decode_utf8(plaintext@);
            }
            text
        },
        Err(_) => {
            proof {
                assert(false);
            }
            String::new()
        },
    }
}

/// Encrypts `plaintext` under `password` with a fresh random 32-byte salt
/// and a fresh random nonce; returns the base64 ciphertext, the salt and the
/// nonce.
pub fn encrypt_plaintext(plaintext: &str, password: &str) -> (res: (String, Vec<u8>, Vec<u8>))
    requires
        encode_utf8(password@).len() <= MAX_ARGON_INPUT_LEN,
        plaintext_accepted(plaintext@),
    ensures
        res.1@.len() == SALT_LEN,
        res.2@.len() == NONCE_LEN,
        seals(res.0@, plaintext@, password@, res.1@, res.2@),
{
    let mut salt: Vec<u8> = vec![0u8; SALT_LEN];
    fill_random(&mut salt);
    let nonce = aes256gcm_generate_nonce();
    let ciphertext = encrypt_with_salt_and_nonce(plaintext, password, salt.as_slice(), nonce.as_slice());
    (ciphertext, salt, nonce)
}

/// Decrypts the base64 text `ciphertext` with `password`, `salt` and
/// `nonce`; `None` exactly where `opened_text` is.
pub fn decrypt_ciphertext(ciphertext: &str, password: &str, salt: &[u8], nonce: &[u8]) -> (res: Option<String>)
    ensures
        match res {
            Some(text) => opened_text(ciphertext@, password@, salt@, nonce@) == Some(text@),
            None => opened_text(ciphertext@, password@, salt@, nonce@) is None,
        },
{
    let password_bytes = password.as_bytes();
    if password_bytes.len() > MAX_ARGON_INPUT_LEN || salt.len() < MIN_SALT_LEN
        || salt.len() > MAX_ARGON_INPUT_LEN || nonce.len() != NONCE_LEN {
        return None;
    }
    let key = create_key_from_password_and_salt(password, salt);
    match base64_decode(ciphertext) {
        Err(_) => None,
        Ok(sealed) => match aes256gcm_decrypt(key.as_slice(), nonce, sealed.as_slice()) {
            Err(_) => None,
            Ok(plain) => utf8_text(plain),
        },
    }
}

/// What a wallet record keeps to decrypt its secrets: the salt and nonce of
/// each encrypted secret and the key-derivation parameters.
#[derive(Clone, Debug)]
pub struct EncryptionData {
    pub salt_mnemonic: Option<Vec<u8>>,
    pub salt_seed: Vec<u8>,
    pub nonce_mnemonic: Option<Vec<u8>>,
    pub nonce_seed: Vec<u8>,
    pub m_cost: u32,
    pub t_cost: u32,
    pub p_cost: u32,
    pub output_len: usize,
    pub argon_algorithm: ArgonAlgorithm,
    pub argon_version: ArgonVersion,
}

/// The contents of `EncryptionData`, with bytes as sequences.
pub struct EncryptionDataView {
    pub salt_mnemonic: Option<Seq<u8>>,
    pub salt_seed: Seq<u8>,
    pub nonce_mnemonic: Option<Seq<u8>>,
    pub nonce_seed: Seq<u8>,
    pub m_cost: u32,
    pub t_cost: u32,
    pub p_cost: u32,
    pub output_len: usize,
    pub argon_algorithm: ArgonAlgorithm,
    pub argon_version: ArgonVersion,
}

/// The bytes of an optional byte vector.
pub open spec fn bytes_of(v: Option<Vec<u8>>) -> Option<Seq<u8>> {
    match v {
        Some(b) => Some(b@),
        None => None,
    }
}

impl View for EncryptionData {
    type V = EncryptionDataView;

    open spec fn view(&self) -> EncryptionDataView {
        EncryptionDataView {
            salt_mnemonic: bytes_of(self.salt_mnemonic),
            salt_seed: self.salt_seed@,
            nonce_mnemonic: bytes_of(self.nonce_mnemonic),
            nonce_seed: self.nonce_seed@,
            m_cost: self.m_cost,
            t_cost: self.t_cost,
            p_cost: self.p_cost,
            output_len: self.output_len,
            argon_algorithm: self.argon_algorithm,
            argon_version: self.argon_version,
        }
    }
}

/// The key-derivation parameters this library encrypts with.
pub open spec fn parameters_in_use(data: EncryptionDataView) -> bool {
    &&& data.m_cost == M_COST
    &&& data.t_cost == T_COST
    &&& data.p_cost == P_COST
    &&& data.output_len == OUTPUT_LEN
    &&& data.argon_algorithm == argon_algorithm_in_use()
    &&& data.argon_version == argon_version_in_use()
}

impl EncryptionData {
    /// Records the salts and nonces of a wallet's encrypted secrets, with the
    /// key-derivation parameters this library uses.
    pub fn new(
        salt_mnemonic: Option<Vec<u8>>,
        salt_seed: Vec<u8>,
        nonce_mnemonic: Option<Vec<u8>>,
        nonce_seed: Vec<u8>,
    ) -> (res: EncryptionData)
        ensures
            res@.salt_mnemonic == bytes_of(salt_mnemonic),
            res@.salt_seed == salt_seed@,
            res@.nonce_mnemonic == bytes_of(nonce_mnemonic),
            res@.nonce_seed == nonce_seed@,
            parameters_in_use(res@),
    {
        EncryptionData {
            salt_mnemonic,
            salt_seed,
            nonce_mnemonic,
            nonce_seed,
            m_cost: M_COST,
            t_cost: T_COST,
            p_cost: P_COST,
            output_len: OUTPUT_LEN,
            argon_algorithm: ArgonAlgorithm::Argon2id,
            argon_version: ArgonVersion::V0x13,
        }
    }
}

/// Keys are derived as the record says: Argon2id, version 0x13, 30000 KiB
/// of memory, 5 passes, 1 lane, a 32-byte output, over the UTF-8 bytes of
/// the password and the salt; and encryption data made by this library
/// records exactly those parameters.
pub proof fn lemma_key_derivation_parameters(password: Seq<char>, salt: Seq<u8>, data: EncryptionDataView)
    ensures
        derived_key(password, salt) == argon2_hash_output(
            encode_utf8(password),
            salt,
            30000,
            5,
            1,
            32,
            ArgonAlgorithm::Argon2id,
            ArgonVersion::V0x13,
        ),
        parameters_in_use(data) ==> {
            &&& data.m_cost == 30000
            &&& data.t_cost == 5
            &&& data.p_cost == 1
            &&& data.output_len == 32
            &&& data.argon_algorithm == ArgonAlgorithm::Argon2id
            &&& data.argon_version == ArgonVersion::V0x13
        },
{
}

/// The stored text of a secret is the standard base64 of its AES-256-GCM
/// sealing, under `nonce`, with the Argon2id key (version 0x13, 30000 KiB,
/// 5 passes, 1 lane, 32 bytes) of the password and `salt`; and a stored
/// text opens, where the inputs are usable, to the UTF-8 text of the
/// AES-256-GCM opening of its base64 bytes under that same key and nonce.
pub proof fn lemma_sealing_uses_salt_for_key_and_nonce_for_cipher(
    plaintext: Seq<char>,
    ciphertext: Seq<char>,
    password: Seq<char>,
    salt: Seq<u8>,
    nonce: Seq<u8>,
)
    ensures
        sealed_text(plaintext, password, salt, nonce) == base64_standard_encoding(aes256gcm_seal(
            argon2_hash_output(encode_utf8(password), salt, 30000, 5, 1, 32, ArgonAlgorithm::Argon2id, ArgonVersion::V0x13),
            nonce,
            encode_utf8(plaintext),
        )),
        opened_text(ciphertext, password, salt, nonce) matches Some(text) ==> (
            base64_standard_decoding(ciphertext) matches Some(sealed)
            && aes256gcm_open(
                argon2_hash_output(encode_utf8(password), salt, 30000, 5, 1, 32, ArgonAlgorithm::Argon2id, ArgonVersion::V0x13),
                nonce,
                sealed,
            ) == Some(encode_utf8(text))
            && nonce.len() == 12 && salt.len() >= 8),
{
    if let Some(text) = opened_text(ciphertext, password, salt, nonce) {
        let sealed = base64_standard_decoding(ciphertext).unwrap();
        let plain = aes256gcm_open(derived_key(password, salt), nonce, sealed).unwrap();
        vstd::utf8::decode_utf8_encode_utf8(plain);
    }
}

/// Whether `plaintext` can be encrypted (see `plaintext_accepted`).
pub fn plaintext_fits(plaintext: &str) -> (res: bool)
    ensures
        res == plaintext_accepted(plaintext@),
{
    let len = plaintext.as_bytes().len();
    if len as u64 > MAX_PLAINTEXT_LEN {
        return false;
    }
    let encoded_len: u64 = (len as u64 + 16) / 3 * 4 + 4;
    encoded_len <= usize::MAX as u64
}

/// Whether `password` can be used to derive keys (at most 2^32 - 1 bytes).
pub fn password_fits(password: &str) -> (res: bool)
    ensures
        res == (encode_utf8(password@).len() <= MAX_ARGON_INPUT_LEN),
{
    password.as_bytes().len() <= MAX_ARGON_INPUT_LEN
}

} // verus!
