//! BIP-39 mnemonics and the XRP Ledger keys derived from them: the family
//! seed of a mnemonic's entropy, and the classic address of a seed.

use vstd::prelude::*;

verus! {

/// Declares `bip39::Error`, the mnemonic crate's failure.
#[verifier::external_type_specification]
#[verifier::external_body]
pub struct ExBip39Error(bip39::Error);

/// Declares the XRPL crate's core failure.
#[verifier::external_type_specification]
#[verifier::external_body]
pub struct ExXrplCoreError(xrpl::core::exceptions::XRPLCoreException);

/// Declares the XRPL crate's wallet failure.
#[verifier::external_type_specification]
#[verifier::external_body]
pub struct ExXrplWalletError(xrpl::wallet::exceptions::XRPLWalletException);

/// Declares the XRPL crate's wallet (keys and address of an account).
#[verifier::external_type_specification]
#[verifier::external_body]
pub struct ExXrplWallet(xrpl::wallet::Wallet);

/// The number of words of a generated mnemonic.
pub const WORD_COUNT: usize = 12;

/// The entropy, in bytes, behind a mnemonic of `WORD_COUNT` words: the size
/// that an XRPL family seed encodes.
pub const SEED_ENTROPY_LEN: usize = 16;

/// The entropy that `bip39::Mnemonic::parse` finds in `phrase`; `None` where
/// the phrase is not a valid English mnemonic.
pub uninterp spec fn bip39_entropy(phrase: Seq<char>) -> Option<Seq<u8>>;

/// The family seed that the XRPL crate's `generate_seed` encodes from
/// 16 bytes of entropy, with its default key algorithm.
pub uninterp spec fn xrpl_family_seed(entropy: Seq<u8>) -> Seq<char>;

/// The classic address of the wallet that the XRPL crate derives from
/// `seed`; `None` where it refuses the seed.
pub uninterp spec fn xrpl_classic_address(seed: Seq<char>) -> Option<Seq<char>>;

/// The shortest key text (seed or address) that this library hands to the
/// XRPL crate's base58 decoding. That decoding slices the decoded payload by
/// its prefix length without checking it, and panics on a text whose
/// checksum is valid but whose payload is shorter than 3 bytes; every
/// checksum-valid text of at least 11 characters has a payload of at least
/// 4 bytes. No valid seed or classic address is that short.
pub const MIN_KEY_TEXT_LEN: usize = 11;

/// The classic address of the wallet of `seed`, for texts long enough to be
/// handed to the XRPL crate; `None` for shorter texts.
pub open spec fn seed_address(seed: Seq<char>) -> Option<Seq<char>> {
    if seed.len() >= MIN_KEY_TEXT_LEN {
        xrpl_classic_address(seed)
    } else {
        None
    }
}

/// The word counts that BIP-39 allows: 12 to 24, in steps of 3.
pub open spec fn valid_word_count(word_count: int) -> bool {
    12 <= word_count <= 24 && word_count % 3 == 0
}

/// Calls `bip39::Mnemonic::generate_in_with` with `rand::rngs::OsRng` and
/// English words, and hands out the phrase (`to_string`) and the entropy
/// (`to_entropy`). The words are random. Claims what the source shows: it
/// fails exactly on word counts BIP-39 does not allow; the entropy has
/// `word_count / 3 * 4` bytes, and parsing the phrase gives it back.
#[verifier::external_body]
fn bip39_generate(word_count: usize) -> (res: Result<(String, Vec<u8>), bip39::Error>)
    ensures
        res is Ok <==> valid_word_count(word_count as int),
        res matches Ok(generated) ==> {
            &&& generated.1@.len() == word_count / 3 * 4
            &&& bip39_entropy(generated.0@) == Some(generated.1@)
        },
{
    let mnemonic = bip39::Mnemonic::generate_in_with(&mut rand::rngs::OsRng, bip39::Language::English, word_count)?;
    Ok((mnemonic.to_string(), mnemonic.to_entropy()))
}

/// Calls `bip39::Mnemonic::parse` and hands out the entropy (`to_entropy`).
/// Claims that it succeeds exactly where the phrase has an entropy, and
/// returns it.
#[verifier::external_body]
fn bip39_parse_entropy(phrase: &str) -> (res: Result<Vec<u8>, bip39::Error>)
    ensures
        match res {
            Ok(entropy) => bip39_entropy(phrase@) == Some(entropy@),
            Err(_) => bip39_entropy(phrase@) is None,
        },
{
    Ok(bip39::Mnemonic::parse(phrase)?.to_entropy())
}

/// Calls `xrpl::core::keypairs::generate_seed` with the given entropy and
/// no algorithm. Its source encodes the 16 bytes with the default (Ed25519)
/// algorithm's 3-byte prefix and only fails on other lengths: it claims
/// success and the family seed of the entropy. That seed is the base58 text
/// of 23 bytes (prefix, entropy, checksum) whose first byte is 0x01, which
/// always has 31 characters.
#[verifier::external_body]
fn xrpl_generate_seed(entropy: [u8; 16]) -> (res: Result<String, xrpl::core::exceptions::XRPLCoreException>)
    ensures
        res is Ok,
        res matches Ok(seed) ==> seed@ == xrpl_family_seed(entropy@) && seed@.len() == 31,
{
    xrpl::core::keypairs::generate_seed(Some(entropy), None)
}

/// Calls `xrpl::wallet::Wallet::new(seed, 0)` and hands out the wallet's
/// classic address. Claims that it succeeds exactly where the seed has an
/// address, and returns it. The seed's base58 decoding panics on some texts
/// shorter than `MIN_KEY_TEXT_LEN`: `requires` leaves those lengths out.
#[verifier::external_body]
fn xrpl_wallet_address(seed: &str) -> (res: Result<String, xrpl::wallet::exceptions::XRPLWalletException>)
    requires
        seed@.len() >= MIN_KEY_TEXT_LEN,
    ensures
        match res {
            Ok(address) => xrpl_classic_address(seed@) == Some(address@),
            Err(_) => xrpl_classic_address(seed@) is None,
        },
{
    Ok(xrpl::wallet::Wallet::new(seed, 0)?.classic_address.clone())
}

/// Calls `xrpl::wallet::Wallet::create(None)`: a wallet of a random seed.
/// Its source draws a random Ed25519 seed and derives the keys along a path
/// that has no failure, so success is claimed; nothing is claimed of the
/// (random) wallet itself.
#[verifier::external_body]
fn xrpl_create_wallet() -> (res: Result<xrpl::wallet::Wallet, xrpl::wallet::exceptions::XRPLWalletException>)
    ensures
        res is Ok,
{
    xrpl::wallet::Wallet::create(None)
}

/// A BIP-39 mnemonic: its English phrase and the entropy it encodes.
pub struct Mnemonic {
    phrase: String,
    entropy: Vec<u8>,
}

impl Mnemonic {
    /// The phrase of the mnemonic.
    pub closed spec fn phrase(&self) -> Seq<char> {
        self.phrase@
    }

    /// The entropy of the mnemonic.
    pub closed spec fn entropy(&self) -> Seq<u8> {
        self.entropy@
    }

    /// The phrase parses back to the entropy.
    #[verifier::type_invariant]
    spec fn encodes_entropy(self) -> bool {
        bip39_entropy(self.phrase@) == Some(self.entropy@)
    }

    /// The phrase; parsing it gives the mnemonic's entropy.
    pub fn to_string(&self) -> (res: String)
        ensures
            res@ == self.phrase(),
            bip39_entropy(res@) == Some(self.entropy()),
    {
        proof {
            use_type_invariant(self);
        }
        self.phrase.clone()
    }

    /// The entropy.
    pub fn to_entropy(&self) -> (res: Vec<u8>)
        ensures
            res@ == self.entropy(),
    {
        self.entropy.clone()
    }

    /// Parses a phrase; `None` exactly where it is not a valid mnemonic.
    pub fn parse(phrase: &str) -> (res: Option<Mnemonic>)
        ensures
            match res {
                Some(m) => m.phrase() == phrase@ && bip39_entropy(phrase@) == Some(m.entropy()),
                None => bip39_entropy(phrase@) is None,
            },
    {
        match bip39_parse_entropy(phrase) {
            Ok(entropy) => Some(Mnemonic { phrase: phrase.to_string(), entropy }),
            Err(_) => None,
        }
    }
}

/// Generates a random English mnemonic of `word_amount` words.
pub fn generate_mnemonic(word_amount: usize) -> (res: Mnemonic)
    requires
        valid_word_count(word_amount as int),
    ensures
        res.entropy().len() == word_amount / 3 * 4,
        bip39_entropy(res.phrase()) == Some(res.entropy()),
{
    match bip39_generate(word_amount) {
        Ok((phrase, entropy)) => Mnemonic { phrase, entropy },
        Err(_) => {
            proof {
                assert(false);
            }
            Mnemonic { phrase: String::new(), entropy: Vec::new() }
        },
    }
}

/// Copies 16 bytes into an array.
fn entropy_array(entropy: &Vec<u8>) -> (res: [u8; 16])
    requires
        entropy@.len() == SEED_ENTROPY_LEN,
    ensures
        res@ == entropy@,
{
    let mut res: [u8; 16] = [0u8; 16];
    let mut i: usize = 0;
    while i < SEED_ENTROPY_LEN
        invariant
            i <= SEED_ENTROPY_LEN,
            entropy@.len() == SEED_ENTROPY_LEN,
            res@.len() == SEED_ENTROPY_LEN,
            forall|j: int| 0 <= j < i ==> res@[j] == entropy@[j],
        decreases SEED_ENTROPY_LEN - i,
    {
        res.set(i, entropy[i]);
        i = i + 1;
    }
    assert(res@ =~= entropy@);
    res
}

/// The XRPL family seed of a 12-word mnemonic's entropy.
pub fn generate_family_seed_from_mnemonic(mnemonic: &Mnemonic) -> (seed: String)
    requires
        mnemonic.entropy().len() == SEED_ENTROPY_LEN,
    ensures
        seed@ == xrpl_family_seed(mnemonic.entropy()),
{
    let entropy = mnemonic.to_entropy();
    let array = entropy_array(&entropy);
    match xrpl_generate_seed(array) {
        Ok(seed) => seed,
        Err(_) => {
            proof {
                assert(false);
            }
            String::new()
        },
    }
}

/// The classic address of the wallet of `seed`; `None` exactly where the
/// seed is shorter than `MIN_KEY_TEXT_LEN` or the XRPL crate refuses it.
pub fn classic_address_of_seed(seed: &str) -> (res: Option<String>)
    ensures
        match res {
            Some(address) => seed_address(seed@) == Some(address@),
            None => seed_address(seed@) is None,
        },
{
    if seed.unicode_len() < MIN_KEY_TEXT_LEN {
        return None;
    }
    match xrpl_wallet_address(seed) {
        Ok(address) => Some(address),
        Err(_) => None,
    }
}

/// What a mnemonic phrase yields: its family seed and that seed's classic
/// address, where the phrase parses, encodes 16 bytes of entropy, and the
/// seed has an address.
pub open spec fn phrase_keys(phrase: Seq<char>) -> Option<(Seq<char>, Seq<char>)> {
    match bip39_entropy(phrase) {
        Some(entropy) => if entropy.len() == SEED_ENTROPY_LEN {
            match seed_address(xrpl_family_seed(entropy)) {
                Some(address) => Some((xrpl_family_seed(entropy), address)),
                None => None,
            }
        } else {
            None
        },
        None => None,
    }
}

/// The family seed and classic address of a mnemonic phrase; `None` exactly
/// where `phrase_keys` is.
pub fn derive_seed_and_address(mnemonic_string: &str) -> (res: Option<(String, String)>)
    ensures
        match res {
            Some(keys) => phrase_keys(mnemonic_string@) == Some((keys.0@, keys.1@)),
            None => phrase_keys(mnemonic_string@) is None,
        },
        res matches Some(keys) ==> (bip39_entropy(mnemonic_string@) matches Some(entropy)
            && entropy.len() == SEED_ENTROPY_LEN
            && keys.0@ == xrpl_family_seed(entropy)
            && seed_address(keys.0@) == Some(keys.1@)),
{
    match Mnemonic::parse(mnemonic_string) {
        None => None,
        Some(mnemonic) => {
            let entropy = mnemonic.to_entropy();
            if entropy.len() != SEED_ENTROPY_LEN {
                return None;
            }
            let seed = generate_family_seed_from_mnemonic(&mnemonic);
            match classic_address_of_seed(seed.as_str()) {
                Some(address) => Some((seed, address)),
                None => None,
            }
        },
    }
}

/// The keys of a phrase are those of its entropy: where a phrase yields
/// keys, its BIP-39 entropy has 16 bytes, the seed is the XRPL family seed
/// of that entropy as it stands, and the address is that seed's classic
/// address; and a phrase yields keys wherever its entropy has 16 bytes and
/// that family seed has an address.
pub proof fn lemma_phrase_keys_from_entropy(phrase: Seq<char>)
    ensures
        phrase_keys(phrase) matches Some(keys) ==> (bip39_entropy(phrase) matches Some(entropy)
            && entropy.len() == SEED_ENTROPY_LEN
            && keys.0 == xrpl_family_seed(entropy)
            && seed_address(keys.0) == Some(keys.1)),
        (bip39_entropy(phrase) matches Some(entropy) && entropy.len() == SEED_ENTROPY_LEN
            && seed_address(xrpl_family_seed(entropy)) is Some) ==> phrase_keys(phrase) is Some,
{
}

/// Errors of key generation.
#[derive(Clone, Copy, Debug, PartialEq, Eq, Structural)]
pub enum KeyError {
    /// The XRPL crate failed to create a wallet.
    WalletCreation,
}

/// Generates a mnemonic of `word_amount` words (12 where none is given),
/// which it discards, and a wallet of a fresh random seed. It always
/// succeeds; the wallet is random.
pub fn generate_xrp_wallet_without_mnemonic_or_seed(word_amount: Option<usize>) -> (res: Result<xrpl::wallet::Wallet, KeyError>)
    requires
        valid_word_count(
            match word_amount {
                Some(n) => n as int,
                None => WORD_COUNT as int,
            },
        ),
    ensures
        res is Ok,
{
    let word_count = match word_amount {
        Some(n) => n,
        None => WORD_COUNT,
    };
    let _discarded = generate_mnemonic(word_count);
    match xrpl_create_wallet() {
        Ok(wallet) => Ok(wallet),
        Err(_) => Err(KeyError::WalletCreation),
    }
}

} // verus!
