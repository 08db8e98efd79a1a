//! Signed XRP payments: checking the addresses and seed that the XRPL
//! crate is handed, and the signed payment transaction that is submitted.

use vstd::prelude::*;
use xrpl::models::transactions::payment::Payment;
use xrpl::models::{Amount, XRPAmount};
use crate::keys::MIN_KEY_TEXT_LEN;
use crate::wallet::{TXRPWallet, WalletView};

verus! {

/// Whether the XRPL crate's `is_valid_classic_address` accepts `text`: a
/// base58 text with a valid checksum and the classic-address prefix.
pub uninterp spec fn xrpl_valid_classic_address(text: Seq<char>) -> bool;

/// The JSON text of the payment of `amount_drops` drops from `account` to
/// `destination`, with fee `fee_drops`, account sequence `sequence` and
/// last ledger `last_ledger_sequence`, signed with the keys of `seed`;
/// `None` where the XRPL crate refuses to build, sign or serialize it.
/// Both signature schemes the crate uses (Ed25519, and ECDSA with RFC 6979
/// nonces) are deterministic.
pub uninterp spec fn xrpl_signed_payment(
    account: Seq<char>,
    seed: Seq<char>,
    destination: Seq<char>,
    amount_drops: u32,
    fee_drops: Seq<char>,
    sequence: u32,
    last_ledger_sequence: u32,
) -> Option<Seq<char>>;

/// The payload that the XRPL crate's base58 decoding (its alphabet, with a
/// checksum) finds in `text`, checksum removed; `None` where the text is not
/// such base58 or its checksum fails.
pub uninterp spec fn base58check_payload(text: Seq<char>) -> Option<Seq<u8>>;

/// Whether the XRPL crate's `is_valid_xaddress` accepts `text`.
pub uninterp spec fn xrpl_valid_xaddress(text: Seq<char>) -> bool;

/// The payload length of an X-address: a 2-byte prefix, a 20-byte account
/// and a 9-byte tag field. The crate's X-address decoding slices the payload
/// up to this length without checking it.
pub const X_ADDRESS_PAYLOAD_LEN: usize = 31;

/// An address text that can be handed to the XRPL crate's transaction
/// signing, as its source shows it handles one without panicking: a classic
/// address long enough for its base58 decoding (whose first payload byte
/// then keeps the crate's X-address checks from slicing past the payload),
/// or an X-address whose payload is long enough for the X-address decoding.
pub open spec fn address_accepted(text: Seq<char>) -> bool {
    ||| text.len() >= MIN_KEY_TEXT_LEN && xrpl_valid_classic_address(text)
    ||| base58check_payload(text) matches Some(p) && p.len() >= X_ADDRESS_PAYLOAD_LEN && xrpl_valid_xaddress(text)
}

/// Calls `xrpl::core::addresscodec::utils::decode_base58` with an empty
/// prefix, which slices nothing, and hands out the payload. Claims only that
/// the result is the payload named above.
#[verifier::external_body]
fn xrpl_decode_base58check(text: &str) -> (res: Option<Vec<u8>>)
    ensures
        match res {
            Some(p) => base58check_payload(text@) == Some(p@),
            None => base58check_payload(text@) is None,
        },
{
    xrpl::core::addresscodec::utils::decode_base58(text, &[]).ok()
}

/// Calls `xrpl::core::addresscodec::is_valid_xaddress`. Claims only that the
/// answer is the crate's, as named above. Its decoding slices the payload up
/// to 31 bytes unchecked: `requires` admits only texts with such a payload.
#[verifier::external_body]
fn xrpl_is_valid_xaddress(text: &str) -> (res: bool)
    requires
        base58check_payload(text@) matches Some(p) && p.len() >= X_ADDRESS_PAYLOAD_LEN,
    ensures
        res == xrpl_valid_xaddress(text@),
{
    xrpl::core::addresscodec::is_valid_xaddress(text)
}

/// Calls `xrpl::core::addresscodec::is_valid_classic_address`. Claims only
/// that the answer is the crate's, as named above. Its base58 decoding
/// panics on some texts shorter than `MIN_KEY_TEXT_LEN`: `requires` leaves
/// those out.
#[verifier::external_body]
fn xrpl_is_valid_classic_address(text: &str) -> (res: bool)
    requires
        text@.len() >= MIN_KEY_TEXT_LEN,
    ensures
        res == xrpl_valid_classic_address(text@),
{
    xrpl::core::addresscodec::is_valid_classic_address(text)
}

/// Builds `xrpl::models::transactions::payment::Payment::new` with the
/// account, fee, last ledger sequence, sequence, XRP amount and destination,
/// makes `xrpl::wallet::Wallet::new(seed, 0)`, calls
/// `xrpl::transaction::sign` (single signature) and serializes the payment
/// with `serde_json::to_string`. Claims that the result is the named signed
/// payment, `None` where any step fails. The crate's address and seed
/// decoding panics on short texts and on short payloads with an X-address
/// prefix: `requires` admits only accepted addresses (an X-address is
/// turned into its classic address and tag by the signing) and seeds of at
/// least `MIN_KEY_TEXT_LEN` characters.
#[verifier::external_body]
fn xrpl_sign_payment(
    account: &str,
    seed: &str,
    destination: &str,
    amount_drops: u32,
    fee_drops: &str,
    sequence: u32,
    last_ledger_sequence: u32,
) -> (res: Option<String>)
    requires
        address_accepted(account@),
        address_accepted(destination@),
        seed@.len() >= MIN_KEY_TEXT_LEN,
    ensures
        match res {
            Some(text) => xrpl_signed_payment(account@, seed@, destination@, amount_drops, fee_drops@, sequence, last_ledger_sequence) == Some(text@),
            None => xrpl_signed_payment(account@, seed@, destination@, amount_drops, fee_drops@, sequence, last_ledger_sequence) is None,
        },
{
    let fee = Some(XRPAmount::from(fee_drops.to_string()));
    let amount = Amount::XRPAmount(amount_drops.to_string().into());
    let mut payment = Payment::new(account.to_string().into(), None, fee, None, Some(last_ledger_sequence), None, Some(sequence), None, None, None, amount, destination.to_string().into(), None, None, None, None, None);
    let wallet = xrpl::wallet::Wallet::new(seed, 0).ok()?;
    xrpl::transaction::sign(&mut payment, &wallet, false).ok()?;
    serde_json::to_string(&payment).ok()
}

/// Whether `text` can be handed to the signing as an address: a classic
/// address or an X-address, as `address_accepted` says.
pub fn address_fits(text: &str) -> (res: bool)
    ensures
        res == address_accepted(text@),
{
    if text.unicode_len() >= MIN_KEY_TEXT_LEN && xrpl_is_valid_classic_address(text) {
        return true;
    }
    match xrpl_decode_base58check(text) {
        Some(payload) => payload.len() >= X_ADDRESS_PAYLOAD_LEN && xrpl_is_valid_xaddress(text),
        None => false,
    }
}

/// Failures of signing a payment.
#[derive(Clone, Copy, Debug, PartialEq, Eq, Structural)]
pub enum PaymentError {
    /// The wallet's classic address is not an accepted address.
    InvalidAccount,
    /// The destination is not an accepted address.
    InvalidDestination,
    /// The wallet's seed is too short to be a seed.
    InvalidSeed,
    /// The XRPL crate refused to build, sign or serialize the payment.
    SigningFailed,
}

/// The account sequence as the payment carries it: cut to 32 bits.
pub open spec fn payment_sequence(sequence: u64) -> u32 {
    (sequence % 0x1_0000_0000) as u32
}

/// What signing a payment of `wallet` gives: the first failing check among
/// account, destination and seed, else the named signed payment of the
/// wallet's address and seed, with the sequence cut to 32 bits.
pub open spec fn payment_outcome(
    wallet: WalletView,
    destination: Seq<char>,
    amount_drops: u32,
    fee_drops: Seq<char>,
    sequence: u64,
    last_ledger_sequence: u32,
) -> Result<Seq<char>, PaymentError> {
    if !address_accepted(wallet.classic_address) {
        Err(PaymentError::InvalidAccount)
    } else if !address_accepted(destination) {
        Err(PaymentError::InvalidDestination)
    } else if wallet.seed.len() < MIN_KEY_TEXT_LEN {
        Err(PaymentError::InvalidSeed)
    } else {
        match xrpl_signed_payment(
            wallet.classic_address,
            wallet.seed,
            destination,
            amount_drops,
            fee_drops,
            payment_sequence(sequence),
            last_ledger_sequence,
        ) {
            Some(text) => Ok(text),
            None => Err(PaymentError::SigningFailed),
        }
    }
}

/// The sequence cut to 32 bits.
fn cut_sequence(sequence: u64) -> (res: u32)
    ensures
        res == payment_sequence(sequence),
{
    let cut: u32 = #[verifier::truncate] (sequence as u32);
    assert(cut == sequence % 0x1_0000_0000) by (bit_vector)
        requires
            cut == sequence as u32,
    ;
    cut
}

impl TXRPWallet {
    /// The JSON text of a payment of `amount_in_drops` drops from this
    /// wallet to `destination`, with fee `fee_drops`, the account's
    /// `sequence` (cut to 32 bits) and `last_ledger_sequence`, signed with
    /// the wallet's seed; exactly `payment_outcome`.
    pub fn signed_payment(
        &self,
        destination: &str,
        amount_in_drops: u32,
        fee_drops: &str,
        sequence: u64,
        last_ledger_sequence: u32,
    ) -> (res: Result<String, PaymentError>)
        ensures
            match res {
                Ok(text) => payment_outcome(self@, destination@, amount_in_drops, fee_drops@, sequence, last_ledger_sequence) == Ok::<Seq<char>, PaymentError>(text@),
                Err(e) => payment_outcome(self@, destination@, amount_in_drops, fee_drops@, sequence, last_ledger_sequence) == Err::<Seq<char>, PaymentError>(e),
            },
            res matches Ok(text) ==> xrpl_signed_payment(
                self.classic_address@,
                self.seed@,
                destination@,
                amount_in_drops,
                fee_drops@,
                (sequence % 0x1_0000_0000) as u32,
                last_ledger_sequence,
            ) == Some(text@),
    {
        if !address_fits(self.classic_address.as_str()) {
            return Err(PaymentError::InvalidAccount);
        }
        if !address_fits(destination) {
            return Err(PaymentError::InvalidDestination);
        }
        if self.seed.as_str().unicode_len() < MIN_KEY_TEXT_LEN {
            return Err(PaymentError::InvalidSeed);
        }
        let sequence32 = cut_sequence(sequence);
        match xrpl_sign_payment(
            self.classic_address.as_str(),
            self.seed.as_str(),
            destination,
            amount_in_drops,
            fee_drops,
            sequence32,
            last_ledger_sequence,
        ) {
            Some(text) => Ok(text),
            None => Err(PaymentError::SigningFailed),
        }
    }
}

/// A signed payment runs from the wallet to the destination: whenever
/// signing a payment of wallet `w` to `destination` succeeds, the text is
/// the payment that the XRPL crate signs with the wallet's classic address
/// as the paying account, the wallet's seed as the key, and `destination`
/// as the receiving account, for the given amount, fee, last ledger and the
/// account sequence cut to 32 bits; and both addresses are accepted ones.
pub proof fn lemma_payment_runs_from_wallet_to_destination(
    w: WalletView,
    destination: Seq<char>,
    amount_drops: u32,
    fee_drops: Seq<char>,
    sequence: u64,
    last_ledger_sequence: u32,
    text: Seq<char>,
)
    requires
        payment_outcome(w, destination, amount_drops, fee_drops, sequence, last_ledger_sequence)
            == Ok::<Seq<char>, PaymentError>(text),
    ensures
        address_accepted(w.classic_address),
        address_accepted(destination),
        w.seed.len() >= MIN_KEY_TEXT_LEN,
        xrpl_signed_payment(
            w.classic_address,
            w.seed,
            destination,
            amount_drops,
            fee_drops,
            (sequence % 0x1_0000_0000) as u32,
            last_ledger_sequence,
        ) == Some(text),
{
}

/// Signing succeeds exactly where both addresses are accepted, the seed is
/// long enough, and the XRPL crate signs the payment from the wallet to the
/// destination.
pub proof fn lemma_payment_succeeds_when_signable(
    w: WalletView,
    destination: Seq<char>,
    amount_drops: u32,
    fee_drops: Seq<char>,
    sequence: u64,
    last_ledger_sequence: u32,
)
    ensures
        payment_outcome(w, destination, amount_drops, fee_drops, sequence, last_ledger_sequence) is Ok
            <==> {
            &&& address_accepted(w.classic_address)
            &&& address_accepted(destination)
            &&& w.seed.len() >= MIN_KEY_TEXT_LEN
            &&& xrpl_signed_payment(
                w.classic_address,
                w.seed,
                destination,
                amount_drops,
                fee_drops,
                (sequence % 0x1_0000_0000) as u32,
                last_ledger_sequence,
            ) is Some
        },
{
}

} // verus!
