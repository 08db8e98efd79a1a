//! Byte-level encodings the wallet records rely on: base64 text for
//! ciphertexts, UTF-8 for the secrets themselves, and fresh random bytes.

use base64::Engine;
use rand::RngCore;
use vstd::prelude::*;
use vstd::utf8::*;

verus! {

broadcast use vstd::utf8::encode_utf8_decode_utf8, vstd::utf8::encode_utf8_valid_utf8;

#[verifier::external_type_specification]
#[verifier::external_body]
pub struct ExDecodeError(base64::DecodeError);

#[verifier::external_type_specification]
#[verifier::external_body]
pub struct ExFromUtf8Error(std::string::FromUtf8Error);

/// The character of the standard base64 alphabet for the 6-bit value `v`:
/// 'A' to 'Z', 'a' to 'z', '0' to '9', then '+' and '/'.
pub open spec fn base64_char(v: int) -> char {
    if v < 26 {
        ('A' as int + v) as char
    } else if v < 52 {
        ('a' as int + (v - 26)) as char
    } else if v < 62 {
        ('0' as int + (v - 52)) as char
    } else if v == 62 {
        '+'
    } else {
        '/'
    }
}

/// The standard base64 text, with padding, of `data`: each group of three
/// bytes gives four characters of six bits each, and a last group of one or
/// two bytes gives two or three characters and is padded with '='.
pub open spec fn base64_standard_encoding(data: Seq<u8>) -> Seq<char>
    decreases data.len(),
{
    if data.len() == 0 {
        seq![]
    } else if data.len() == 1 {
        seq![base64_char((data[0] as int) / 4), base64_char(((data[0] as int) % 4) * 16), '=', '=']
    } else if data.len() == 2 {
        seq![
            base64_char((data[0] as int) / 4),
            base64_char(((data[0] as int) % 4) * 16 + (data[1] as int) / 16),
            base64_char(((data[1] as int) % 16) * 4),
            '=',
        ]
    } else {
        seq![
            base64_char((data[0] as int) / 4),
            base64_char(((data[0] as int) % 4) * 16 + (data[1] as int) / 16),
            base64_char(((data[1] as int) % 16) * 4 + (data[2] as int) / 64),
            base64_char((data[2] as int) % 64),
        ] + base64_standard_encoding(data.skip(3))
    }
}

/// The standard base64 text has four characters per started group of three
/// bytes.
pub proof fn lemma_base64_length(data: Seq<u8>)
    ensures
        base64_standard_encoding(data).len() == 4 * ((data.len() + 2) / 3),
    decreases data.len(),
{
    if data.len() >= 3 {
        lemma_base64_length(data.skip(3));
    }
}

/// The bytes whose standard base64 text is `text`, or `None` where `text`
/// is no such text (a standard base64 text with canonical padding and no
/// stray bits is exactly what the standard engine decodes).
pub open spec fn base64_standard_decoding(text: Seq<char>) -> Option<Seq<u8>> {
    if exists|data: Seq<u8>| #[trigger] base64_standard_encoding(data) == text {
        Some(choose|data: Seq<u8>| #[trigger] base64_standard_encoding(data) == text)
    } else {
        None
    }
}

/// No character of the standard alphabet is the padding character.
proof fn lemma_base64_char_not_padding(v: int)
    requires
        0 <= v < 64,
    ensures
        base64_char(v) != '=',
{
}

/// The standard alphabet gives different characters to different values.
proof fn lemma_base64_char_injective(v: int, w: int)
    requires
        0 <= v < 64,
        0 <= w < 64,
        base64_char(v) == base64_char(w),
    ensures
        v == w,
{
}

/// The first four characters of the standard base64 text of `a`.
proof fn lemma_base64_first_group(a: Seq<u8>)
    requires
        a.len() > 0,
    ensures
        base64_standard_encoding(a).len() >= 4,
        base64_standard_encoding(a)[0] == base64_char(a[0] as int / 4),
        a.len() == 1 ==> {
            &&& base64_standard_encoding(a)[1] == base64_char((a[0] as int % 4) * 16)
            &&& base64_standard_encoding(a)[2] == '='
            &&& base64_standard_encoding(a)[3] == '='
        },
        a.len() >= 2 ==> base64_standard_encoding(a)[1] == base64_char((a[0] as int % 4) * 16 + a[1] as int / 16),
        a.len() == 2 ==> {
            &&& base64_standard_encoding(a)[2] == base64_char((a[1] as int % 16) * 4)
            &&& base64_standard_encoding(a)[3] == '='
        },
        a.len() >= 3 ==> {
            &&& base64_standard_encoding(a)[2] == base64_char((a[1] as int % 16) * 4 + a[2] as int / 64)
            &&& base64_standard_encoding(a)[3] == base64_char(a[2] as int % 64)
            &&& base64_standard_encoding(a.skip(3)) =~= base64_standard_encoding(a).skip(4)
        },
{
    lemma_base64_length(a);
}

/// Different bytes have different standard base64 texts.
pub proof fn lemma_base64_injective(a: Seq<u8>, b: Seq<u8>)
    requires
        base64_standard_encoding(a) == base64_standard_encoding(b),
    ensures
        a == b,
    decreases a.len(),
{
    lemma_base64_length(a);
    lemma_base64_length(b);
    if a.len() == 0 {
        assert(b.len() == 0);
        assert(a =~= b);
        return;
    }
    assert(b.len() > 0);
    lemma_base64_first_group(a);
    lemma_base64_first_group(b);
    let (a0, b0) = (a[0] as int, b[0] as int);
    lemma_base64_char_injective(a0 / 4, b0 / 4);
    if a.len() >= 2 {
        lemma_base64_char_not_padding((a[1] as int % 16) * 4 + (if a.len() >= 3 { a[2] as int / 64 } else { 0 }));
    }
    if b.len() >= 2 {
        lemma_base64_char_not_padding((b[1] as int % 16) * 4 + (if b.len() >= 3 { b[2] as int / 64 } else { 0 }));
    }
    if a.len() >= 3 {
        lemma_base64_char_not_padding(a[2] as int % 64);
    }
    if b.len() >= 3 {
        lemma_base64_char_not_padding(b[2] as int % 64);
    }
    if a.len() == 1 {
        assert(b.len() == 1);
        lemma_base64_char_injective((a0 % 4) * 16, (b0 % 4) * 16);
        assert(a =~= b);
    } else {
        let (a1, b1) = (a[1] as int, b[1] as int);
        assert(b.len() >= 2);
        lemma_base64_char_injective((a0 % 4) * 16 + a1 / 16, (b0 % 4) * 16 + b1 / 16);
        if a.len() == 2 {
            assert(b.len() == 2);
            lemma_base64_char_injective((a1 % 16) * 4, (b1 % 16) * 4);
            assert(a =~= b);
        } else {
            let (a2, b2) = (a[2] as int, b[2] as int);
            assert(b.len() >= 3);
            lemma_base64_char_injective((a1 % 16) * 4 + a2 / 64, (b1 % 16) * 4 + b2 / 64);
            lemma_base64_char_injective(a2 % 64, b2 % 64);
            assert(a0 == b0 && a1 == b1 && a2 == b2);
            lemma_base64_injective(a.skip(3), b.skip(3));
            assert(a =~= seq![a[0], a[1], a[2]] + a.skip(3));
            assert(b =~= seq![b[0], b[1], b[2]] + b.skip(3));
        }
    }
}

/// The standard base64 text of `data` decodes back to `data`.
pub proof fn lemma_base64_decodes_encoding(data: Seq<u8>)
    ensures
        base64_standard_decoding(base64_standard_encoding(data)) == Some(data),
{
    let text = base64_standard_encoding(data);
    assert(exists|d: Seq<u8>| #[trigger] base64_standard_encoding(d) == text);
    let chosen = choose|d: Seq<u8>| #[trigger] base64_standard_encoding(d) == text;
    lemma_base64_injective(chosen, data);
}

/// Calls `base64::engine::general_purpose::STANDARD.encode`. Claims that the
/// text is the standard encoding of the bytes (RFC 4648 alphabet, with
/// padding, as `STANDARD` is configured). `encode` panics when the output
/// length overflows `usize`; `requires` leaves those lengths out.
#[verifier::external_body]
pub(crate) fn base64_encode(data: &[u8]) -> (res: String)
    requires
        data@.len() / 3 * 4 + 4 <= usize::MAX,
    ensures
        res@ == base64_standard_encoding(data@),
{
    base64::engine::general_purpose::STANDARD.encode(data)
}

/// Calls `base64::engine::general_purpose::STANDARD.decode`. Claims that it
/// succeeds exactly on standard base64 texts, with the bytes they encode:
/// `STANDARD` requires canonical padding and refuses stray trailing bits,
/// so it decodes exactly the texts that its encoding gives.
#[verifier::external_body]
pub(crate) fn base64_decode(text: &str) -> (res: Result<Vec<u8>, base64::DecodeError>)
    ensures
        match res {
            Ok(bytes) => base64_standard_decoding(text@) == Some(bytes@),
            Err(_) => base64_standard_decoding(text@) is None,
        },
{
    base64::engine::general_purpose::STANDARD.decode(text)
}

/// Calls `String::from_utf8`. Claims, as std documents, that it succeeds
/// exactly on valid UTF-8 and that the string's UTF-8 bytes are the input.
#[verifier::external_body]
pub(crate) fn string_from_utf8(bytes: Vec<u8>) -> (res: Result<String, std::string::FromUtf8Error>)
    ensures
        res is Ok <==> valid_utf8(bytes@),
        res matches Ok(s) ==> encode_utf8(s@) == bytes@,
{
    String::from_utf8(bytes)
}

/// Calls `rand::rngs::OsRng.fill_bytes` on `dest`. The bytes come from the
/// operating system's generator: only the length is claimed.
#[verifier::external_body]
pub(crate) fn fill_random(dest: &mut [u8])
    ensures
        final(dest)@.len() == old(dest)@.len(),
{
    rand::rngs::OsRng.fill_bytes(dest)
}

/// Decodes UTF-8 bytes into text: `Some` exactly when the bytes are valid
/// UTF-8, and then the text whose encoding they are.
pub fn utf8_text(bytes: Vec<u8>) -> (res: Option<String>)
    ensures
        res is Some <==> valid_utf8(bytes@),
        res matches Some(s) ==> s@ == decode_utf8(bytes@) && encode_utf8(s@) == bytes@,
{
    let ghost b = bytes@;
    match string_from_utf8(bytes) {
        Ok(s) => {
            proof {
                encode_utf8_decode_utf8(s@);
            }
            Some(s)
        },
        Err(_) => None,
    }
}

} // verus!
