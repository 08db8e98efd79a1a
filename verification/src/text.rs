//! Reading typed answers: whitespace trimming, lower-casing, comparison and
//! decimal numbers.

use vstd::prelude::*;

verus! {

/// Whether two texts are equal.
pub fn str_eq(a: &str, b: &str) -> (res: bool)
    ensures
        res == (a@ == b@),
{
    let a_chars = a.unicode_len();
    let b_chars = b.unicode_len();
    if a_chars != b_chars {
        return false;
    }
    let mut i: usize = 0;
    while i < a_chars
        invariant
            i <= a_chars,
            a_chars == a@.len(),
            b_chars == b@.len(),
            a_chars == b_chars,
            forall|j: int| 0 <= j < i ==> a@[j] == b@[j],
        decreases a_chars - i,
    {
        if a.get_char(i) != b.get_char(i) {
            return false;
        }
        i = i + 1;
    }
    assert(a@ =~= b@);
    true
}

/// White space as Unicode's `White_Space` property defines it (what
/// `char::is_whitespace` tests).
pub open spec fn is_white_space(c: char) -> bool {
    ||| '\t' <= c <= '\r'
    ||| c == ' '
    ||| c == '\u{85}'
    ||| c == '\u{A0}'
    ||| c == '\u{1680}'
    ||| '\u{2000}' <= c <= '\u{200A}'
    ||| c == '\u{2028}'
    ||| c == '\u{2029}'
    ||| c == '\u{202F}'
    ||| c == '\u{205F}'
    ||| c == '\u{3000}'
}

/// Whether `c` is white space.
pub fn white_space(c: char) -> (res: bool)
    ensures
        res == is_white_space(c),
{
    ('\t' <= c && c <= '\r') || c == ' ' || c == '\u{85}' || c == '\u{A0}' || c == '\u{1680}'
        || ('\u{2000}' <= c && c <= '\u{200A}') || c == '\u{2028}' || c == '\u{2029}'
        || c == '\u{202F}' || c == '\u{205F}' || c == '\u{3000}'
}

/// The number of white-space characters that `s` starts with.
pub open spec fn leading_white_space(s: Seq<char>) -> nat
    decreases s.len(),
{
    if s.len() > 0 && is_white_space(s[0]) {
        1 + leading_white_space(s.drop_first())
    } else {
        0
    }
}

/// The number of white-space characters that `s` ends with.
pub open spec fn trailing_white_space(s: Seq<char>) -> nat
    decreases s.len(),
{
    if s.len() > 0 && is_white_space(s.last()) {
        1 + trailing_white_space(s.drop_last())
    } else {
        0
    }
}

/// `s` without its leading and trailing white space (what `str::trim`
/// returns).
pub open spec fn trimmed(s: Seq<char>) -> Seq<char> {
    let start = leading_white_space(s) as int;
    if start == s.len() {
        Seq::empty()
    } else {
        s.subrange(start, s.len() - trailing_white_space(s) as int)
    }
}

/// The leading white space of `s` is its first `n` characters.
proof fn lemma_leading_white_space(s: Seq<char>, n: int)
    requires
        0 <= n <= s.len(),
        forall|j: int| 0 <= j < n ==> is_white_space(#[trigger] s[j]),
        n == s.len() || !is_white_space(s[n]),
    ensures
        leading_white_space(s) == n,
    decreases n,
{
    if n > 0 {
        lemma_leading_white_space(s.drop_first(), n - 1);
    }
}

/// The trailing white space of `s` is its last `n` characters.
proof fn lemma_trailing_white_space(s: Seq<char>, n: int)
    requires
        0 <= n <= s.len(),
        forall|j: int| s.len() - n <= j < s.len() ==> is_white_space(#[trigger] s[j]),
        n == s.len() || !is_white_space(s[s.len() - n - 1]),
    ensures
        trailing_white_space(s) == n,
    decreases n,
{
    if n > 0 {
        lemma_trailing_white_space(s.drop_last(), n - 1);
    }
}

/// `s` without leading and trailing white space.
pub fn trim(s: &str) -> (res: &str)
    ensures
        res@ == trimmed(s@),
{
    let len = s.unicode_len();
    let mut start: usize = 0;
    while start < len && white_space(s.get_char(start))
        invariant
            start <= len,
            len == s@.len(),
            forall|j: int| 0 <= j < start ==> is_white_space(#[trigger] s@[j]),
        decreases len - start,
    {
        start = start + 1;
    }
    proof {
        lemma_leading_white_space(s@, start as int);
    }
    if start == len {
        return s.substring_char(len, len);
    }
    let mut end: usize = len;
    while end > start && white_space(s.get_char(end - 1))
        invariant
            start < len,
            start <= end <= len,
            len == s@.len(),
            !is_white_space(s@[start as int]),
            forall|j: int| end <= j < len ==> is_white_space(#[trigger] s@[j]),
        decreases end - start,
    {
        end = end - 1;
    }
    proof {
        lemma_trailing_white_space(s@, len - end);
    }
    s.substring_char(start, end)
}

/// Trimming removes white space from the ends and nothing else: the result
/// is a contiguous part of `s`, every character of `s` before or after it is
/// white space, and the result is empty or starts and ends with a character
/// that is not white space.
pub proof fn lemma_trimmed_strips_only_the_ends(s: Seq<char>)
    ensures
        exists|start: int, end: int| {
            &&& 0 <= start <= end <= s.len()
            &&& #[trigger] s.subrange(start, end) == trimmed(s)
            &&& forall|j: int| 0 <= j < start ==> is_white_space(#[trigger] s[j])
            &&& forall|j: int| end <= j < s.len() ==> is_white_space(#[trigger] s[j])
        },
        trimmed(s).len() > 0 ==> !is_white_space(trimmed(s)[0]) && !is_white_space(trimmed(s).last()),
{
    let start = leading_white_space(s) as int;
    lemma_leading_white_space_facts(s);
    if start == s.len() {
        assert(s.subrange(start, start) =~= trimmed(s));
        assert(forall|j: int| start <= j < s.len() ==> is_white_space(#[trigger] s[j]));
    } else {
        lemma_trailing_white_space_facts(s);
        let end = s.len() - trailing_white_space(s) as int;
        assert(s.subrange(start, end) == trimmed(s));
    }
}

/// The leading white space of `s`: its first `leading_white_space(s)`
/// characters are white space, and the next one, if any, is not.
proof fn lemma_leading_white_space_facts(s: Seq<char>)
    ensures
        leading_white_space(s) <= s.len(),
        forall|j: int| 0 <= j < leading_white_space(s) ==> is_white_space(#[trigger] s[j]),
        leading_white_space(s) < s.len() ==> !is_white_space(s[leading_white_space(s) as int]),
    decreases s.len(),
{
    if s.len() > 0 && is_white_space(s[0]) {
        lemma_leading_white_space_facts(s.drop_first());
        assert forall|j: int| 0 <= j < leading_white_space(s) implies is_white_space(#[trigger] s[j]) by {
            if j > 0 {
                assert(s[j] == s.drop_first()[j - 1]);
            }
        }
    }
}

/// The trailing white space of `s`: its last `trailing_white_space(s)`
/// characters are white space, and the one before them, if any, is not; and
/// where `s` does not start with white space it does not consist of it.
proof fn lemma_trailing_white_space_facts(s: Seq<char>)
    ensures
        trailing_white_space(s) <= s.len(),
        forall|j: int| s.len() - trailing_white_space(s) <= j < s.len() ==> is_white_space(#[trigger] s[j]),
        trailing_white_space(s) < s.len() ==> !is_white_space(s[s.len() - trailing_white_space(s) - 1]),
    decreases s.len(),
{
    if s.len() > 0 && is_white_space(s.last()) {
        lemma_trailing_white_space_facts(s.drop_last());
        assert forall|j: int| s.len() - trailing_white_space(s) <= j < s.len() implies is_white_space(#[trigger] s[j]) by {
            if j < s.len() - 1 {
                assert(s[j] == s.drop_last()[j]);
            }
        }
    }
}

/// What `str::to_lowercase` makes of `s` under Unicode's case mapping.
pub uninterp spec fn lowercase(s: Seq<char>) -> Seq<char>;

/// Every character of `s` is ASCII.
pub open spec fn is_ascii_text(s: Seq<char>) -> bool {
    forall|i: int| 0 <= i < s.len() ==> (#[trigger] s[i] as u32) < 128
}

/// The lower case of an ASCII character: 'A' to 'Z' become 'a' to 'z', the
/// rest stay.
pub open spec fn ascii_lower(c: char) -> char {
    if 'A' <= c <= 'Z' {
        (c as u32 + 32) as char
    } else {
        c
    }
}

/// The lower case of an ASCII text, character by character.
pub open spec fn ascii_lowercase(s: Seq<char>) -> Seq<char> {
    s.map_values(|c: char| ascii_lower(c))
}

/// Calls `str::to_lowercase`. Claims that the result is the lower-case
/// mapping of the text and, as std documents for ASCII (where Unicode's
/// mapping is the ASCII one, one character for one), that an ASCII text
/// maps 'A' to 'Z' to 'a' to 'z' and keeps every other character.
#[verifier::external_body]
pub(crate) fn to_lowercase(s: &str) -> (res: String)
    ensures
        res@ == lowercase(s@),
        is_ascii_text(s@) ==> res@ == ascii_lowercase(s@),
{
    s.to_lowercase()
}

/// The value of a string of decimal digits.
pub open spec fn digits_value(s: Seq<char>) -> int
    decreases s.len(),
{
    if s.len() == 0 {
        0
    } else {
        digits_value(s.drop_last()) * 10 + (s.last() as int - '0' as int)
    }
}

/// Every character of `s` is an ASCII digit.
pub open spec fn all_digits(s: Seq<char>) -> bool {
    forall|i: int| 0 <= i < s.len() ==> '0' <= #[trigger] s[i] <= '9'
}

/// The digits of a number, after an optional leading `+`.
pub open spec fn unsigned_digits(s: Seq<char>) -> Seq<char> {
    if s.len() > 0 && s[0] == '+' {
        s.drop_first()
    } else {
        s
    }
}

/// What `str::parse::<usize>` reads from `s`: an optional `+` followed by
/// at least one decimal digit, of a value that fits in `usize`.
pub open spec fn parsed_usize(s: Seq<char>) -> Option<usize> {
    let digits = unsigned_digits(s);
    if digits.len() > 0 && all_digits(digits) && digits_value(digits) <= usize::MAX {
        Some(digits_value(digits) as usize)
    } else {
        None
    }
}

/// A longer run of digits has no smaller value.
proof fn lemma_digits_value_grows(s: Seq<char>, i: int)
    requires
        0 <= i <= s.len(),
        all_digits(s),
    ensures
        0 <= digits_value(s.take(i)) <= digits_value(s),
    decreases s.len() - i,
{
    if i < s.len() {
        lemma_digits_value_grows(s, i + 1);
        let t = s.take(i + 1);
        assert(t.drop_last() =~= s.take(i));
        assert(all_digits(t));
        lemma_digits_value_nonnegative(t.drop_last());
    } else {
        assert(s.take(i) =~= s);
        lemma_digits_value_nonnegative(s);
    }
}

/// Digits have a non-negative value.
proof fn lemma_digits_value_nonnegative(s: Seq<char>)
    requires
        all_digits(s),
    ensures
        digits_value(s) >= 0,
    decreases s.len(),
{
    if s.len() > 0 {
        assert(all_digits(s.drop_last()));
        lemma_digits_value_nonnegative(s.drop_last());
    }
}

/// Reads a decimal `usize` as `str::parse` does.
pub fn parse_usize(s: &str) -> (res: Option<usize>)
    ensures
        res == parsed_usize(s@),
{
    let len = s.unicode_len();
    let start: usize = if len > 0 && s.get_char(0) == '+' { 1 } else { 0 };
    let ghost digits = unsigned_digits(s@);
    assert(digits =~= s@.subrange(start as int, len as int));
    if start == len {
        return None;
    }
    let mut i: usize = start;
    while i < len
        invariant
            start <= i <= len,
            len == s@.len(),
            digits =~= s@.subrange(start as int, len as int),
            digits == unsigned_digits(s@),
            forall|j: int| start <= j < i ==> '0' <= #[trigger] s@[j] <= '9',
        decreases len - i,
    {
        let c = s.get_char(i);
        if c < '0' || c > '9' {
            assert(digits[i - start] == s@[i as int]);
            assert(!('0' <= digits[i - start] <= '9'));
            assert(!all_digits(digits));
            return None;
        }
        i = i + 1;
    }
    assert(all_digits(digits));
    let mut value: usize = 0;
    let mut k: usize = start;
    while k < len
        invariant
            start <= k <= len,
            len == s@.len(),
            digits =~= s@.subrange(start as int, len as int),
            digits == unsigned_digits(s@),
            all_digits(digits),
            value as int == digits_value(digits.take(k - start)),
        decreases len - k,
    {
        let d = s.get_char(k);
        let ghost prefix = digits.take(k + 1 - start);
        assert(prefix.drop_last() =~= digits.take(k - start));
        assert(prefix.last() == d);
        let digit: usize = (d as u32 - '0' as u32) as usize;
        if value > (usize::MAX - digit) / 10 {
            proof {
                lemma_digits_value_grows(digits, k + 1 - start);
                assert(digits_value(prefix) == value * 10 + digit);
                assert(value * 10 + digit > usize::MAX) by (nonlinear_arith)
                    requires
                        value > (usize::MAX - digit) / 10,
                        digit <= 9,
                ;
            }
            return None;
        }
        assert(value * 10 + digit <= usize::MAX) by (nonlinear_arith)
            requires
                value <= (usize::MAX - digit) / 10,
                digit <= 9,
        ;
        value = value * 10 + digit;
        k = k + 1;
    }
    assert(digits.take(len - start) =~= digits);
    Some(value)
}

} // verus!
