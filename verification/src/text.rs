//! Text primitives that the configuration and SQL logic share: whitespace
//! trimming, unsigned decimal parsing and string comparison.

use vstd::prelude::*;

verus! {

/// Unicode `White_Space` characters, the set that `str::trim` removes.
pub open spec fn is_unicode_whitespace(c: char) -> bool {
    let n = c as u32;
    ||| 0x9 <= n <= 0xd
    ||| n == 0x20
    ||| n == 0x85
    ||| n == 0xa0
    ||| n == 0x1680
    ||| 0x2000 <= n <= 0x200a
    ||| n == 0x2028
    ||| n == 0x2029
    ||| n == 0x202f
    ||| n == 0x205f
    ||| n == 0x3000
}

/// Every character of `s` is whitespace.
pub open spec fn all_whitespace(s: Seq<char>) -> bool {
    forall|i: int| 0 <= i < s.len() ==> is_unicode_whitespace(#[trigger] s[i])
}

/// `s` without its leading whitespace.
pub open spec fn trim_start(s: Seq<char>) -> Seq<char>
    decreases s.len(),
{
    if s.len() > 0 && is_unicode_whitespace(s[0]) {
        trim_start(s.drop_first())
    } else {
        s
    }
}

/// `s` without its trailing whitespace.
pub open spec fn trim_end(s: Seq<char>) -> Seq<char>
    decreases s.len(),
{
    if s.len() > 0 && is_unicode_whitespace(s.last()) {
        trim_end(s.drop_last())
    } else {
        s
    }
}

/// `s` without leading and trailing whitespace.
pub open spec fn trim(s: Seq<char>) -> Seq<char> {
    trim_end(trim_start(s))
}

pub open spec fn is_ascii_digit(c: char) -> bool {
    '0' <= c <= '9'
}

/// The number that a string of decimal digits denotes.
pub open spec fn digits_value(s: Seq<char>) -> int
    decreases s.len(),
{
    if s.len() == 0 {
        0
    } else {
        digits_value(s.drop_last()) * 10 + (s.last() as int - '0' as int)
    }
}

/// An optional `+` followed by one or more decimal digits, and the number it denotes.
pub open spec fn unsigned_decimal(s: Seq<char>) -> Option<int> {
    let d = if s.len() > 0 && s[0] == '+' {
        s.drop_first()
    } else {
        s
    };
    if d.len() > 0 && (forall|i: int| 0 <= i < d.len() ==> is_ascii_digit(#[trigger] d[i])) {
        Some(digits_value(d))
    } else {
        None
    }
}

/// What `u16::from_str` accepts: an unsigned decimal within range.
pub open spec fn spec_parse_u16(s: Seq<char>) -> Option<u16> {
    match unsigned_decimal(s) {
        Some(n) => if n <= u16::MAX {
            Some(n as u16)
        } else {
            None
        },
        None => None,
    }
}

/// What `u32::from_str` accepts: an unsigned decimal within range.
pub open spec fn spec_parse_u32(s: Seq<char>) -> Option<u32> {
    match unsigned_decimal(s) {
        Some(n) => if n <= u32::MAX {
            Some(n as u32)
        } else {
            None
        },
        None => None,
    }
}

/// The decimal digit for `d`, for `d < 10`.
pub open spec fn digit_char(d: int) -> char {
    if d == 0 {
        '0'
    } else if d == 1 {
        '1'
    } else if d == 2 {
        '2'
    } else if d == 3 {
        '3'
    } else if d == 4 {
        '4'
    } else if d == 5 {
        '5'
    } else if d == 6 {
        '6'
    } else if d == 7 {
        '7'
    } else if d == 8 {
        '8'
    } else {
        '9'
    }
}

/// `n` written in decimal without sign or leading zeros, as `Display`
/// writes an unsigned integer.
pub open spec fn decimal_text(n: nat) -> Seq<char>
    decreases n,
{
    if n < 10 {
        seq![digit_char(n as int)]
    } else {
        decimal_text(n / 10).push(digit_char((n % 10) as int))
    }
}

/// The digit for `d` is a digit, and denotes `d`.
proof fn lemma_digit_char(d: int)
    requires
        0 <= d < 10,
    ensures
        is_ascii_digit(digit_char(d)),
        digit_char(d) as int - '0' as int == d,
{
}

/// A number's decimal text is a non-empty run of digits that denotes it.
proof fn lemma_decimal_text_digits(n: nat)
    ensures
        decimal_text(n).len() > 0,
        forall|i: int| 0 <= i < decimal_text(n).len() ==> is_ascii_digit(#[trigger] decimal_text(n)[i]),
        digits_value(decimal_text(n)) == n,
    decreases n,
{
    if n < 10 {
        lemma_digit_char(n as int);
        let s = decimal_text(n);
        assert(s.drop_last() =~= Seq::<char>::empty());
        assert(digits_value(s) == digits_value(s.drop_last()) * 10 + (s.last() as int - '0' as int));
    } else {
        lemma_decimal_text_digits(n / 10);
        lemma_digit_char((n % 10) as int);
        let s = decimal_text(n);
        assert(s.drop_last() =~= decimal_text(n / 10));
        assert(n == (n / 10) * 10 + n % 10);
        assert(s.last() == digit_char((n % 10) as int));
        assert(digits_value(s) == digits_value(s.drop_last()) * 10 + (s.last() as int - '0' as int));
        assert forall|i: int| 0 <= i < s.len() implies is_ascii_digit(#[trigger] s[i]) by {
            if i < s.len() - 1 {
                assert(s[i] == decimal_text(n / 10)[i]);
            }
        }
    }
}

/// Parsing a number's decimal text gives the number back.
pub proof fn lemma_unsigned_decimal_round_trip(n: nat)
    ensures
        unsigned_decimal(decimal_text(n)) == Some(n as int),
        trim(decimal_text(n)) == decimal_text(n),
{
    lemma_decimal_text_digits(n);
    let s = decimal_text(n);
    assert(is_ascii_digit(s[0]));
    assert(is_ascii_digit(s.last()));
    lemma_no_outer_whitespace_trim(s);
}

/// Trimming leaves a string that neither starts nor ends with whitespace
/// as it is.
pub proof fn lemma_no_outer_whitespace_trim(s: Seq<char>)
    requires
        s.len() > 0 ==> !is_unicode_whitespace(s[0]) && !is_unicode_whitespace(s.last()),
    ensures
        trim(s) == s,
{
}

/// `str::trim`: std documents that it removes leading and trailing
/// characters with the Unicode `White_Space` property; the contract states
/// exactly that.
#[verifier::external_body]
pub(crate) fn trim_whitespace(s: &str) -> (r: &str)
    ensures
        r@ == trim(s@),
{
    s.trim()
}

/// `<u16 as FromStr>::from_str` (through `str::parse`): std documents that
/// it accepts an optional `+` followed by decimal digits and fails on an empty
/// string, any other character and a value above `u16::MAX`; the contract
/// states exactly that.
#[verifier::external_body]
pub(crate) fn parse_u16(s: &str) -> (r: Option<u16>)
    ensures
        r == spec_parse_u16(s@),
{
    s.parse::<u16>().ok()
}

/// `<u32 as FromStr>::from_str` (through `str::parse`), documented as for
/// `u16` with `u32::MAX` as the bound; the contract states exactly that.
#[verifier::external_body]
pub(crate) fn parse_u32(s: &str) -> (r: Option<u32>)
    ensures
        r == spec_parse_u32(s@),
{
    s.parse::<u32>().ok()
}

/// Whether two strings hold the same characters.
pub fn str_equal(a: &str, b: &str) -> (r: bool)
    ensures
        r == (a@ == b@),
{
    let x = a.to_owned();
    let y = b.to_owned();
    x == y
}

/// Whitespace before a string does not survive `trim_start`.
pub proof fn lemma_trim_start_skips_whitespace(w: Seq<char>, x: Seq<char>)
    requires
        all_whitespace(w),
    ensures
        trim_start(w + x) == trim_start(x),
    decreases w.len(),
{
    if w.len() == 0 {
        assert(w + x =~= x);
    } else {
        assert((w + x)[0] == w[0]);
        assert((w + x).drop_first() =~= w.drop_first() + x);
        lemma_trim_start_skips_whitespace(w.drop_first(), x);
    }
}

/// Whitespace after a string does not survive `trim_end`.
pub proof fn lemma_trim_end_skips_whitespace(x: Seq<char>, w: Seq<char>)
    requires
        all_whitespace(w),
    ensures
        trim_end(x + w) == trim_end(x),
    decreases w.len(),
{
    if w.len() == 0 {
        assert(x + w =~= x);
    } else {
        assert((x + w).last() == w.last());
        assert((x + w).drop_last() =~= x + w.drop_last());
        lemma_trim_end_skips_whitespace(x, w.drop_last());
    }
}

/// `trim_start` keeps trailing whitespace after a string that has some
/// other character, and removes everything from a string that has none.
proof fn lemma_trim_start_append_whitespace(x: Seq<char>, w: Seq<char>)
    requires
        all_whitespace(w),
    ensures
        trim_start(x).len() > 0 ==> trim_start(x + w) == trim_start(x) + w,
        trim_start(x).len() == 0 ==> trim_start(x + w).len() == 0,
    decreases x.len(),
{
    if x.len() == 0 {
        assert(x + w =~= w);
        assert(w =~= w + Seq::<char>::empty());
        lemma_trim_start_skips_whitespace(w, Seq::<char>::empty());
    } else {
        assert((x + w)[0] == x[0]);
        if is_unicode_whitespace(x[0]) {
            assert((x + w).drop_first() =~= x.drop_first() + w);
            lemma_trim_start_append_whitespace(x.drop_first(), w);
        }
    }
}

/// Trimming ignores whitespace added at either end.
pub proof fn lemma_trim_ignores_padding(w1: Seq<char>, s: Seq<char>, w2: Seq<char>)
    requires
        all_whitespace(w1),
        all_whitespace(w2),
    ensures
        trim(w1 + s + w2) == trim(s),
{
    let x = w1 + s;
    lemma_trim_start_append_whitespace(x, w2);
    if trim_start(x).len() > 0 {
        lemma_trim_end_skips_whitespace(trim_start(x), w2);
    } else {
        assert(trim_start(x + w2) =~= trim_start(x));
    }
    lemma_trim_start_skips_whitespace(w1, s);
}

} // verus!
