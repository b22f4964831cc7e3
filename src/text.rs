//! Reading whole-number guesses out of lines of text, and the first word of
//! a line.

use vstd::prelude::*;

verus! {

/// The characters with the Unicode `White_Space` property.
pub open spec fn is_white_space(c: char) -> bool {
    ('\u{9}' <= c && c <= '\u{d}') || c == ' ' || c == '\u{85}' || c == '\u{a0}' || c
        == '\u{1680}' || ('\u{2000}' <= c && c <= '\u{200a}') || c == '\u{2028}' || c
        == '\u{2029}' || c == '\u{202f}' || c == '\u{205f}' || c == '\u{3000}'
}

/// `s` without its leading white space.
pub open spec fn trim_start(s: Seq<char>) -> Seq<char>
    decreases s.len(),
{
    if s.len() > 0 && is_white_space(s[0]) {
        trim_start(s.drop_first())
    } else {
        s
    }
}

/// `s` without its trailing white space.
pub open spec fn trim_end(s: Seq<char>) -> Seq<char>
    decreases s.len(),
{
    if s.len() > 0 && is_white_space(s.last()) {
        trim_end(s.drop_last())
    } else {
        s
    }
}

/// `s` without white space at either end.
pub open spec fn trimmed(s: Seq<char>) -> Seq<char> {
    trim_end(trim_start(s))
}

pub open spec fn is_digit(c: char) -> bool {
    '0' <= c && c <= '9'
}

pub open spec fn all_digits(s: Seq<char>) -> bool {
    forall|i: int| 0 <= i < s.len() ==> is_digit(#[trigger] s[i])
}

/// The number that a string of decimal digits writes, most significant first.
pub open spec fn digits_value(s: Seq<char>) -> nat
    decreases s.len(),
{
    if s.len() == 0 {
        0
    } else {
        digits_value(s.drop_last()) * 10 + (s.last() as nat - '0' as nat) as nat
    }
}

/// The digits of `s` once an optional leading `+` is set aside.
pub open spec fn unsigned_digits(s: Seq<char>) -> Seq<char> {
    if s.len() > 0 && s[0] == '+' {
        s.drop_first()
    } else {
        s
    }
}

/// `s` is an optional `+` followed by one or more decimal digits.
pub open spec fn is_unsigned_text(s: Seq<char>) -> bool {
    unsigned_digits(s).len() > 0 && all_digits(unsigned_digits(s))
}

/// The `u32` that `s` writes, if `s` is unsigned decimal text whose value fits.
pub open spec fn parse_u32_of(s: Seq<char>) -> Option<u32> {
    if is_unsigned_text(s) && digits_value(unsigned_digits(s)) <= u32::MAX {
        Some(digits_value(unsigned_digits(s)) as u32)
    } else {
        None
    }
}

/// Relies on `str::trim`: the slice without leading and trailing characters
/// that have the Unicode `White_Space` property.
#[verifier::external_body]
fn trim(s: &str) -> (r: &str)
    ensures
        r@ == trimmed(s@),
{
    s.trim()
}

/// Relies on `u32`'s `FromStr`: an optional `+` then decimal digits, whose
/// value must fit in a `u32`; anything else is an error.
#[verifier::external_body]
fn parse_u32(s: &str) -> (r: Option<u32>)
    ensures
        r == parse_u32_of(s@),
{
    s.parse::<u32>().ok()
}

/// Reads a guess from a line: the text between the white space at its ends,
/// as a whole number that fits in a `u32`, or `None`.
pub fn parse_guess(line: &str) -> (r: Option<u32>)
    ensures
        r == parse_u32_of(trimmed(line@)),
{
    parse_u32(trim(line))
}

/// The decimal digit character for `d`, which is below ten.
pub open spec fn digit_char(d: nat) -> char {
    seq!['0', '1', '2', '3', '4', '5', '6', '7', '8', '9'][d as int]
}

/// The usual decimal writing of `n`: no sign, no leading zero.
pub open spec fn decimal_text(n: nat) -> Seq<char>
    decreases n,
{
    if n < 10 {
        seq![digit_char(n)]
    } else {
        decimal_text(n / 10).push(digit_char(n % 10))
    }
}

proof fn lemma_digit_char(d: nat)
    requires
        d < 10,
    ensures
        is_digit(digit_char(d)),
        digit_char(d) as nat - '0' as nat == d,
{
    let ds = seq!['0', '1', '2', '3', '4', '5', '6', '7', '8', '9'];
    assert(ds[0] == '0' && ds[1] == '1' && ds[2] == '2' && ds[3] == '3' && ds[4] == '4');
    assert(ds[5] == '5' && ds[6] == '6' && ds[7] == '7' && ds[8] == '8' && ds[9] == '9');
}

proof fn lemma_decimal_text(n: nat)
    ensures
        decimal_text(n).len() > 0,
        all_digits(decimal_text(n)),
        digits_value(decimal_text(n)) == n,
    decreases n,
{
    let t = decimal_text(n);
    lemma_digit_char(n % 10);
    if n < 10 {
        assert(t.drop_last() =~= Seq::<char>::empty());
        assert(digits_value(t) == digits_value(t.drop_last()) * 10 + (t.last() as nat - '0' as nat) as nat);
    } else {
        lemma_decimal_text(n / 10);
        assert(t.drop_last() =~= decimal_text(n / 10));
        assert(t.last() == digit_char(n % 10));
        assert(digits_value(t) == digits_value(t.drop_last()) * 10 + (t.last() as nat - '0' as nat) as nat);
        assert(n == (n / 10) * 10 + n % 10);
        assert forall|i: int| 0 <= i < t.len() implies is_digit(#[trigger] t[i]) by {
            if i < t.len() - 1 {
                assert(t[i] == decimal_text(n / 10)[i]);
            }
        }
    }
}

/// The decimal writing of a number that fits in a `u32`, with or without
/// white space around it, reads back as that number.
pub proof fn lemma_parse_decimal_text(n: u32)
    ensures
        trimmed(decimal_text(n as nat)) == decimal_text(n as nat),
        parse_u32_of(trimmed(decimal_text(n as nat))) == Some(n),
{
    let t = decimal_text(n as nat);
    lemma_decimal_text(n as nat);
    assert(is_digit(t[0]));
    assert(is_digit(t.last()));
    assert(trim_start(t) == t);
    assert(trim_end(t) == t);
    assert(unsigned_digits(t) == t);
}

/// `w` is the first word of `s`: the characters before its first space, or
/// all of `s` when it has none.
pub open spec fn is_first_word(s: Seq<char>, w: Seq<char>) -> bool {
    &&& w.len() <= s.len()
    &&& w == s.take(w.len() as int)
    &&& forall|i: int| 0 <= i < w.len() ==> w[i] != ' '
    &&& w.len() == s.len() || s[w.len() as int] == ' '
}

/// The characters of `s` before its first space, or the whole of `s`.
pub fn first_word(s: &str) -> (r: &str)
    ensures
        is_first_word(s@, r@),
{
    let n = s.unicode_len();
    let mut i: usize = 0;
    while i < n
        invariant
            n == s@.len(),
            i <= n,
            forall|j: int| 0 <= j < i ==> s@[j] != ' ',
        decreases n - i,
    {
        if s.get_char(i) == ' ' {
            let w = s.substring_char(0, i);
            assert(w@ =~= s@.take(i as int));
            return w;
        }
        i = i + 1;
    }
    let w = s.substring_char(0, n);
    assert(w@ =~= s@.take(n as int));
    w
}

} // verus!
