//! Text helpers: building strings, decimal numerals, percent-encoding.
use vstd::prelude::*;
use vstd::string::StringExecFns;
use vstd::string::StringSliceAdditionalSpecFns;
use vstd::std_specs::iter::IteratorSpec;

verus! {

broadcast use vstd::string::group_string_axioms;

/// Appends one character to a string (`String::push`).
///
/// Trusted: the contract states that the character is added at the end and
/// nothing else changes, which is what the standard library documents.
#[verifier::external_body]
pub(crate) fn push_char(s: &mut String, c: char)
    ensures
        final(s)@ == old(s)@.push(c),
{
    s.push(c);
}

/// Returns `a` followed by `b` as a new string.
pub fn join(a: &str, b: &str) -> (r: String)
    ensures
        r@ == a@ + b@,
{
    let mut r = a.to_owned();
    r.append(b);
    r
}

/// The digit character for `d`, which is below ten.
pub open spec fn digit_char(d: nat) -> char {
    if d == 0 {
        '0'
    } else if d == 1 {
        '1'
    } else if d == 2 {
        '2'
    } else if d == 3 {
        '3'
    } else if d == 4 {
        '4'
    } else if d == 5 {
        '5'
    } else if d == 6 {
        '6'
    } else if d == 7 {
        '7'
    } else if d == 8 {
        '8'
    } else {
        '9'
    }
}

/// The decimal numeral of `n`, without sign or leading zeros.
pub open spec fn decimal_text(n: nat) -> Seq<char>
    decreases n,
{
    if n < 10 {
        seq![digit_char(n)]
    } else {
        decimal_text(n / 10).push(digit_char(n % 10))
    }
}

/// The digit character for `d`.
fn digit(d: u64) -> (c: char)
    requires
        d < 10,
    ensures
        c == digit_char(d as nat),
{
    match d {
        0 => '0',
        1 => '1',
        2 => '2',
        3 => '3',
        4 => '4',
        5 => '5',
        6 => '6',
        7 => '7',
        8 => '8',
        _ => '9',
    }
}

/// Appends the decimal numeral of `n` to `out`.
pub fn push_decimal(out: &mut String, n: u64)
    ensures
        final(out)@ == old(out)@ + decimal_text(n as nat),
    decreases n,
{
    if n >= 10 {
        push_decimal(out, n / 10);
    }
    let c = digit(n % 10);
    push_char(out, c);
    proof {
        assert(out@ == old(out)@ + decimal_text(n as nat)) by {
            if n >= 10 {
                assert(decimal_text(n as nat) == decimal_text((n / 10) as nat).push(digit_char((n % 10) as nat)));
            }
        }
    }
}

/// The decimal numeral of `n`, as a string.
pub fn decimal_string(n: u64) -> (r: String)
    ensures
        r@ == decimal_text(n as nat),
{
    let mut r = String::new();
    push_decimal(&mut r, n);
    proof {
        assert(r@ =~= Seq::<char>::empty() + decimal_text(n as nat));
    }
    r
}

/// `s` with every occurrence of `c` left out, the others kept in order.
pub open spec fn without_char(s: Seq<char>, c: char) -> Seq<char>
    decreases s.len(),
{
    if s.len() == 0 {
        Seq::empty()
    } else if s.last() == c {
        without_char(s.drop_last(), c)
    } else {
        without_char(s.drop_last(), c).push(s.last())
    }
}

/// Removes every backslash from `s`, keeping the other characters in order.
pub fn remove_backslashes(s: &str) -> (r: String)
    ensures
        r@ == without_char(s@, '\\'),
{
    let mut r = String::new();
    assert(s@.take(s@.len() as int) =~= s@);
    for c in it: s.chars()
        invariant
            it.seq() == s@,
            r@ == without_char(s@.take(it.index() as int), '\\'),
    {
        proof {
            assert(s@.take(it.index() as int + 1).drop_last() =~= s@.take(it.index() as int));
        }
        if c != '\\' {
            push_char(&mut r, c);
        }
    }
    r
}

/// A byte that percent-encoding leaves as it is: an ASCII letter or digit,
/// or one of `-`, `.`, `_`, `~`.
pub open spec fn is_unreserved(b: u8) -> bool {
    ||| 48 <= b <= 57
    ||| 65 <= b <= 90
    ||| 97 <= b <= 122
    ||| b == 45
    ||| b == 46
    ||| b == 95
    ||| b == 126
}

/// The upper-case hexadecimal digit for `d`, which is below sixteen.
pub open spec fn hex_digit(d: u8) -> char {
    if d < 10 {
        ((d + 48) as u32) as char
    } else {
        ((d + 55) as u32) as char
    }
}

/// Percent-encoding of a byte sequence: each unreserved byte stands for
/// itself, every other byte `b` becomes `%` followed by the two upper-case
/// hexadecimal digits of `b`.
pub open spec fn percent_encoded(bytes: Seq<u8>) -> Seq<char>
    decreases bytes.len(),
{
    if bytes.len() == 0 {
        Seq::empty()
    } else {
        let b = bytes.last();
        percent_encoded(bytes.drop_last()) + if is_unreserved(b) {
            seq![(b as u32) as char]
        } else {
            seq!['%', hex_digit(b / 16), hex_digit(b % 16)]
        }
    }
}

/// A character that percent-encoding leaves as it is: an ASCII letter or
/// digit, or one of `-`, `.`, `_`, `~`.
pub open spec fn is_unreserved_char(c: char) -> bool {
    ||| '0' <= c <= '9'
    ||| 'A' <= c <= 'Z'
    ||| 'a' <= c <= 'z'
    ||| c == '-'
    ||| c == '.'
    ||| c == '_'
    ||| c == '~'
}

/// An upper-case hexadecimal digit.
pub open spec fn is_upper_hex(c: char) -> bool {
    '0' <= c <= '9' || 'A' <= c <= 'F'
}

/// Percent-encoded text: every character is unreserved or `%`, and every
/// `%` is followed by two upper-case hexadecimal digits.
pub open spec fn well_encoded(text: Seq<char>) -> bool {
    &&& forall|i: int| 0 <= i < text.len() ==> is_unreserved_char(#[trigger] text[i]) || text[i] == '%'
    &&& forall|i: int|
        0 <= i < text.len() && #[trigger] text[i] == '%' ==> i + 2 < text.len() && is_upper_hex(
            text[i + 1],
        ) && is_upper_hex(text[i + 2])
}

/// The value of a hexadecimal digit (`0`-`9`, `A`-`F`); zero for any other
/// character.
pub open spec fn hex_value(c: char) -> int {
    if '0' <= c <= '9' {
        c as int - 48
    } else if 'A' <= c <= 'F' {
        c as int - 55
    } else {
        0
    }
}

/// Percent-decoding, read from the end: a `%` three places from the end
/// starts an escape of the byte its two hexadecimal digits give; any other
/// character stands for the byte of its code.
pub open spec fn percent_decoded(text: Seq<char>) -> Seq<u8>
    decreases text.len(),
{
    if text.len() == 0 {
        Seq::empty()
    } else if text.len() >= 3 && text[text.len() - 3] == '%' {
        percent_decoded(text.take(text.len() - 3)).push(
            (hex_value(text[text.len() - 2]) * 16 + hex_value(text.last())) as u8,
        )
    } else {
        percent_decoded(text.drop_last()).push(text.last() as u8)
    }
}

/// Percent-encodes the UTF-8 bytes of `s` (`urlencoding::encode`).
///
/// Trusted: the contract restates the crate's documented and implemented
/// behaviour: every byte except ASCII alphanumerics and `-`, `_`, `.`, `~`
/// becomes `%XX` with upper-case hexadecimal digits.
#[verifier::external_body]
pub(crate) fn url_encode(s: &str) -> (r: String)
    ensures
        r@ == percent_encoded(s.spec_bytes()),
{
    urlencoding::encode(s).into_owned()
}

/// Whether `c` is one of the ASCII digits `0` to `9`.
pub open spec fn is_ascii_digit(c: char) -> bool {
    '0' <= c <= '9'
}

/// The number that a string of ASCII digits denotes in decimal.
pub open spec fn decimal_value(digits: Seq<char>) -> nat
    decreases digits.len(),
{
    if digits.len() == 0 {
        0
    } else {
        decimal_value(digits.drop_last()) * 10 + ((digits.last() as int - 48) as nat)
    }
}

/// The digits of a numeral: the text after an optional leading `+`.
pub open spec fn unsigned_digits(s: Seq<char>) -> Seq<char> {
    if s.len() > 0 && s[0] == '+' {
        s.drop_first()
    } else {
        s
    }
}

/// Whether `s` reads as a `u64`: an optional `+`, then one or more ASCII
/// digits denoting a number no larger than `u64::MAX`.
pub open spec fn reads_as_u64(s: Seq<char>) -> bool {
    let d = unsigned_digits(s);
    &&& d.len() > 0
    &&& forall|i: int| 0 <= i < d.len() ==> is_ascii_digit(#[trigger] d[i])
    &&& decimal_value(d) <= u64::MAX
}

/// Reads `s` as a decimal `u64` (`str::parse::<u64>`).
///
/// Trusted: the contract restates the standard library's documentation of
/// `u64::from_str`: an optional `+` followed by decimal digits only, with
/// an error for anything else and for a value that does not fit.
#[verifier::external_body]
pub(crate) fn parse_u64(s: &str) -> (r: std::result::Result<u64, std::num::ParseIntError>)
    ensures
        r is Ok <==> reads_as_u64(s@),
        r matches Ok(n) ==> n == decimal_value(unsigned_digits(s@)),
{
    s.parse::<u64>()
}

} // verus!
