//! Small verified helpers on text.

use vstd::prelude::*;

verus! {

/// Whether two texts are equal.
pub fn text_eq(a: &str, b: &str) -> (r: bool)
    ensures
        r == (a@ == b@),
{
    let x = a.to_owned();
    let y = b.to_owned();
    x == y
}

/// A copy of a text.
pub fn copy_text(a: &str) -> (r: String)
    ensures
        r@ == a@,
{
    a.to_owned()
}

/// The character of a decimal digit.
pub open spec fn digit_char(d: int) -> char {
    if d == 0 {
        '0'
    } else if d == 1 {
        '1'
    } else if d == 2 {
        '2'
    } else if d == 3 {
        '3'
    } else if d == 4 {
        '4'
    } else if d == 5 {
        '5'
    } else if d == 6 {
        '6'
    } else if d == 7 {
        '7'
    } else if d == 8 {
        '8'
    } else {
        '9'
    }
}

/// The decimal digits of a natural number, without leading zeros.
pub open spec fn digits_of(n: nat) -> Seq<char>
    decreases n,
{
    if n < 10 {
        seq![digit_char(n as int)]
    } else {
        digits_of(n / 10).push(digit_char((n % 10) as int))
    }
}

/// The decimal text of an integer, with a `-` before a negative one.
pub open spec fn decimal_of(n: int) -> Seq<char> {
    if n < 0 {
        seq!['-'] + digits_of((-n) as nat)
    } else {
        digits_of(n as nat)
    }
}

fn digit_text(d: u64) -> (r: &'static str)
    requires
        d < 10,
    ensures
        r@ == seq![digit_char(d as int)],
{
    proof {
        reveal_strlit("0");
        reveal_strlit("1");
        reveal_strlit("2");
        reveal_strlit("3");
        reveal_strlit("4");
        reveal_strlit("5");
        reveal_strlit("6");
        reveal_strlit("7");
        reveal_strlit("8");
        reveal_strlit("9");
    }
    if d == 0 {
        "0"
    } else if d == 1 {
        "1"
    } else if d == 2 {
        "2"
    } else if d == 3 {
        "3"
    } else if d == 4 {
        "4"
    } else if d == 5 {
        "5"
    } else if d == 6 {
        "6"
    } else if d == 7 {
        "7"
    } else if d == 8 {
        "8"
    } else {
        "9"
    }
}

fn digits_text(n: u64) -> (r: String)
    ensures
        r@ == digits_of(n as nat),
    decreases n,
{
    if n < 10 {
        let mut r = String::new();
        r.append(digit_text(n));
        r
    } else {
        let mut r = digits_text(n / 10);
        r.append(digit_text(n % 10));
        r
    }
}

/// The decimal text of an integer.
pub fn decimal_text(n: i64) -> (r: String)
    ensures
        r@ == decimal_of(n as int),
{
    if n < 0 {
        let m: u64 = (-(n as i128)) as u64;
        let mut r = String::new();
        r.append("-");
        let digits = digits_text(m);
        r.append(digits.as_str());
        proof {
            reveal_strlit("-");
        }
        r
    } else {
        digits_text(n as u64)
    }
}

/// What `Debug` of `str` writes for a text: the text in double quotes, with the
/// escapes `char::escape_debug` gives.
pub uninterp spec fn spec_debug_str(text: Seq<char>) -> Seq<char>;

/// Calls `Debug` of `str` (through `format!("{:?}")`); the text is named, not written
/// out.
#[verifier::external_body]
pub(crate) fn debug_str(text: &str) -> (r: String)
    ensures
        r@ == spec_debug_str(text@),
{
    format!("{:?}", text)
}

} // verus!
