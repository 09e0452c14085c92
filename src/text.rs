//! Building human-readable text: decimal numbers, and tab-separated tables
//! aligned into columns.

use std::io::Write;
use tabwriter::TabWriter;
use vstd::prelude::*;

verus! {

/// The character of a decimal digit.
pub open spec fn digit_char(d: nat) -> char {
    if d == 0 {
        '0'
    } else if d == 1 {
        '1'
    } else if d == 2 {
        '2'
    } else if d == 3 {
        '3'
    } else if d == 4 {
        '4'
    } else if d == 5 {
        '5'
    } else if d == 6 {
        '6'
    } else if d == 7 {
        '7'
    } else if d == 8 {
        '8'
    } else {
        '9'
    }
}

/// The decimal notation of a natural number, without leading zeros.
pub open spec fn decimal(n: nat) -> Seq<char>
    decreases n,
{
    if n < 10 {
        seq![digit_char(n)]
    } else {
        decimal(n / 10) + seq![digit_char(n % 10)]
    }
}

/// The text of a tab-separated table once its columns are aligned, as
/// tabwriter's default `TabWriter` writes it.
pub uninterp spec fn aligned_of(text: Seq<char>) -> Seq<char>;

fn digit_str(d: u64) -> (r: &'static str)
    requires
        d < 10,
    ensures
        r@ == seq![digit_char(d as nat)],
{
    proof {
        reveal_strlit("0");
        reveal_strlit("1");
        reveal_strlit("2");
        reveal_strlit("3");
        reveal_strlit("4");
        reveal_strlit("5");
        reveal_strlit("6");
        reveal_strlit("7");
        reveal_strlit("8");
        reveal_strlit("9");
    }
    if d == 0 {
        "0"
    } else if d == 1 {
        "1"
    } else if d == 2 {
        "2"
    } else if d == 3 {
        "3"
    } else if d == 4 {
        "4"
    } else if d == 5 {
        "5"
    } else if d == 6 {
        "6"
    } else if d == 7 {
        "7"
    } else if d == 8 {
        "8"
    } else {
        "9"
    }
}

/// The decimal notation of `n`.
pub fn decimal_string(n: u64) -> (r: String)
    ensures
        r@ == decimal(n as nat),
{
    let mut out = String::from_str(digit_str(n % 10));
    let mut rem: u64 = n / 10;
    while rem > 0
        invariant
            rem > 0 ==> decimal(n as nat) == decimal(rem as nat) + out@,
            rem == 0 ==> decimal(n as nat) == out@,
        decreases rem,
    {
        let d = digit_str(rem % 10);
        out = String::from_str(d).concat(out.as_str());
        rem = rem / 10;
    }
    out
}

/// Relies on num-integer's `div_mod_floor`, which for unsigned integers is
/// the pair of `/` and `%`.
#[verifier::external_body]
pub(crate) fn div_mod_floor(x: u64, y: u64) -> (r: (u64, u64))
    requires
        y > 0,
    ensures
        r.0 == x / y,
        r.1 == x % y,
{
    num_integer::div_mod_floor(x, y)
}

/// Relies on tabwriter's `TabWriter` with its default settings: the cells
/// that tabs separate are padded so that each column lines up.
#[verifier::external_body]
pub(crate) fn align_columns(text: &str) -> (r: String)
    ensures
        r@ == aligned_of(text@),
{
    let mut tw = TabWriter::new(Vec::new());
    let _ = tw.write_all(text.as_bytes());
    match tw.into_inner() {
        Ok(bytes) => String::from_utf8_lossy(&bytes).into_owned(),
        Err(_) => String::new(),
    }
}

} // verus!
