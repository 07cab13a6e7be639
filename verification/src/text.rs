//! Numerals, for the lines and the board that the simulation shows, and
//! the board's columns of fixed width.

use vstd::prelude::*;

verus! {

/// The character that writes the digit `d`.
pub open spec fn digit_char(d: nat) -> char {
    if d == 0 {
        '0'
    } else if d == 1 {
        '1'
    } else if d == 2 {
        '2'
    } else if d == 3 {
        '3'
    } else if d == 4 {
        '4'
    } else if d == 5 {
        '5'
    } else if d == 6 {
        '6'
    } else if d == 7 {
        '7'
    } else if d == 8 {
        '8'
    } else {
        '9'
    }
}

/// The base-ten numeral of `n`: most significant digit first, no leading
/// zeros, and `0` for zero.
pub open spec fn decimal(n: nat) -> Seq<char>
    decreases n,
{
    if n < 10 {
        seq![digit_char(n)]
    } else {
        decimal(n / 10).push(digit_char(n % 10))
    }
}

/// The base-ten numeral of an integer, with a leading `-` below zero.
pub open spec fn signed_decimal(i: int) -> Seq<char> {
    if i < 0 {
        seq!['-'] + decimal((-i) as nat)
    } else {
        decimal(i as nat)
    }
}

/// `n` blanks.
pub open spec fn blanks(n: nat) -> Seq<char> {
    Seq::new(n, |i: int| ' ')
}

/// `s` at the left edge of a column of `width` characters, filled up with
/// blanks. Text that is as long as the column or longer is left as it is.
pub open spec fn align_left(s: Seq<char>, width: nat) -> Seq<char> {
    if s.len() >= width {
        s
    } else {
        s + blanks((width - s.len()) as nat)
    }
}

/// The digit `d` as a string.
fn digit_str(d: u64) -> (r: &'static str)
    requires
        d < 10,
    ensures
        r@ == seq![digit_char(d as nat)],
{
    proof {
        reveal_strlit("0");
        reveal_strlit("1");
        reveal_strlit("2");
        reveal_strlit("3");
        reveal_strlit("4");
        reveal_strlit("5");
        reveal_strlit("6");
        reveal_strlit("7");
        reveal_strlit("8");
        reveal_strlit("9");
    }
    match d {
        0 => "0",
        1 => "1",
        2 => "2",
        3 => "3",
        4 => "4",
        5 => "5",
        6 => "6",
        7 => "7",
        8 => "8",
        _ => "9",
    }
}

/// Writes `n` in base ten.
pub fn decimal_string(n: u64) -> (r: String)
    ensures
        r@ == decimal(n as nat),
    decreases n,
{
    if n < 10 {
        String::from_str(digit_str(n))
    } else {
        let mut r: String = decimal_string(n / 10);
        r.append(digit_str(n % 10));
        r
    }
}

/// Writes `i` in base ten, with a leading `-` below zero.
pub fn signed_decimal_string(i: i32) -> (r: String)
    ensures
        r@ == signed_decimal(i as int),
{
    if i < 0 {
        proof {
            reveal_strlit("-");
        }
        let magnitude: u64 = (0 - (i as i64)) as u64;
        let mut r: String = String::from_str("-");
        let digits: String = decimal_string(magnitude);
        r.append(digits.as_str());
        r
    } else {
        decimal_string(i as u64)
    }
}

/// A string of `n` blanks.
pub fn blank_string(n: usize) -> (r: String)
    ensures
        r@ == blanks(n as nat),
{
    proof {
        reveal_strlit(" ");
    }
    let mut r: String = String::new();
    let mut k: usize = 0;
    while k < n
        invariant
            k <= n,
            r@ == blanks(k as nat),
            " "@ == seq![' '],
        decreases n - k,
    {
        r.append(" ");
        k = k + 1;
    }
    r
}

/// Puts `s` at the left edge of a column of `width` characters.
pub fn align_left_string(s: String, width: usize) -> (r: String)
    ensures
        r@ == align_left(s@, width as nat),
{
    let len: usize = s.as_str().unicode_len();
    if len >= width {
        s
    } else {
        let mut r: String = s;
        let fill: String = blank_string(width - len);
        r.append(fill.as_str());
        r
    }
}

} // verus!
