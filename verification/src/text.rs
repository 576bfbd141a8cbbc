//! Small verified text helpers: decimal rendering and string comparison.

use vstd::prelude::*;

verus! {

/// The ASCII character of decimal digit `d` (for `0 <= d < 10`).
pub open spec fn digit_char(d: int) -> char {
    if d == 0 { '0' }
    else if d == 1 { '1' }
    else if d == 2 { '2' }
    else if d == 3 { '3' }
    else if d == 4 { '4' }
    else if d == 5 { '5' }
    else if d == 6 { '6' }
    else if d == 7 { '7' }
    else if d == 8 { '8' }
    else { '9' }
}

/// The decimal digits of `n`, most significant first, with no leading zeros
/// (so `0` is rendered as `"0"`).
pub open spec fn decimal(n: nat) -> Seq<char>
    decreases n,
{
    if n < 10 {
        seq![digit_char(n as int)]
    } else {
        decimal(n / 10).push(digit_char((n % 10) as int))
    }
}

/// Every decimal rendering has at least one digit, and exactly one below ten.
pub proof fn decimal_len(n: nat)
    ensures
        decimal(n).len() >= 1,
        (decimal(n).len() == 1) == (n < 10),
    decreases n,
{
    if n >= 10 {
        decimal_len(n / 10);
    }
}

/// `s` left-padded with `'0'` to at least two characters, as `{:02}` does.
pub open spec fn zero_pad2(s: Seq<char>) -> Seq<char> {
    if s.len() == 0 {
        seq!['0', '0']
    } else if s.len() == 1 {
        seq!['0'] + s
    } else {
        s
    }
}

/// A one-character string holding decimal digit `d`.
fn digit_str(d: u32) -> (res: &'static str)
    requires
        d < 10,
    ensures
        res@ == seq![digit_char(d as int)],
{
    proof {
        reveal_strlit("0");
        reveal_strlit("1");
        reveal_strlit("2");
        reveal_strlit("3");
        reveal_strlit("4");
        reveal_strlit("5");
        reveal_strlit("6");
        reveal_strlit("7");
        reveal_strlit("8");
        reveal_strlit("9");
    }
    match d {
        0 => "0",
        1 => "1",
        2 => "2",
        3 => "3",
        4 => "4",
        5 => "5",
        6 => "6",
        7 => "7",
        8 => "8",
        _ => "9",
    }
}

/// Renders `n` in decimal, as `n.to_string()` does.
pub fn decimal_string(n: u32) -> (res: String)
    ensures
        res@ == decimal(n as nat),
    decreases n,
{
    if n < 10 {
        String::from_str(digit_str(n))
    } else {
        let prefix = decimal_string(n / 10);
        let res = prefix.concat(digit_str(n % 10));
        proof {
            assert(decimal(n as nat) == decimal((n / 10) as nat).push(digit_char((n % 10) as int)));
        }
        res
    }
}

/// Renders `n` in decimal padded with zeros to at least two digits, as
/// `format!("{n:02}")` does.
pub fn decimal_string_pad2(n: u32) -> (res: String)
    ensures
        res@ == zero_pad2(decimal(n as nat)),
{
    proof {
        decimal_len(n as nat);
        reveal_strlit("0");
    }
    let digits = decimal_string(n);
    if n < 10 {
        String::from_str("0").concat(digits.as_str())
    } else {
        digits
    }
}

/// Whether two strings hold the same characters.
pub fn str_eq(a: &str, b: &str) -> (res: bool)
    ensures
        res == (a@ == b@),
{
    a.to_owned() == b.to_owned()
}

} // verus!
