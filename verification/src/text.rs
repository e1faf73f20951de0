use vstd::prelude::*;
use vstd::string::StringExecFns;

verus! {

/// The character that writes the digit `d` of a base up to sixteen; letters
/// are capitals if `upper`.
pub open spec fn spec_digit(d: int, upper: bool) -> Seq<char> {
    if d == 0 {
        "0"@
    } else if d == 1 {
        "1"@
    } else if d == 2 {
        "2"@
    } else if d == 3 {
        "3"@
    } else if d == 4 {
        "4"@
    } else if d == 5 {
        "5"@
    } else if d == 6 {
        "6"@
    } else if d == 7 {
        "7"@
    } else if d == 8 {
        "8"@
    } else if d == 9 {
        "9"@
    } else if d == 10 {
        if upper {
            "A"@
        } else {
            "a"@
        }
    } else if d == 11 {
        if upper {
            "B"@
        } else {
            "b"@
        }
    } else if d == 12 {
        if upper {
            "C"@
        } else {
            "c"@
        }
    } else if d == 13 {
        if upper {
            "D"@
        } else {
            "d"@
        }
    } else if d == 14 {
        if upper {
            "E"@
        } else {
            "e"@
        }
    } else {
        if upper {
            "F"@
        } else {
            "f"@
        }
    }
}

fn digit(d: u8, upper: bool) -> (s: &'static str)
    requires
        d < 16,
    ensures
        s@ == spec_digit(d as int, upper),
{
    match d {
        0 => "0",
        1 => "1",
        2 => "2",
        3 => "3",
        4 => "4",
        5 => "5",
        6 => "6",
        7 => "7",
        8 => "8",
        9 => "9",
        10 => if upper {
            "A"
        } else {
            "a"
        },
        11 => if upper {
            "B"
        } else {
            "b"
        },
        12 => if upper {
            "C"
        } else {
            "c"
        },
        13 => if upper {
            "D"
        } else {
            "d"
        },
        14 => if upper {
            "E"
        } else {
            "e"
        },
        _ => if upper {
            "F"
        } else {
            "f"
        },
    }
}

/// `n` written in decimal, without leading zeros.
pub open spec fn spec_decimal(n: nat) -> Seq<char>
    decreases n,
{
    if n < 10 {
        spec_digit(n as int, false)
    } else {
        spec_decimal(n / 10) + spec_digit((n % 10) as int, false)
    }
}

/// `b` written as two hexadecimal digits.
pub open spec fn spec_hex2(b: u8, upper: bool) -> Seq<char> {
    spec_digit(b as int / 16, upper) + spec_digit(b as int % 16, upper)
}

/// `v` written as four hexadecimal digits.
pub open spec fn spec_hex4(v: u16, upper: bool) -> Seq<char> {
    spec_hex2((v / 256) as u8, upper) + spec_hex2((v % 256) as u8, upper)
}

/// Appends `n` in decimal to `text`.
pub fn push_decimal(text: String, n: u64) -> (out: String)
    ensures
        out@ == text@ + spec_decimal(n as nat),
    decreases n,
{
    if n < 10 {
        text.concat(digit(n as u8, false))
    } else {
        let head = push_decimal(text, n / 10);
        head.concat(digit((n % 10) as u8, false))
    }
}

/// Appends `b` as two hexadecimal digits to `text`.
pub fn push_hex2(text: String, b: u8, upper: bool) -> (out: String)
    ensures
        out@ == text@ + spec_hex2(b, upper),
{
    text.concat(digit(b / 16, upper)).concat(digit(b % 16, upper))
}

/// Appends `v` as four hexadecimal digits to `text`.
pub fn push_hex4(text: String, v: u16, upper: bool) -> (out: String)
    ensures
        out@ == text@ + spec_hex4(v, upper),
{
    let head = push_hex2(text, (v / 256) as u8, upper);
    push_hex2(head, (v % 256) as u8, upper)
}

/// Compares two strings with `str::eq` of the standard library, which is
/// true exactly when both hold the same characters.
#[verifier::external_body]
pub(crate) fn str_eq(a: &str, b: &str) -> (same: bool)
    ensures
        same == (a@ == b@),
{
    a == b
}

} // verus!
