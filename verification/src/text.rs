//! Small verified helpers for building and comparing strings.

use vstd::prelude::*;
use vstd::string::StringSliceAdditionalSpecFns;
use vstd::string::StringExecFns;

verus! {

/// Byte-for-byte string equality. Two `&str` with equal UTF-8 bytes denote
/// the same character sequence, so this decides language tags and the like.
pub fn str_eq(a: &str, b: &str) -> (r: bool)
    ensures
        r == (a.spec_bytes() =~= b.spec_bytes()),
{
    let ab = a.as_bytes();
    let bb = b.as_bytes();
    if ab.len() != bb.len() {
        return false;
    }
    let mut i: usize = 0;
    while i < ab.len()
        invariant
            ab@ == a.spec_bytes(),
            bb@ == b.spec_bytes(),
            ab@.len() == bb@.len(),
            0 <= i <= ab@.len(),
            forall|j: int| 0 <= j < i ==> ab@[j] == bb@[j],
        decreases ab@.len() - i,
    {
        if ab[i] != bb[i] {
            return false;
        }
        i += 1;
    }
    true
}

/// The decimal digit character for `d`, as a one-character sequence.
pub open spec fn spec_digit_chars(d: u32) -> Seq<char> {
    if d == 0 {
        "0"@
    } else if d == 1 {
        "1"@
    } else if d == 2 {
        "2"@
    } else if d == 3 {
        "3"@
    } else if d == 4 {
        "4"@
    } else if d == 5 {
        "5"@
    } else if d == 6 {
        "6"@
    } else if d == 7 {
        "7"@
    } else if d == 8 {
        "8"@
    } else {
        "9"@
    }
}

/// A number below one thousand, written with exactly three decimal digits,
/// leading zeroes included.
pub open spec fn spec_padded_code(n: u32) -> Seq<char> {
    spec_digit_chars(n / 100) + spec_digit_chars((n / 10) % 10) + spec_digit_chars(n % 10)
}

/// The decimal digit character for `d`, computed.
pub fn digit_str(d: u32) -> (r: &'static str)
    requires
        d < 10,
    ensures
        r@ == spec_digit_chars(d),
{
    match d {
        0 => "0",
        1 => "1",
        2 => "2",
        3 => "3",
        4 => "4",
        5 => "5",
        6 => "6",
        7 => "7",
        8 => "8",
        _ => "9",
    }
}

/// Three-digit zero-padded rendering of `n`.
pub fn padded_code(n: u32) -> (r: String)
    requires
        n < 1000,
    ensures
        r@ == spec_padded_code(n),
{
    let mut s = String::new();
    s.append(digit_str(n / 100));
    s.append(digit_str((n / 10) % 10));
    s.append(digit_str(n % 10));
    s
}

} // verus!
