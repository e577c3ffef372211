//! Text forms of bytes: upper-case hexadecimal pairs and plain decimal.

use vstd::prelude::*;
use vstd::string::StrSliceExecFns;
use vstd::string::StringExecFns;

verus! {

/// The sixteen hexadecimal digits, upper case, in order of value.
pub open spec fn upper_hex_digits() -> Seq<char> {
    "0123456789ABCDEF"@
}

/// The ten decimal digits in order of value.
pub open spec fn decimal_digits() -> Seq<char> {
    "0123456789"@
}

/// A byte as two upper-case hexadecimal digits, high nibble first.
pub open spec fn hex_pair(b: u8) -> Seq<char> {
    seq![upper_hex_digits()[b as int / 16], upper_hex_digits()[b as int % 16]]
}

/// A byte in decimal without leading zeros.
pub open spec fn decimal(n: u8) -> Seq<char> {
    if n >= 100 {
        seq![
            decimal_digits()[n as int / 100],
            decimal_digits()[(n as int / 10) % 10],
            decimal_digits()[n as int % 10],
        ]
    } else if n >= 10 {
        seq![decimal_digits()[n as int / 10], decimal_digits()[n as int % 10]]
    } else {
        seq![decimal_digits()[n as int]]
    }
}

/// Appends the digit of value `d` out of `digits` to `out`.
fn push_digit(out: &mut String, digits: &str, d: usize)
    requires
        digits.is_ascii(),
        d < digits@.len() <= 16,
    ensures
        final(out)@ == old(out)@.push(digits@[d as int]),
{
    let digit = digits.substring_ascii(d, d + 1);
    out.append(digit);
    assert(out@ =~= old(out)@.push(digits@[d as int]));
}

/// Appends the two hexadecimal digits of `b` to `out`.
pub fn push_hex_pair(out: &mut String, b: u8)
    ensures
        final(out)@ == old(out)@ + hex_pair(b),
{
    let digits = "0123456789ABCDEF";
    proof {
        reveal_strlit("0123456789ABCDEF");
    }
    push_digit(out, digits, (b / 16) as usize);
    push_digit(out, digits, (b % 16) as usize);
    assert(out@ =~= old(out)@ + hex_pair(b));
}

/// Appends `n` in decimal to `out`.
pub fn push_decimal(out: &mut String, n: u8)
    ensures
        final(out)@ == old(out)@ + decimal(n),
{
    let digits = "0123456789";
    proof {
        reveal_strlit("0123456789");
    }
    if n >= 100 {
        push_digit(out, digits, (n / 100) as usize);
    }
    if n >= 10 {
        push_digit(out, digits, ((n / 10) % 10) as usize);
    }
    push_digit(out, digits, (n % 10) as usize);
    assert(out@ =~= old(out)@ + decimal(n));
}

} // verus!
