//! Decimal rendering of numeric platform status codes, used when a
//! policy-store failure is surfaced to the caller.

use vstd::prelude::*;

use crate::identity::{hex_digit_char, hex_digit_str};

verus! {

/// The decimal digits of a non-negative number, most significant first.
pub open spec fn decimal_digits(n: int) -> Seq<char>
    decreases n,
{
    if n < 10 {
        seq![hex_digit_char(n)]
    } else {
        decimal_digits(n / 10).push(hex_digit_char(n % 10))
    }
}

/// Renders `n` in decimal.
pub fn u32_decimal(n: u32) -> (r: String)
    ensures
        r@ == decimal_digits(n as int),
    decreases n,
{
    if n < 10 {
        let s = String::from_str(hex_digit_str(n as u16));
        proof {
            assert(s@ =~= decimal_digits(n as int));
        }
        s
    } else {
        let mut s = u32_decimal(n / 10);
        s.append(hex_digit_str((n % 10) as u16));
        proof {
            assert(s@ =~= decimal_digits(n as int));
        }
        s
    }
}

} // verus!
