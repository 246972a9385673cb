//! Integer money arithmetic.
//!
//! Two rounding rules are used throughout the core:
//! - a proportional price for a fraction of a divisible product:
//!   `catalog_price * (fraction_amount / base_amount)`, rounded to the
//!   nearest integer currency unit;
//! - a net price back-calculated from a gross amount at the standard VAT
//!   rate: `net = round(gross / 1.27)`, rounding half away from zero.

use vstd::prelude::*;

verus! {

use vstd::arithmetic::div_mod::{lemma_div_is_ordered, lemma_div_multiples_vanish};
use vstd::arithmetic::mul::lemma_mul_upper_bound;

/// `num / den` rounded to the nearest integer, halves rounding up.
/// Meaningful for `num >= 0` and `den > 0`.
pub open spec fn round_ratio(num: int, den: int) -> int
    recommends
        num >= 0,
        den > 0,
{
    (2 * num + den) / (2 * den)
}

/// `round(g / 1.27)`, i.e. the nearest integer to `100 * g / 127`,
/// halves rounding away from zero. This back-calculates a net amount
/// from a gross amount at the standard VAT rate.
pub open spec fn net_of_gross(g: int) -> int {
    if g >= 0 {
        round_ratio(100 * g, 127)
    } else {
        -round_ratio(100 * (-g), 127)
    }
}

/// `price * amount / base` rounded to the nearest currency unit.
/// Returns `None` when the exact rounded value does not fit in `u32`.
pub fn proportional_price(price: u32, amount: u32, base: u32) -> (r: Option<u32>)
    requires
        base > 0,
    ensures
        match r {
            Some(v) => v as int == round_ratio(price as int * amount as int, base as int),
            None => round_ratio(price as int * amount as int, base as int) > u32::MAX,
        },
{
    proof {
        lemma_mul_upper_bound(price as int, 0xffff_ffff, amount as int, 0xffff_ffff);
    }
    let num: u128 = (price as u128) * (amount as u128);
    let den: u128 = base as u128;
    let q: u128 = (2 * num + den) / (2 * den);
    if q <= 0xffff_ffff {
        Some(q as u32)
    } else {
        None
    }
}

/// The rounded net amount for a gross amount: `round(gross / 1.27)`,
/// halves rounding away from zero.
pub fn net_from_gross(gross: i32) -> (r: i32)
    ensures
        r as int == net_of_gross(gross as int),
{
    if gross >= 0 {
        let q: i64 = (200 * (gross as i64) + 127) / 254;
        proof {
            lemma_div_is_ordered(200 * (gross as int) + 127, 254int * 2147483647, 254);
            lemma_div_multiples_vanish(2147483647, 254);
        }
        q as i32
    } else {
        let m: i64 = -(gross as i64);
        let q: i64 = (200 * m + 127) / 254;
        proof {
            lemma_div_is_ordered(200 * (m as int) + 127, 254int * 2147483647, 254);
            lemma_div_multiples_vanish(2147483647, 254);
        }
        -(q as i32)
    }
}

} // verus!
