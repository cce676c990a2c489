//! Rendering fixed-point numbers as decimal text for reports and order
//! parameters.  Every function's output is pinned character by character
//! by a spec-level rendering.

use vstd::prelude::*;
use vstd::string::StringExecFns;

use crate::units::SCALE;

verus! {

/// The single decimal digit character for `d`.
pub open spec fn spec_digit(d: nat) -> Seq<char>
    recommends
        d < 10,
{
    if d == 0 {
        "0"@
    } else if d == 1 {
        "1"@
    } else if d == 2 {
        "2"@
    } else if d == 3 {
        "3"@
    } else if d == 4 {
        "4"@
    } else if d == 5 {
        "5"@
    } else if d == 6 {
        "6"@
    } else if d == 7 {
        "7"@
    } else if d == 8 {
        "8"@
    } else {
        "9"@
    }
}

/// The usual decimal representation of a natural number, without leading
/// zeros (a lone zero for zero itself).
pub open spec fn spec_dec_rep(n: nat) -> Seq<char>
    decreases n,
{
    if n < 10 {
        spec_digit(n)
    } else {
        spec_dec_rep(n / 10) + spec_digit(n % 10)
    }
}

/// The last `width` decimal digits of `n`, zero-padded on the left.
pub open spec fn spec_padded(n: nat, width: nat) -> Seq<char>
    decreases width,
{
    if width == 0 {
        Seq::empty()
    } else {
        spec_padded(n / 10, (width - 1) as nat) + spec_digit(n % 10)
    }
}

/// Powers of ten.
pub open spec fn spec_pow10(k: nat) -> nat
    decreases k,
{
    if k == 0 {
        1
    } else {
        10 * spec_pow10((k - 1) as nat)
    }
}

/// A fixed-point amount shown with `decimals` decimal places: the whole
/// part, a point, and the first `decimals` fractional digits (truncated).
pub open spec fn spec_units_rep(units: nat, decimals: nat) -> Seq<char>
    recommends
        1 <= decimals <= 8,
{
    spec_dec_rep(units / (SCALE as nat)) + "."@ + spec_padded(
        (units % (SCALE as nat)) / spec_pow10((8 - decimals) as nat),
        decimals,
    )
}

/// A percentage with `decimals` decimal places for the fraction
/// `num / den`, scaled by one hundred and truncated toward zero.  A zero
/// denominator renders as an infinity or as `NaN`, the way a float would.
pub open spec fn spec_percent_rep(num: int, den: nat, decimals: nat) -> Seq<char>
    recommends
        1 <= decimals <= 8,
{
    if den == 0 {
        if num > 0 {
            "inf"@
        } else if num < 0 {
            "-inf"@
        } else {
            "NaN"@
        }
    } else {
        let mag = ((100 * spec_pow10(decimals) * (if num < 0 {
            -num
        } else {
            num
        })) / den as int) as nat;
        (if num < 0 {
            "-"@
        } else {
            Seq::<char>::empty()
        }) + spec_dec_rep(mag / spec_pow10(decimals)) + "."@ + spec_padded(
            mag % spec_pow10(decimals),
            decimals,
        )
    }
}

/// The one-character string for a decimal digit.
fn digit_str(d: u128) -> (r: &'static str)
    requires
        d < 10,
    ensures
        r@ == spec_digit(d as nat),
{
    match d {
        0 => "0",
        1 => "1",
        2 => "2",
        3 => "3",
        4 => "4",
        5 => "5",
        6 => "6",
        7 => "7",
        8 => "8",
        _ => "9",
    }
}

/// Renders a natural number in decimal.
pub fn u128_to_string(n: u128) -> (s: String)
    ensures
        s@ == spec_dec_rep(n as nat),
    decreases n,
{
    if n < 10 {
        String::from_str(digit_str(n))
    } else {
        let mut s = u128_to_string(n / 10);
        s.append(digit_str(n % 10));
        s
    }
}

/// Renders the last `width` digits of a number, zero-padded.
pub fn padded_string(n: u128, width: usize) -> (s: String)
    ensures
        s@ == spec_padded(n as nat, width as nat),
    decreases width,
{
    if width == 0 {
        String::new()
    } else {
        let mut s = padded_string(n / 10, width - 1);
        s.append(digit_str(n % 10));
        s
    }
}

/// A small power of ten.
pub fn pow10_u64(k: usize) -> (r: u64)
    requires
        k <= 8,
    ensures
        r == spec_pow10(k as nat),
        r >= 1,
{
    proof {
        reveal_with_fuel(spec_pow10, 10);
    }
    match k {
        0 => 1,
        1 => 10,
        2 => 100,
        3 => 1000,
        4 => 10000,
        5 => 100000,
        6 => 1000000,
        7 => 10000000,
        _ => 100000000,
    }
}

/// Renders a fixed-point amount with the given number of decimal places.
pub fn format_units(units: u128, decimals: usize) -> (s: String)
    requires
        1 <= decimals <= 8,
    ensures
        s@ == spec_units_rep(units as nat, decimals as nat),
{
    let mut s = u128_to_string(units / (SCALE as u128));
    s.append(".");
    let frac = units % (SCALE as u128);
    let divisor = pow10_u64(8 - decimals);
    let shown = frac / (divisor as u128);
    let tail = padded_string(shown, decimals);
    s.append(tail.as_str());
    s
}

/// Renders `num / den` as a percentage with the given number of decimal
/// places, truncated toward zero.
pub fn percent_string(num: i128, den: u64, decimals: usize) -> (s: String)
    requires
        1 <= decimals <= 8,
        -0x1_0000_0000_0000_0000 < num < 0x1_0000_0000_0000_0000,
    ensures
        s@ == spec_percent_rep(num as int, den as nat, decimals as nat),
{
    if den == 0 {
        if num > 0 {
            String::from_str("inf")
        } else if num < 0 {
            String::from_str("-inf")
        } else {
            String::from_str("NaN")
        }
    } else {
        let scale = pow10_u64(decimals);
        let mag_num: u128 = if num < 0 {
            (-num) as u128
        } else {
            num as u128
        };
        proof {
            assert(spec_pow10(decimals as nat) <= 100000000) by {
                reveal_with_fuel(spec_pow10, 10);
            }
            assert((100 * (scale as int)) * (mag_num as int) <= 100 * 100000000
                * 0x1_0000_0000_0000_0000) by (nonlinear_arith)
                requires
                    scale <= 100000000,
                    mag_num <= 0x1_0000_0000_0000_0000,
            ;
        }
        let mag = (100u128 * (scale as u128)) * mag_num / (den as u128);
        let mut s = if num < 0 {
            String::from_str("-")
        } else {
            String::new()
        };
        let whole = u128_to_string(mag / (scale as u128));
        s.append(whole.as_str());
        s.append(".");
        let tail = padded_string(mag % (scale as u128), decimals);
        s.append(tail.as_str());
        s
    }
}

} // verus!
