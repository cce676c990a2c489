//! The gain evaluator: the signed ratio between the current cross rate and
//! the price recorded at the last completed order.

use vstd::prelude::*;

use crate::orders::OrderRecord;
use crate::position::Position;
use crate::prices::PriceCache;

verus! {

/// A signed gain ratio kept exact as a fraction: the gain is `num / den`,
/// where `den` is the reference price of the last completed order.  The
/// strategy compares such fractions against thresholds by
/// cross-multiplication, so the quotient itself is never computed.
#[derive(Clone, Copy, PartialEq, Eq, Structural, Debug)]
pub struct Gain {
    pub num: i128,
    pub den: u64,
}

/// The numerator is a difference of two prices, so it stays strictly
/// between `-2^64` and `2^64`; threshold comparisons then cannot overflow.
pub open spec fn spec_gain_wf(g: Gain) -> bool {
    -0x1_0000_0000_0000_0000 < g.num < 0x1_0000_0000_0000_0000
}

/// The gain rule: defined only when the last order has completed, a
/// position is held and the cross rate is known.  The raw ratio is
/// `cross / reference - 1`, i.e. `(cross - reference) / reference`; holding
/// BTC negates it, because a falling cross rate favors the BTC holder.
pub open spec fn spec_gain(position: Position, record: OrderRecord, cross: Option<u64>) -> Option<
    Gain,
> {
    if !record.completed {
        None
    } else {
        match position {
            Position::Flat => None,
            _ => match cross {
                None => None,
                Some(c) => Some(
                    Gain {
                        num: if position is Btc {
                            (record.price - c) as i128
                        } else {
                            (c - record.price) as i128
                        },
                        den: record.price,
                    },
                ),
            },
        }
    }
}

/// Evaluates the gain since the last completed order, or nothing when any
/// precondition is unmet — callers must distinguish "no opportunity" from
/// "zero gain".
pub fn calculate_gain(position: &Position, record: &OrderRecord, cache: &PriceCache) -> (r: Option<
    Gain,
>)
    ensures
        r == spec_gain(*position, *record, cache.eth_btc),
        !record.completed ==> r is None,
        *position is Flat ==> r is None,
        r matches Some(g) ==> spec_gain_wf(g) && g.den == record.price,
{
    let (last_value, last_completed) = (record.price, record.completed);
    if !last_completed {
        return None;
    }
    if let Position::Flat = position {
        return None;
    }
    let current_value = match cache.eth_btc {
        Some(val) => val,
        None => {
            return None;
        },
    };
    let diff: i128 = match position {
        Position::Btc => (last_value as i128) - (current_value as i128),
        _ => (current_value as i128) - (last_value as i128),
    };
    Some(Gain { num: diff, den: last_value })
}

} // verus!
