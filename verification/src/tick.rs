//! The per-tick decisions of the control loop: resolving a pending order
//! from a poll of open orders, and the price-driven hop decision.

use vstd::prelude::*;

use crate::balance::{Balance, BalanceEntry, spec_balance_get};
use crate::gain::{Gain, calculate_gain, spec_gain};
use crate::orders::{OrderRecord, OrderTracker};
use crate::position::{
    get_my_position, spec_btc_classification_value, spec_eth_classification_value, spec_position,
};
use crate::prices::PriceCache;
use crate::strategy::{
    HopError, HopOrder, build_hop_order, should_hop, spec_converted_volume, spec_cross_ok,
    spec_hop_asset_key, spec_hop_side, spec_should_hop,
};
use crate::units::spec_round_to_precision;

verus! {

/// Nominal tick interval of the inner loop, in milliseconds.
pub const NOMINAL_TICK_MILLIS: u64 = 5000;

/// Slower interval used while an order is resolving, to reduce polling
/// pressure on the exchange.
pub const RESOLUTION_TICK_MILLIS: u64 = 30000;

/// The sleep before the next tick: slow while waiting on order resolution,
/// nominal otherwise.
pub fn tick_interval_millis(waiting_order_resolution: bool) -> (r: u64)
    ensures
        r == if waiting_order_resolution {
            RESOLUTION_TICK_MILLIS as int
        } else {
            NOMINAL_TICK_MILLIS as int
        },
{
    if waiting_order_resolution {
        RESOLUTION_TICK_MILLIS
    } else {
        NOMINAL_TICK_MILLIS
    }
}

/// What a poll of open orders did to the pending order.
#[derive(Clone, Copy, PartialEq, Eq, Structural, Debug)]
pub enum PollOutcome {
    /// The exchange reported no open orders: the pending order has filled.
    Filled,
    /// Orders are still open; keep waiting.
    StillOpen,
    /// The poll itself failed; state is unchanged and the poll retried next
    /// tick.
    PollFailed,
}

/// Advances the tracker from a poll of open orders, made while the current
/// order is pending.  Only an empty open-order list completes the order;
/// a failed poll changes nothing.
pub fn resolve_pending_order(tracker: &mut OrderTracker, open_orders: Option<usize>) -> (r:
    PollOutcome)
    ensures
        open_orders == Some(0usize) ==> {
            &&& r == PollOutcome::Filled
            &&& final(tracker).last_order == (OrderRecord {
                price: old(tracker).last_order.price,
                completed: true,
            })
            &&& final(tracker).last_completed_order == final(tracker).last_order
        },
        (open_orders matches Some(n) && n > 0) ==> {
            &&& r == PollOutcome::StillOpen
            &&& *final(tracker) == *old(tracker)
        },
        open_orders is None ==> {
            &&& r == PollOutcome::PollFailed
            &&& *final(tracker) == *old(tracker)
        },
{
    match open_orders {
        Some(n) => {
            if n == 0 {
                tracker.complete_last_order();
                PollOutcome::Filled
            } else {
                PollOutcome::StillOpen
            }
        },
        None => PollOutcome::PollFailed,
    }
}

/// What one idle tick decided.
pub enum TickDecision {
    /// No rotation this tick.
    Hold,
    /// Submit this rotation order.
    Hop(HopOrder),
}

/// Why the tick could not reach a decision; the control loop treats both as
/// fatal, as the strategy has no baseline or price to work from.
#[derive(Clone, Copy, PartialEq, Eq, Structural, Debug)]
pub enum TickError {
    /// The gain is undefined: the last order is incomplete, no position is
    /// held, or the cross rate is unset.
    GainUnavailable,
    /// A rotation was due but the order could not be built.
    OrderBuild(HopError),
}

/// The gain the tick evaluates: the gain of the classified position against
/// the current record at the cached cross rate.
pub open spec fn spec_tick_gain(
    entries: Seq<BalanceEntry>,
    cache: PriceCache,
    record: OrderRecord,
) -> Option<Gain> {
    spec_gain(spec_position(entries, cache), record, cache.eth_btc)
}

/// A classified holding always has a balance entry: a position is only
/// assigned to an asset whose EUR value, and hence whose held amount, is
/// strictly positive.
pub proof fn lemma_position_implies_balance_entry(entries: Seq<BalanceEntry>, cache: PriceCache)
    ensures
        spec_position(entries, cache) is Btc ==> spec_balance_get(entries, "XXBT"@) is Some,
        spec_position(entries, cache) is Eth ==> spec_balance_get(entries, "XETH"@) is Some,
{
    if spec_position(entries, cache) is Btc {
        assert(spec_btc_classification_value(entries, cache) > 0);
        if spec_balance_get(entries, "XXBT"@) is None {
            assert(spec_btc_classification_value(entries, cache) == 0);
        }
    }
    if spec_position(entries, cache) is Eth {
        assert(spec_eth_classification_value(entries, cache) > 0);
        if spec_balance_get(entries, "XETH"@) is None {
            assert(spec_eth_classification_value(entries, cache) == 0);
        }
    }
}

/// One idle tick's decision phase: classify the position, evaluate the
/// gain, apply the thresholds, and build the rotation order if one is due.
/// All reads come from the single balance and price snapshot passed in, so
/// the whole decision observes one consistent state.
pub fn decide_tick(balance: &Balance, cache: &PriceCache, tracker: &OrderTracker) -> (r: Result<
    TickDecision,
    TickError,
>)
    ensures
        r == Err::<TickDecision, TickError>(TickError::GainUnavailable) <==> spec_tick_gain(
            balance.entries@,
            *cache,
            tracker.last_order,
        ) is None,
        !tracker.last_order.completed ==> r is Err,
        spec_position(balance.entries@, *cache) is Flat ==> r is Err,
        r != Err::<TickDecision, TickError>(TickError::OrderBuild(HopError::NoPosition)),
        r != Err::<TickDecision, TickError>(TickError::OrderBuild(HopError::MissingBalance)),
        spec_tick_gain(balance.entries@, *cache, tracker.last_order) matches Some(g) ==> {
            let position = spec_position(balance.entries@, *cache);
            &&& (!spec_should_hop(position, g) <==> r matches Ok(TickDecision::Hold))
            &&& (spec_should_hop(position, g) && !spec_cross_ok(*cache)) ==> r == Err::<
                TickDecision,
                TickError,
            >(TickError::OrderBuild(HopError::NoPrice))
            &&& (spec_should_hop(position, g) && spec_cross_ok(*cache)) ==> (r matches Ok(
                TickDecision::Hop(o),
            ) && {
                &&& o.side == spec_hop_side(position)
                &&& o.pair@ == "ETH/BTC"@
                &&& o.price == spec_round_to_precision(cache.eth_btc.unwrap() as int)
                &&& o.volume == spec_converted_volume(
                    position,
                    spec_balance_get(balance.entries@, spec_hop_asset_key(position)).unwrap(),
                    *cache,
                )
            })
        },
{
    let position = get_my_position(balance, cache);
    let gain = match calculate_gain(&position, &tracker.last_order, cache) {
        Some(g) => g,
        None => {
            return Err(TickError::GainUnavailable);
        },
    };
    proof {
        lemma_position_implies_balance_entry(balance.entries@, *cache);
    }
    if should_hop(&position, &gain) {
        match build_hop_order(&position, balance, cache) {
            Ok(o) => Ok(TickDecision::Hop(o)),
            Err(e) => Err(TickError::OrderBuild(e)),
        }
    } else {
        Ok(TickDecision::Hold)
    }
}

} // verus!
