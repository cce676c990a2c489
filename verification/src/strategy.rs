//! The hop strategy: asset-specific gain thresholds, and construction of
//! the limit order that rotates the whole holding.

use vstd::prelude::*;
use vstd::string::StringExecFns;

use crate::balance::{Balance, spec_balance_get};
use crate::gain::{Gain, spec_gain_wf};
use crate::position::Position;
use crate::prices::PriceCache;
use crate::units::{SCALE, round_to_precision, spec_round_to_precision};

verus! {

/// Which side of the cross pair the rotation order takes.
#[derive(Clone, Copy, PartialEq, Eq, Structural, Debug)]
pub enum OrderSide {
    Buy,
    Sell,
}

/// The parameters of a rotation order, built fresh each tick and never
/// persisted.  Volume and price are fixed-point units.
pub struct HopOrder {
    pub side: OrderSide,
    pub pair: String,
    pub volume: u128,
    pub price: u64,
}

/// Why no order could be built.
#[derive(Clone, Copy, PartialEq, Eq, Structural, Debug)]
pub enum HopError {
    /// No position is held, so there is nothing to rotate.
    NoPosition,
    /// The balance snapshot has no entry for the held asset.
    MissingBalance,
    /// The cross rate is unset, zero, or too large to round.
    NoPrice,
}

/// Rotate out of BTC when the gain exceeds two percent.
pub const BTC_EXIT_THRESHOLD_PERCENT: u64 = 2;

/// Rotate out of ETH only when the gain exceeds five percent; the asymmetry
/// encodes a round-trip cost bias toward holding ETH.
pub const ETH_EXIT_THRESHOLD_PERCENT: u64 = 5;

/// Whether the fraction `g.num / g.den` exceeds `percent / 100`, compared
/// by cross-multiplication so that no rounding intervenes.
pub open spec fn spec_gain_exceeds_percent(g: Gain, percent: u64) -> bool {
    g.num * 100 > percent * g.den
}

/// The decision rule: leave BTC above the two-percent threshold, leave ETH
/// above the five-percent threshold, and never rotate out of no position.
pub open spec fn spec_should_hop(position: Position, g: Gain) -> bool {
    match position {
        Position::Btc => spec_gain_exceeds_percent(g, BTC_EXIT_THRESHOLD_PERCENT),
        Position::Eth => spec_gain_exceeds_percent(g, ETH_EXIT_THRESHOLD_PERCENT),
        Position::Flat => false,
    }
}

/// Applies the threshold rule to the evaluated gain.  Law: no decision is
/// ever produced while no position is held.
pub fn should_hop(position: &Position, gain: &Gain) -> (r: bool)
    requires
        spec_gain_wf(*gain),
    ensures
        r == spec_should_hop(*position, *gain),
        *position is Flat ==> !r,
{
    match position {
        Position::Btc => gain.num * 100 > 2i128 * (gain.den as i128),
        Position::Eth => gain.num * 100 > 5i128 * (gain.den as i128),
        Position::Flat => false,
    }
}

/// The order volume in cross-pair terms: a BTC holding is converted through
/// the cross rate (`volume / cross`, carried out in fixed-point units), an
/// ETH holding is used directly, and no position yields no volume.
pub open spec fn spec_converted_volume(position: Position, volume: u64, cache: PriceCache) -> u128
    recommends
        position is Btc ==> cache.eth_btc is Some && cache.eth_btc.unwrap() > 0,
{
    match position {
        Position::Btc => ((volume * SCALE) / (cache.eth_btc.unwrap() as int)) as u128,
        Position::Eth => volume as u128,
        Position::Flat => 0,
    }
}

/// Converts a held amount into the volume the rotation order should carry.
pub fn converted_volume(position: &Position, volume: u64, cache: &PriceCache) -> (r: u128)
    requires
        *position is Btc ==> cache.eth_btc is Some && cache.eth_btc.unwrap() > 0,
    ensures
        r == spec_converted_volume(*position, volume, *cache),
{
    match position {
        Position::Btc => {
            let c = cache.eth_btc.unwrap();
            proof {
                assert((volume as int) * (SCALE as int) <= u64::MAX * SCALE) by (nonlinear_arith)
                    requires
                        volume <= u64::MAX,
                ;
            }
            (volume as u128) * (SCALE as u128) / (c as u128)
        },
        Position::Eth => volume as u128,
        Position::Flat => 0,
    }
}

/// The exchange symbol whose balance funds the rotation.
pub open spec fn spec_hop_asset_key(position: Position) -> Seq<char>
    recommends
        !(position is Flat),
{
    if position is Btc {
        "XXBT"@
    } else {
        "XETH"@
    }
}

/// Leaving BTC buys the cross pair; leaving ETH sells it.
pub open spec fn spec_hop_side(position: Position) -> OrderSide
    recommends
        !(position is Flat),
{
    if position is Btc {
        OrderSide::Buy
    } else {
        OrderSide::Sell
    }
}

/// A cross rate that can actually price an order: nonzero, and small enough
/// to round to the five-decimal tick.
pub open spec fn spec_price_ok(c: u64) -> bool {
    0 < c && c + 500 <= u64::MAX
}

/// The cross-rate slot holds a usable price.
pub open spec fn spec_cross_ok(cache: PriceCache) -> bool {
    match cache.eth_btc {
        Some(c) => spec_price_ok(c),
        None => false,
    }
}

/// Builds the rotation order for the held position: side, pair, full-balance
/// volume and the cross rate rounded to the exchange tick.  Each error names
/// exactly the precondition that failed, checked in this order: position,
/// balance entry, price.
pub fn build_hop_order(position: &Position, balance: &Balance, cache: &PriceCache) -> (r: Result<
    HopOrder,
    HopError,
>)
    ensures
        (*position is Flat) <==> r == Err::<HopOrder, HopError>(HopError::NoPosition),
        (!(*position is Flat) && spec_balance_get(balance.entries@, spec_hop_asset_key(*position))
            is None) <==> r == Err::<HopOrder, HopError>(HopError::MissingBalance),
        (!(*position is Flat) && spec_balance_get(balance.entries@, spec_hop_asset_key(*position))
            is Some && !spec_cross_ok(*cache)) <==> r == Err::<HopOrder, HopError>(
            HopError::NoPrice,
        ),
        r is Ok <==> (!(*position is Flat) && spec_balance_get(
            balance.entries@,
            spec_hop_asset_key(*position),
        ) is Some && spec_cross_ok(*cache)),
        r matches Ok(o) ==> {
            &&& o.side == spec_hop_side(*position)
            &&& o.pair@ == "ETH/BTC"@
            &&& o.price == spec_round_to_precision(cache.eth_btc.unwrap() as int)
            &&& o.volume == spec_converted_volume(
                *position,
                spec_balance_get(balance.entries@, spec_hop_asset_key(*position)).unwrap(),
                *cache,
            )
        },
{
    let side = match position {
        Position::Btc => OrderSide::Buy,
        Position::Eth => OrderSide::Sell,
        Position::Flat => {
            return Err(HopError::NoPosition);
        },
    };
    let volume_option = match position {
        Position::Btc => balance.get("XXBT"),
        _ => balance.get("XETH"),
    };
    let base_volume = match volume_option {
        Some(v) => v,
        None => {
            return Err(HopError::MissingBalance);
        },
    };
    let cross = match cache.eth_btc {
        Some(c) => c,
        None => {
            return Err(HopError::NoPrice);
        },
    };
    if cross == 0 || cross > u64::MAX - 500 {
        return Err(HopError::NoPrice);
    }
    let volume = converted_volume(position, base_volume, cache);
    let price = round_to_precision(cross);
    Ok(HopOrder { side, pair: String::from_str("ETH/BTC"), volume, price })
}

} // verus!
