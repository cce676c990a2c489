//! The position classifier: which of the two assets the account is
//! effectively holding, judged by quote-currency value.

use vstd::prelude::*;

use crate::balance::{Balance, BalanceEntry, spec_amount};
use crate::prices::PriceCache;
use crate::units::{quote_value, spec_value};

verus! {

/// The discrete holding derived each tick from the balance snapshot and the
/// price cache; never stored.
#[derive(Clone, Copy, PartialEq, Eq, Structural, Debug)]
pub enum Position {
    Btc,
    Eth,
    Flat,
}

/// The EUR value of a held BTC amount, unknown until the BTC price slot is
/// set.
pub open spec fn spec_btc_value(cache: PriceCache, amount: u64) -> Option<u128> {
    match cache.btc_eur {
        Some(p) => Some(spec_value(amount, p)),
        None => None,
    }
}

/// The EUR value of a held ETH amount, unknown until the ETH price slot is
/// set.
pub open spec fn spec_eth_value(cache: PriceCache, amount: u64) -> Option<u128> {
    match cache.eth_eur {
        Some(p) => Some(spec_value(amount, p)),
        None => None,
    }
}

/// Values a BTC amount in EUR at the cached price.
pub fn get_btc_value(cache: &PriceCache, amount: u64) -> (r: Option<u128>)
    ensures
        r == spec_btc_value(*cache, amount),
{
    match cache.btc_eur {
        Some(p) => Some(quote_value(amount, p)),
        None => None,
    }
}

/// Values an ETH amount in EUR at the cached price.
pub fn get_eth_value(cache: &PriceCache, amount: u64) -> (r: Option<u128>)
    ensures
        r == spec_eth_value(*cache, amount),
{
    match cache.eth_eur {
        Some(p) => Some(quote_value(amount, p)),
        None => None,
    }
}

/// The EUR value used for classification: zero when the amount is absent or
/// the price slot is unset, so partial price data never blocks a tick.
pub open spec fn spec_btc_classification_value(entries: Seq<BalanceEntry>, cache: PriceCache) -> u128 {
    match spec_btc_value(cache, spec_amount(entries, "XXBT"@)) {
        Some(v) => v,
        None => 0,
    }
}

/// ETH counterpart of `spec_btc_classification_value`.
pub open spec fn spec_eth_classification_value(entries: Seq<BalanceEntry>, cache: PriceCache) -> u128 {
    match spec_eth_value(cache, spec_amount(entries, "XETH"@)) {
        Some(v) => v,
        None => 0,
    }
}

/// The classification rule: no position when both values are zero,
/// otherwise the asset with the larger EUR value, ties favoring ETH.
pub open spec fn spec_position(entries: Seq<BalanceEntry>, cache: PriceCache) -> Position {
    let btc_eur = spec_btc_classification_value(entries, cache);
    let eth_eur = spec_eth_classification_value(entries, cache);
    if btc_eur == 0 && eth_eur == 0 {
        Position::Flat
    } else if btc_eur > eth_eur {
        Position::Btc
    } else {
        Position::Eth
    }
}

/// Classifies the account's position from the balance snapshot and the
/// price cache.
pub fn get_my_position(balance: &Balance, cache: &PriceCache) -> (r: Position)
    ensures
        r == spec_position(balance.entries@, *cache),
{
    let btc_amount = balance.amount_of("XXBT");
    let eth_amount = balance.amount_of("XETH");
    let btc_eur = match get_btc_value(cache, btc_amount) {
        Some(v) => v,
        None => 0,
    };
    let eth_eur = match get_eth_value(cache, eth_amount) {
        Some(v) => v,
        None => 0,
    };
    if btc_eur == 0 && eth_eur == 0 {
        Position::Flat
    } else if btc_eur > eth_eur {
        Position::Btc
    } else {
        Position::Eth
    }
}

/// Law: classification is idempotent.  Any two classifications of the same
/// balance snapshot and price cache agree, since each equals the
/// classification rule's value.
pub proof fn lemma_position_classification_idempotent(
    entries: Seq<BalanceEntry>,
    cache: PriceCache,
    r1: Position,
    r2: Position,
)
    requires
        r1 == spec_position(entries, cache),
        r2 == spec_position(entries, cache),
    ensures
        r1 == r2,
{
}

} // verus!
