//! Reports and notification texts for the chat sidecar.  The library only
//! builds the text; sending it is the caller's business.

use vstd::prelude::*;
use vstd::string::{StrSliceExecFns, StringExecFns};

use crate::balance::{Balance, BalanceEntry};
use crate::gain::{Gain, calculate_gain, spec_gain, spec_gain_wf};
use crate::orders::OrderRecord;
use crate::position::{Position, get_my_position, spec_btc_value, spec_eth_value, spec_position};
use crate::prices::PriceCache;
use crate::render::{format_units, percent_string, spec_percent_rep, spec_units_rep};
use crate::util::str_equal;

verus! {

/// The EUR value shown for one balance entry: only the two traded assets
/// are valued, and a missing price slot counts as zero.
pub open spec fn spec_entry_value(e: BalanceEntry, cache: PriceCache) -> u128 {
    if e.asset@ == "XETH"@ {
        match spec_eth_value(cache, e.amount) {
            Some(v) => v,
            None => 0,
        }
    } else if e.asset@ == "XXBT"@ {
        match spec_btc_value(cache, e.amount) {
            Some(v) => v,
            None => 0,
        }
    } else {
        0
    }
}

/// One line of the balance table: the symbol cut or padded to five
/// characters, its EUR value to two decimals, and the raw amount to four.
pub open spec fn spec_balance_line(e: BalanceEntry, cache: PriceCache) -> Seq<char> {
    "\n"@ + (e.asset@ + "     "@).subrange(0, 5) + ":  \t"@ + spec_units_rep(
        spec_entry_value(e, cache) as nat,
        2,
    ) + "\u{20ac} \t("@ + spec_units_rep(e.amount as nat, 4) + ")"@
}

/// The table lines for a snapshot, in entry order.
pub open spec fn spec_balance_lines(entries: Seq<BalanceEntry>, cache: PriceCache) -> Seq<char>
    decreases entries.len(),
{
    if entries.len() == 0 {
        Seq::empty()
    } else {
        spec_balance_lines(entries.drop_last(), cache) + spec_balance_line(entries.last(), cache)
    }
}

/// The whole balance report, fenced for the chat sidecar.
pub open spec fn spec_balance_report(entries: Seq<BalanceEntry>, cache: PriceCache) -> Seq<char> {
    "```"@ + spec_balance_lines(entries, cache) + "\n```"@
}

/// The EUR value shown for one balance entry.
fn entry_value(e: &BalanceEntry, cache: &PriceCache) -> (v: u128)
    ensures
        v == spec_entry_value(*e, *cache),
{
    if str_equal(e.asset.as_str(), "XETH") {
        match crate::position::get_eth_value(cache, e.amount) {
            Some(v) => v,
            None => 0,
        }
    } else if str_equal(e.asset.as_str(), "XXBT") {
        match crate::position::get_btc_value(cache, e.amount) {
            Some(v) => v,
            None => 0,
        }
    } else {
        0
    }
}

/// Builds the per-asset quote-value table for a balance snapshot.
pub fn generate_balance_string(balance: &Balance, cache: &PriceCache) -> (s: String)
    ensures
        s@ == spec_balance_report(balance.entries@, *cache),
{
    let mut out = String::from_str("```");
    let mut i: usize = 0;
    while i < balance.entries.len()
        invariant
            0 <= i <= balance.entries@.len(),
            out@ == "```"@ + spec_balance_lines(balance.entries@.take(i as int), *cache),
        decreases balance.entries@.len() - i,
    {
        let e = &balance.entries[i];
        out.append("\n");
        let mut key = e.asset.clone();
        key.append("     ");
        proof {
            reveal_strlit("     ");
        }
        let key5 = key.as_str().substring_char(0, 5);
        out.append(key5);
        out.append(":  \t");
        let eur = entry_value(e, cache);
        let eur_text = format_units(eur, 2);
        out.append(eur_text.as_str());
        out.append("\u{20ac} \t(");
        let amount_text = format_units(e.amount as u128, 4);
        out.append(amount_text.as_str());
        out.append(")");
        proof {
            assert(balance.entries@.take(i + 1).drop_last() =~= balance.entries@.take(i as int));
            assert(balance.entries@.take(i + 1).last() == balance.entries@[i as int]);
            assert(out@ =~= "```"@ + spec_balance_lines(balance.entries@.take(i + 1), *cache));
        }
        i += 1;
    }
    proof {
        assert(balance.entries@.take(balance.entries@.len() as int) =~= balance.entries@);
    }
    out.append("\n```");
    proof {
        assert(out@ =~= spec_balance_report(balance.entries@, *cache));
    }
    out
}

/// The status report: either a descriptive failure, or the three prices
/// and the current gain as a fenced block with a green or red marker.
pub open spec fn spec_price_report(
    entries: Seq<BalanceEntry>,
    cache: PriceCache,
    record: OrderRecord,
) -> Seq<char> {
    match spec_gain(spec_position(entries, cache), record, cache.eth_btc) {
        None => "Error calculating gain!"@,
        Some(g) => match (cache.btc_eur, cache.eth_eur, cache.eth_btc) {
            (Some(btc), Some(eth), Some(cross)) => "```\nRELATIVE: "@ + spec_units_rep(
                cross as nat,
                5,
            ) + "\nXXBT:\t\t"@ + spec_units_rep(btc as nat, 2) + "\nXETH:\t\t"@ + spec_units_rep(
                eth as nat,
                2,
            ) + "\nGAIN:\t\t"@ + spec_percent_rep(g.num as int, g.den as nat, 2) + "% "@ + (if g.num
                > 0 {
                "\u{1f7e2}"@
            } else {
                "\u{1f534}"@
            }) + "\n```"@,
            _ => "Price cache is not complete yet!"@,
        },
    }
}

/// Builds the status report from one consistent snapshot of balance,
/// prices and order record.  Fails descriptively, never abruptly, when a
/// price is unset or the gain is undefined.
pub fn generate_price_string(balance: &Balance, cache: &PriceCache, record: &OrderRecord) -> (s:
    String)
    ensures
        s@ == spec_price_report(balance.entries@, *cache, *record),
{
    let position = get_my_position(balance, cache);
    let gain = match calculate_gain(&position, record, cache) {
        Some(g) => g,
        None => {
            return String::from_str("Error calculating gain!");
        },
    };
    let (btc, eth, cross) = match (cache.btc_eur, cache.eth_eur, cache.eth_btc) {
        (Some(b), Some(e), Some(c)) => (b, e, c),
        _ => {
            return String::from_str("Price cache is not complete yet!");
        },
    };
    let mut out = String::from_str("```\nRELATIVE: ");
    let cross_text = format_units(cross as u128, 5);
    out.append(cross_text.as_str());
    out.append("\nXXBT:\t\t");
    let btc_text = format_units(btc as u128, 2);
    out.append(btc_text.as_str());
    out.append("\nXETH:\t\t");
    let eth_text = format_units(eth as u128, 2);
    out.append(eth_text.as_str());
    out.append("\nGAIN:\t\t");
    let gain_text = percent_string(gain.num, gain.den, 2);
    out.append(gain_text.as_str());
    out.append("% ");
    if gain.num > 0 {
        out.append("\u{1f7e2}");
    } else {
        out.append("\u{1f534}");
    }
    out.append("\n```");
    proof {
        assert(out@ =~= spec_price_report(balance.entries@, *cache, *record));
    }
    out
}

/// The name a position is reported under.
pub open spec fn spec_position_name(p: Position) -> Seq<char> {
    match p {
        Position::Btc => "Btc"@,
        Position::Eth => "Eth"@,
        Position::Flat => "None"@,
    }
}

/// The position a successful rotation moves into.
pub open spec fn spec_other_position(p: Position) -> Position {
    match p {
        Position::Btc => Position::Eth,
        Position::Eth => Position::Btc,
        Position::Flat => Position::Flat,
    }
}

/// The trade summary attached to the order-placed notification.
pub open spec fn spec_order_placed_summary(
    price: u64,
    g: Gain,
    position: Position,
    volume: u128,
) -> Seq<char> {
    "Summary: \u{1f4c2}\n```\nPRICE: "@ + spec_units_rep(price as nat, 5) + "\nGAIN: "@
        + spec_percent_rep(g.num as int, g.den as nat, 3) + "%\nPOSITION: "@ + spec_position_name(
        position,
    ) + " -> "@ + spec_position_name(spec_other_position(position)) + "\nVOLUME: "@
        + spec_units_rep(volume as nat, 5) + "\n```"@
}

/// Builds the trade summary for the order-placed notification: the limit
/// price, the gain that triggered the rotation, the rotation's direction
/// and its volume.
pub fn order_placed_summary(price: u64, gain: &Gain, position: &Position, volume: u128) -> (s:
    String)
    requires
        spec_gain_wf(*gain),
    ensures
        s@ == spec_order_placed_summary(price, *gain, *position, volume),
{
    let mut out = String::from_str("Summary: \u{1f4c2}\n```\nPRICE: ");
    let price_text = format_units(price as u128, 5);
    out.append(price_text.as_str());
    out.append("\nGAIN: ");
    let gain_text = percent_string(gain.num, gain.den, 3);
    out.append(gain_text.as_str());
    out.append("%\nPOSITION: ");
    out.append(position_name(position));
    out.append(" -> ");
    out.append(position_name(&other_position(position)));
    out.append("\nVOLUME: ");
    let volume_text = format_units(volume, 5);
    out.append(volume_text.as_str());
    out.append("\n```");
    proof {
        assert(out@ =~= spec_order_placed_summary(price, *gain, *position, volume));
    }
    out
}

/// The name a position is reported under.
fn position_name(p: &Position) -> (r: &'static str)
    ensures
        r@ == spec_position_name(*p),
{
    match p {
        Position::Btc => "Btc",
        Position::Eth => "Eth",
        Position::Flat => "None",
    }
}

/// The position a successful rotation moves into.
fn other_position(p: &Position) -> (r: Position)
    ensures
        r == spec_other_position(*p),
{
    match p {
        Position::Btc => Position::Eth,
        Position::Eth => Position::Btc,
        Position::Flat => Position::Flat,
    }
}

/// The fill notification sent when a pending order is observed complete.
pub fn notify_order_completed_telegram() -> (s: String)
    ensures
        s@ == "Last order seems to have been filled \u{1f389}\u{1f4b0}"@,
{
    String::from_str("Last order seems to have been filled \u{1f389}\u{1f4b0}")
}

/// The notification sent when the exchange stream closes.
pub fn notify_stream_close() -> (s: String)
    ensures
        s@ == "Stream closed from Kraken! Will try to reconnect in 5mins."@,
{
    String::from_str("Stream closed from Kraken! Will try to reconnect in 5mins.")
}

} // verus!
