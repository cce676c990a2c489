use hopbot::balance::Balance;
use hopbot::gain::Gain;
use hopbot::orders::OrderRecord;
use hopbot::persist::{decode_record, encode_record, RECORD_BYTES};
use hopbot::position::Position;
use hopbot::prices::{mid_price, update_price, update_prices, Book, PriceCache, PriceError};
use hopbot::render::{format_units, percent_string, u128_to_string};
use hopbot::report::{
    generate_balance_string, generate_price_string, notify_order_completed_telegram,
    notify_stream_close, order_placed_summary,
};
use hopbot::units::{round_to_precision, SCALE};

fn units(whole: u64, frac8: u64) -> u64 {
    whole * SCALE + frac8
}

#[test]
fn mid_price_is_average_of_best_ask_and_best_bid() {
    let asks = vec![units(20010, 0), units(20030, 0), units(20020, 0)];
    let bids = vec![units(19990, 0), units(19980, 0)];
    assert_eq!(mid_price(&asks, &bids), units(20000, 0));
}

#[test]
fn mid_price_ignores_ordering() {
    let asks1 = vec![units(13, 40_000_000), units(13, 35_000_000), units(13, 50_000_000)];
    let asks2 = vec![units(13, 50_000_000), units(13, 40_000_000), units(13, 35_000_000)];
    let bids1 = vec![units(13, 20_000_000), units(13, 25_000_000)];
    let bids2 = vec![units(13, 25_000_000), units(13, 20_000_000)];
    let first = mid_price(&asks1, &bids1);
    let second = mid_price(&asks2, &bids2);
    assert_eq!(first, second);
    assert_eq!(first, units(13, 30_000_000));
}

#[test]
fn update_price_writes_only_its_slot() {
    let mut cache = PriceCache::empty();
    update_price(&mut cache, "ETH/XBT", units(13, 30_000_000));
    assert_eq!(cache.eth_btc, Some(units(13, 30_000_000)));
    assert_eq!(cache.eth_eur, None);
    assert_eq!(cache.btc_eur, None);
    update_price(&mut cache, "XBT/EUR", units(20000, 0));
    update_price(&mut cache, "ETH/EUR", units(1500, 0));
    assert_eq!(cache.btc_eur, Some(units(20000, 0)));
    assert_eq!(cache.eth_eur, Some(units(1500, 0)));
    update_price(&mut cache, "DOGE/EUR", 7);
    assert_eq!(cache.eth_btc, Some(units(13, 30_000_000)));
    assert_eq!(cache.eth_eur, Some(units(1500, 0)));
    assert_eq!(cache.btc_eur, Some(units(20000, 0)));
}

fn book(pair: &str, asks: Vec<u64>, bids: Vec<u64>) -> Book {
    Book { pair: String::from(pair), asks, bids }
}

#[test]
fn update_prices_fills_known_slots_and_ignores_others() {
    let mut cache = PriceCache::empty();
    let books = vec![
        book("ETH/XBT", vec![units(13, 40_000_000)], vec![units(13, 20_000_000)]),
        book("XBT/EUR", vec![units(20010, 0)], vec![units(19990, 0)]),
        book("ETH/EUR", vec![units(1501, 0)], vec![units(1499, 0)]),
        book("DOGE/EUR", vec![units(1, 0)], vec![units(1, 0)]),
    ];
    assert_eq!(update_prices(&mut cache, &books), Ok(()));
    assert_eq!(cache.eth_btc, Some(units(13, 30_000_000)));
    assert_eq!(cache.btc_eur, Some(units(20000, 0)));
    assert_eq!(cache.eth_eur, Some(units(1500, 0)));
}

#[test]
fn update_prices_rejects_empty_book_side() {
    let mut cache = PriceCache::empty();
    update_price(&mut cache, "ETH/XBT", units(13, 0));
    let before = cache;
    let books = vec![
        book("XBT/EUR", vec![units(20010, 0)], vec![units(19990, 0)]),
        book("ETH/XBT", vec![], vec![units(13, 20_000_000)]),
    ];
    assert_eq!(update_prices(&mut cache, &books), Err(PriceError::EmptyBook));
    assert_eq!(cache, before);
}

#[test]
fn round_to_precision_rounds_to_five_decimals() {
    // 12.600004999 is not representable; work at the unit level:
    // 1_260_000_499 units = 12.60000499, rounds down to 12.60000.
    assert_eq!(round_to_precision(1_260_000_499), 1_260_000_000);
    // 12.60000500 rounds up to 12.60001.
    assert_eq!(round_to_precision(1_260_000_500), 1_260_001_000);
    assert_eq!(round_to_precision(units(12, 60_000_000)), units(12, 60_000_000));
    assert_eq!(round_to_precision(0), 0);
}

#[test]
fn quote_value_multiplies_in_fixed_point() {
    // 1.5 BTC at 20000 EUR is 30000 EUR.
    assert_eq!(
        hopbot::units::quote_value(units(1, 50_000_000), units(20000, 0)),
        units(30000, 0) as u128
    );
    // Truncation: 0.00000001 at 0.5 is half a unit, which truncates away.
    assert_eq!(hopbot::units::quote_value(1, 50_000_000), 0);
    assert_eq!(hopbot::units::quote_value(2, 50_000_000), 1);
}

#[test]
fn record_round_trip_is_identity() {
    let records = [
        OrderRecord { price: units(13, 0), completed: true },
        OrderRecord { price: units(12, 60_000_000), completed: false },
        OrderRecord { price: 0, completed: true },
        OrderRecord { price: u64::MAX, completed: false },
    ];
    for r in records.iter() {
        let bytes = encode_record(r);
        assert_eq!(bytes.len(), RECORD_BYTES);
        assert_eq!(decode_record(&bytes), Some(*r));
    }
}

#[test]
fn corrupt_records_are_rejected() {
    assert_eq!(decode_record(&[]), None);
    assert_eq!(decode_record(&[0u8; 8]), None);
    assert_eq!(decode_record(&[0u8; 10]), None);
    let mut bytes = encode_record(&OrderRecord { price: units(13, 0), completed: true });
    bytes[8] = 2;
    assert_eq!(decode_record(&bytes), None);
}

#[test]
fn balance_lookup_defaults_to_zero() {
    let mut b = Balance::new();
    b.push(String::from("XXBT"), units(1, 0));
    b.push(String::from("ADA"), units(5, 0));
    assert_eq!(b.get("XXBT"), Some(units(1, 0)));
    assert_eq!(b.get("XETH"), None);
    assert_eq!(b.amount_of("XETH"), 0);
    assert_eq!(b.amount_of("ADA"), units(5, 0));
}

#[test]
fn decimal_rendering_is_exact() {
    assert_eq!(u128_to_string(0), "0");
    assert_eq!(u128_to_string(100230), "100230");
    assert_eq!(format_units(units(13, 30_000_000) as u128, 5), "13.30000");
    assert_eq!(format_units(units(20000, 0) as u128, 2), "20000.00");
    assert_eq!(format_units(7_936_507, 5), "0.07936");
    assert_eq!(format_units(units(1, 23_456_789) as u128, 8), "1.23456789");
    // Truncation, not rounding, of the hidden digits.
    assert_eq!(format_units(units(0, 99_999_999) as u128, 2), "0.99");
}

#[test]
fn percent_rendering_is_exact() {
    // -3/130 is about -2.307 percent; truncated toward zero.
    assert_eq!(percent_string(-30_000_000, units(13, 0), 2), "-2.30");
    // 4/130 is about 3.0769 percent.
    assert_eq!(percent_string(40_000_000, units(13, 0), 3), "3.076");
    assert_eq!(percent_string(0, units(13, 0), 2), "0.00");
    // A zero reference price renders the way a float quotient would.
    assert_eq!(percent_string(5, 0, 2), "inf");
    assert_eq!(percent_string(-5, 0, 2), "-inf");
    assert_eq!(percent_string(0, 0, 2), "NaN");
}

#[test]
fn balance_report_lists_each_asset() {
    let mut balance = Balance::new();
    balance.push(String::from("XXBT"), units(1, 0));
    balance.push(String::from("XETH"), units(2, 0));
    balance.push(String::from("ADA"), units(5, 0));
    let cache = PriceCache {
        btc_eur: Some(units(20000, 0)),
        eth_eur: Some(units(1500, 0)),
        eth_btc: Some(units(13, 30_000_000)),
    };
    let report = generate_balance_string(&balance, &cache);
    let expected = "```\
\nXXBT :  \t20000.00\u{20ac} \t(1.0000)\
\nXETH :  \t3000.00\u{20ac} \t(2.0000)\
\nADA  :  \t0.00\u{20ac} \t(5.0000)\
\n```";
    assert_eq!(report, expected);
}

#[test]
fn price_report_shows_prices_and_gain() {
    let mut balance = Balance::new();
    balance.push(String::from("XXBT"), units(1, 0));
    let cache = PriceCache {
        btc_eur: Some(units(20000, 0)),
        eth_eur: Some(units(1500, 0)),
        eth_btc: Some(units(13, 30_000_000)),
    };
    let record = OrderRecord { price: units(13, 0), completed: true };
    let report = generate_price_string(&balance, &cache, &record);
    let expected = "```\nRELATIVE: 13.30000\nXXBT:\t\t20000.00\nXETH:\t\t1500.00\nGAIN:\t\t-2.30% \u{1f534}\n```";
    assert_eq!(report, expected);
}

#[test]
fn price_report_fails_descriptively() {
    let balance = Balance::new();
    let cache = PriceCache::empty();
    let record = OrderRecord { price: units(13, 0), completed: true };
    // No position and no cross rate: the gain is undefined.
    assert_eq!(generate_price_string(&balance, &cache, &record), "Error calculating gain!");

    let mut funded = Balance::new();
    funded.push(String::from("XXBT"), units(1, 0));
    let partial = PriceCache {
        btc_eur: Some(units(20000, 0)),
        eth_eur: None,
        eth_btc: Some(units(13, 30_000_000)),
    };
    assert_eq!(
        generate_price_string(&funded, &partial, &record),
        "Price cache is not complete yet!"
    );
}

#[test]
fn order_summary_describes_the_rotation() {
    let gain = Gain { num: 40_000_000, den: units(13, 0) };
    let summary = order_placed_summary(units(12, 60_000_000), &gain, &Position::Btc, 7_936_507);
    let expected = "Summary: \u{1f4c2}\n```\
\nPRICE: 12.60000\
\nGAIN: 3.076%\
\nPOSITION: Btc -> Eth\
\nVOLUME: 0.07936\
\n```";
    assert_eq!(summary, expected);
}

#[test]
fn notification_texts_are_fixed() {
    assert_eq!(
        notify_order_completed_telegram(),
        "Last order seems to have been filled \u{1f389}\u{1f4b0}"
    );
    assert_eq!(
        notify_stream_close(),
        "Stream closed from Kraken! Will try to reconnect in 5mins."
    );
}
