//! The price aggregator: turns order-book snapshots into the three-slot
//! mid-price cache (BTC in EUR, ETH in EUR, and the ETH/BTC cross rate).

use vstd::prelude::*;
use vstd::seq_lib::group_to_multiset_ensures;

use crate::util::str_equal;

verus! {

/// The three mid-price slots, each unset until the first order-book update
/// for its pair arrives.  Prices are fixed-point units (see `units::SCALE`).
#[derive(Clone, Copy, PartialEq, Eq, Structural, Debug)]
pub struct PriceCache {
    /// BTC priced in EUR.
    pub btc_eur: Option<u64>,
    /// ETH priced in EUR.
    pub eth_eur: Option<u64>,
    /// The cross rate: ETH priced in BTC.
    pub eth_btc: Option<u64>,
}

impl PriceCache {
    /// A cache with every slot unset, as on cold start.
    pub fn empty() -> (c: PriceCache)
        ensures
            c.btc_eur is None,
            c.eth_eur is None,
            c.eth_btc is None,
    {
        PriceCache { btc_eur: None, eth_eur: None, eth_btc: None }
    }
}

/// One order-book snapshot: the pair it belongs to and the ask and bid
/// prices on the two sides of the book (sizes are not used).
pub struct Book {
    pub pair: String,
    pub asks: Vec<u64>,
    pub bids: Vec<u64>,
}

/// The smallest price in a nonempty sequence.
pub open spec fn spec_min_price(s: Seq<u64>) -> u64
    recommends
        s.len() > 0,
    decreases s.len(),
{
    if s.len() == 0 {
        0
    } else if s.len() == 1 {
        s[0]
    } else {
        let m = spec_min_price(s.drop_last());
        if s.last() <= m {
            s.last()
        } else {
            m
        }
    }
}

/// The largest price in a nonempty sequence.
pub open spec fn spec_max_price(s: Seq<u64>) -> u64
    recommends
        s.len() > 0,
    decreases s.len(),
{
    if s.len() == 0 {
        0
    } else if s.len() == 1 {
        s[0]
    } else {
        let m = spec_max_price(s.drop_last());
        if s.last() >= m {
            s.last()
        } else {
            m
        }
    }
}

/// The mid-price of a book: the average of the best (lowest) ask and the
/// best (highest) bid, truncated.
pub open spec fn spec_mid_price(asks: Seq<u64>, bids: Seq<u64>) -> u64
    recommends
        asks.len() > 0,
        bids.len() > 0,
{
    ((spec_min_price(asks) + spec_max_price(bids)) / 2) as u64
}

/// `spec_min_price` returns an element of the sequence, and a lower bound
/// on every element.
pub proof fn lemma_min_price_is_min(s: Seq<u64>)
    requires
        s.len() > 0,
    ensures
        s.contains(spec_min_price(s)),
        forall|i: int| 0 <= i < s.len() ==> spec_min_price(s) <= s[i],
    decreases s.len(),
{
    if s.len() == 1 {
        assert(s[0] == s[0]);
    } else {
        lemma_min_price_is_min(s.drop_last());
        let m = spec_min_price(s.drop_last());
        let mn = spec_min_price(s);
        assert forall|i: int| 0 <= i < s.len() implies mn <= s[i] by {
            if i < s.len() - 1 {
                assert(s.drop_last()[i] == s[i]);
                assert(m <= s.drop_last()[i]);
            } else {
                assert(s[i] == s.last());
            }
        }
        if s.last() <= m {
            assert(s[s.len() - 1] == s.last());
        } else {
            let j = choose|j: int| 0 <= j < s.drop_last().len() && s.drop_last()[j] == m;
            assert(s[j] == s.drop_last()[j]);
        }
    }
}

/// `spec_max_price` returns an element of the sequence, and an upper bound
/// on every element.
pub proof fn lemma_max_price_is_max(s: Seq<u64>)
    requires
        s.len() > 0,
    ensures
        s.contains(spec_max_price(s)),
        forall|i: int| 0 <= i < s.len() ==> s[i] <= spec_max_price(s),
    decreases s.len(),
{
    if s.len() == 1 {
        assert(s[0] == s[0]);
    } else {
        lemma_max_price_is_max(s.drop_last());
        let m = spec_max_price(s.drop_last());
        let mx = spec_max_price(s);
        assert forall|i: int| 0 <= i < s.len() implies s[i] <= mx by {
            if i < s.len() - 1 {
                assert(s.drop_last()[i] == s[i]);
                assert(s.drop_last()[i] <= m);
            } else {
                assert(s[i] == s.last());
            }
        }
        if s.last() >= m {
            assert(s[s.len() - 1] == s.last());
        } else {
            let j = choose|j: int| 0 <= j < s.drop_last().len() && s.drop_last()[j] == m;
            assert(s[j] == s.drop_last()[j]);
        }
    }
}

/// The minimum depends only on which prices occur, not on their order.
pub proof fn lemma_min_price_permutation(s1: Seq<u64>, s2: Seq<u64>)
    requires
        s1.len() > 0,
        s1.to_multiset() == s2.to_multiset(),
    ensures
        spec_min_price(s1) == spec_min_price(s2),
{
    broadcast use group_to_multiset_ensures;

    assert(s1.to_multiset().len() == s1.len());
    assert(s2.to_multiset().len() == s2.len());
    lemma_min_price_is_min(s1);
    lemma_min_price_is_min(s2);
    let m1 = spec_min_price(s1);
    let m2 = spec_min_price(s2);
    assert(s1.to_multiset().count(m1) > 0);
    assert(s2.to_multiset().count(m2) > 0);
    assert(s2.to_multiset().count(m1) > 0);
    assert(s1.to_multiset().count(m2) > 0);
    assert(s2.contains(m1));
    assert(s1.contains(m2));
    let j1 = choose|j: int| 0 <= j < s2.len() && s2[j] == m1;
    let j2 = choose|j: int| 0 <= j < s1.len() && s1[j] == m2;
    assert(m2 <= s2[j1]);
    assert(m1 <= s1[j2]);
}

/// The maximum depends only on which prices occur, not on their order.
pub proof fn lemma_max_price_permutation(s1: Seq<u64>, s2: Seq<u64>)
    requires
        s1.len() > 0,
        s1.to_multiset() == s2.to_multiset(),
    ensures
        spec_max_price(s1) == spec_max_price(s2),
{
    broadcast use group_to_multiset_ensures;

    assert(s1.to_multiset().len() == s1.len());
    assert(s2.to_multiset().len() == s2.len());
    lemma_max_price_is_max(s1);
    lemma_max_price_is_max(s2);
    let m1 = spec_max_price(s1);
    let m2 = spec_max_price(s2);
    assert(s1.to_multiset().count(m1) > 0);
    assert(s2.to_multiset().count(m2) > 0);
    assert(s2.to_multiset().count(m1) > 0);
    assert(s1.to_multiset().count(m2) > 0);
    assert(s2.contains(m1));
    assert(s1.contains(m2));
    let j1 = choose|j: int| 0 <= j < s2.len() && s2[j] == m1;
    let j2 = choose|j: int| 0 <= j < s1.len() && s1[j] == m2;
    assert(s2[j1] <= m2);
    assert(s1[j2] <= m1);
}

/// Law: for any order book with nonempty asks and bids, the mid-price is
/// `(min(asks) + max(bids)) / 2`, independent of the order in which the two
/// sides list their prices.
pub proof fn lemma_mid_price_order_independent(
    asks1: Seq<u64>,
    bids1: Seq<u64>,
    asks2: Seq<u64>,
    bids2: Seq<u64>,
)
    requires
        asks1.len() > 0,
        bids1.len() > 0,
        asks1.to_multiset() == asks2.to_multiset(),
        bids1.to_multiset() == bids2.to_multiset(),
    ensures
        spec_mid_price(asks1, bids1) == spec_mid_price(asks2, bids2),
{
    lemma_min_price_permutation(asks1, asks2);
    lemma_max_price_permutation(bids1, bids2);
}

/// The smallest price in a nonempty list.
pub fn min_price(prices: &Vec<u64>) -> (m: u64)
    requires
        prices@.len() > 0,
    ensures
        m == spec_min_price(prices@),
{
    let mut m = prices[0];
    let mut i: usize = 1;
    while i < prices.len()
        invariant
            1 <= i <= prices@.len(),
            m == spec_min_price(prices@.take(i as int)),
        decreases prices@.len() - i,
    {
        proof {
            assert(prices@.take(i + 1).drop_last() =~= prices@.take(i as int));
        }
        if prices[i] <= m {
            m = prices[i];
        }
        i += 1;
    }
    proof {
        assert(prices@.take(prices@.len() as int) =~= prices@);
    }
    m
}

/// The largest price in a nonempty list.
pub fn max_price(prices: &Vec<u64>) -> (m: u64)
    requires
        prices@.len() > 0,
    ensures
        m == spec_max_price(prices@),
{
    let mut m = prices[0];
    let mut i: usize = 1;
    while i < prices.len()
        invariant
            1 <= i <= prices@.len(),
            m == spec_max_price(prices@.take(i as int)),
        decreases prices@.len() - i,
    {
        proof {
            assert(prices@.take(i + 1).drop_last() =~= prices@.take(i as int));
        }
        if prices[i] >= m {
            m = prices[i];
        }
        i += 1;
    }
    proof {
        assert(prices@.take(prices@.len() as int) =~= prices@);
    }
    m
}

/// Computes the mid-price of a book from its two nonempty sides.
pub fn mid_price(asks: &Vec<u64>, bids: &Vec<u64>) -> (m: u64)
    requires
        asks@.len() > 0,
        bids@.len() > 0,
    ensures
        m == spec_mid_price(asks@, bids@),
{
    let mn = min_price(asks);
    let mx = max_price(bids);
    (((mn as u128) + (mx as u128)) / 2) as u64
}

/// Writes a freshly computed mid-price into the slot its pair identifier
/// names; unrecognized identifiers are ignored.
pub fn update_price(cache: &mut PriceCache, book_id: &str, current_price: u64)
    ensures
        final(cache).eth_btc == (if book_id@ == "ETH/XBT"@ {
            Some(current_price)
        } else {
            old(cache).eth_btc
        }),
        final(cache).eth_eur == (if book_id@ == "ETH/EUR"@ {
            Some(current_price)
        } else {
            old(cache).eth_eur
        }),
        final(cache).btc_eur == (if book_id@ == "XBT/EUR"@ {
            Some(current_price)
        } else {
            old(cache).btc_eur
        }),
{
    if str_equal(book_id, "ETH/XBT") {
        cache.eth_btc = Some(current_price);
    }
    if str_equal(book_id, "ETH/EUR") {
        cache.eth_eur = Some(current_price);
    }
    if str_equal(book_id, "XBT/EUR") {
        cache.btc_eur = Some(current_price);
    }
}

/// A malformed snapshot: some book has an empty ask or bid side.
#[derive(Clone, Copy, PartialEq, Eq, Structural, Debug)]
pub enum PriceError {
    EmptyBook,
}

/// Every book in the snapshot has prices on both sides.
pub open spec fn spec_books_wf(books: Seq<Book>) -> bool {
    forall|i: int|
        0 <= i < books.len() ==> #[trigger] books[i].asks@.len() > 0 && books[i].bids@.len() > 0
}

/// The value a slot holds after the snapshot is applied: the mid-price of
/// the last book keyed by `id`, or the slot's prior value if no book is.
pub open spec fn spec_slot(books: Seq<Book>, id: Seq<char>, init: Option<u64>) -> Option<u64>
    decreases books.len(),
{
    if books.len() == 0 {
        init
    } else if books.last().pair@ == id {
        Some(spec_mid_price(books.last().asks@, books.last().bids@))
    } else {
        spec_slot(books.drop_last(), id, init)
    }
}

/// Refreshes the cache from a whole order-book snapshot.  If any book has an
/// empty side the snapshot is treated as corrupt: nothing is written and the
/// tick's price update is aborted.
pub fn update_prices(cache: &mut PriceCache, books: &Vec<Book>) -> (r: Result<(), PriceError>)
    ensures
        r is Ok <==> spec_books_wf(books@),
        r is Err ==> *final(cache) == *old(cache),
        r is Ok ==> {
            &&& final(cache).eth_btc == spec_slot(books@, "ETH/XBT"@, old(cache).eth_btc)
            &&& final(cache).eth_eur == spec_slot(books@, "ETH/EUR"@, old(cache).eth_eur)
            &&& final(cache).btc_eur == spec_slot(books@, "XBT/EUR"@, old(cache).btc_eur)
        },
{
    let mut i: usize = 0;
    while i < books.len()
        invariant
            0 <= i <= books@.len(),
            forall|j: int|
                0 <= j < i ==> #[trigger] books@[j].asks@.len() > 0 && books@[j].bids@.len() > 0,
        decreases books@.len() - i,
    {
        if books[i].asks.len() == 0 || books[i].bids.len() == 0 {
            return Err(PriceError::EmptyBook);
        }
        i += 1;
    }
    let ghost init = *cache;
    let mut i: usize = 0;
    while i < books.len()
        invariant
            0 <= i <= books@.len(),
            spec_books_wf(books@),
            cache.eth_btc == spec_slot(books@.take(i as int), "ETH/XBT"@, init.eth_btc),
            cache.eth_eur == spec_slot(books@.take(i as int), "ETH/EUR"@, init.eth_eur),
            cache.btc_eur == spec_slot(books@.take(i as int), "XBT/EUR"@, init.btc_eur),
        decreases books@.len() - i,
    {
        proof {
            assert(books@.take(i + 1).drop_last() =~= books@.take(i as int));
            assert(books@[i as int].asks@.len() > 0 && books@[i as int].bids@.len() > 0);
        }
        let book = &books[i];
        let m = mid_price(&book.asks, &book.bids);
        update_price(cache, book.pair.as_str(), m);
        i += 1;
    }
    proof {
        assert(books@.take(books@.len() as int) =~= books@);
    }
    Ok(())
}

/// The cached ETH/BTC cross rate, if any snapshot has set it.
pub fn get_current_relative_price(cache: &PriceCache) -> (r: Option<u64>)
    ensures
        r == cache.eth_btc,
{
    cache.eth_btc
}

/// The cached ETH price in EUR, if any snapshot has set it.
pub fn get_current_eth_price(cache: &PriceCache) -> (r: Option<u64>)
    ensures
        r == cache.eth_eur,
{
    cache.eth_eur
}

/// The cached BTC price in EUR, if any snapshot has set it.
pub fn get_current_btc_price(cache: &PriceCache) -> (r: Option<u64>)
    ensures
        r == cache.btc_eur,
{
    cache.btc_eur
}

} // verus!
