//! The account balance snapshot: asset symbols mapped to fixed-point
//! amounts, refreshed wholesale and looked up by symbol.

use vstd::prelude::*;

use crate::util::str_equal;

verus! {

/// One asset of the balance snapshot: its exchange symbol and the held
/// amount in fixed-point units.
pub struct BalanceEntry {
    pub asset: String,
    pub amount: u64,
}

/// A whole-account balance snapshot.  Lookups return the first entry whose
/// symbol matches, so entries behave as a map keyed by symbol.
pub struct Balance {
    pub entries: Vec<BalanceEntry>,
}

/// The amount recorded for `key`, if any entry carries that symbol.
pub open spec fn spec_balance_get(entries: Seq<BalanceEntry>, key: Seq<char>) -> Option<u64>
    decreases entries.len(),
{
    if entries.len() == 0 {
        None
    } else if entries[0].asset@ == key {
        Some(entries[0].amount)
    } else {
        spec_balance_get(entries.drop_first(), key)
    }
}

/// The amount recorded for `key`, defaulting to zero when the symbol is
/// absent from the snapshot.
pub open spec fn spec_amount(entries: Seq<BalanceEntry>, key: Seq<char>) -> u64 {
    match spec_balance_get(entries, key) {
        Some(a) => a,
        None => 0,
    }
}

impl Balance {
    /// A snapshot holding no assets.
    pub fn new() -> (b: Balance)
        ensures
            b.entries@.len() == 0,
    {
        Balance { entries: Vec::new() }
    }

    /// Appends one asset to the snapshot.
    pub fn push(&mut self, asset: String, amount: u64)
        ensures
            final(self).entries@ == old(self).entries@.push(BalanceEntry { asset, amount }),
    {
        self.entries.push(BalanceEntry { asset, amount });
    }

    /// Looks an asset up by symbol.
    pub fn get(&self, key: &str) -> (r: Option<u64>)
        ensures
            r == spec_balance_get(self.entries@, key@),
    {
        let mut i: usize = 0;
        proof {
            assert(self.entries@.skip(0) =~= self.entries@);
        }
        while i < self.entries.len()
            invariant
                0 <= i <= self.entries@.len(),
                spec_balance_get(self.entries@, key@) == spec_balance_get(
                    self.entries@.skip(i as int),
                    key@,
                ),
            decreases self.entries@.len() - i,
        {
            proof {
                assert(self.entries@.skip(i as int).drop_first() =~= self.entries@.skip(i + 1));
                assert(self.entries@.skip(i as int)[0] == self.entries@[i as int]);
            }
            let entry = &self.entries[i];
            if str_equal(entry.asset.as_str(), key) {
                return Some(entry.amount);
            }
            i += 1;
        }
        None
    }

    /// The held amount of an asset, zero when the symbol is absent.
    pub fn amount_of(&self, key: &str) -> (r: u64)
        ensures
            r == spec_amount(self.entries@, key@),
    {
        match self.get(key) {
            Some(a) => a,
            None => 0,
        }
    }
}

} // verus!
