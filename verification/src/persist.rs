//! Durable encoding of an [`OrderRecord`].
//!
//! The record is framed as nine bytes: the reference price in little-endian
//! order followed by one completion-flag byte.  The caller writes and reads
//! the bytes durably (atomic file replace); this module only frames and
//! checks them, and proves that a round trip reproduces the record.

use vstd::prelude::*;
use vstd::bytes::*;
use vstd::slice::slice_subrange;

use crate::orders::OrderRecord;

verus! {

/// Length in bytes of an encoded record.
pub const RECORD_BYTES: usize = 9;

/// The encoded form of a record: eight price bytes, then one flag byte.
pub open spec fn spec_encode_record(r: OrderRecord) -> Seq<u8> {
    spec_u64_to_le_bytes(r.price).push(if r.completed { 1u8 } else { 0u8 })
}

/// Decoding accepts exactly nine bytes whose flag byte is zero or one;
/// anything else is treated as a corrupt record.
pub open spec fn spec_decode_record(s: Seq<u8>) -> Option<OrderRecord> {
    if s.len() == RECORD_BYTES && (s[8] == 0u8 || s[8] == 1u8) {
        Some(
            OrderRecord {
                price: spec_u64_from_le_bytes(s.subrange(0, 8)),
                completed: s[8] == 1u8,
            },
        )
    } else {
        None
    }
}

/// Encodes a record into its nine-byte durable form.
pub fn encode_record(r: &OrderRecord) -> (out: Vec<u8>)
    ensures
        out@ == spec_encode_record(*r),
        out@.len() == RECORD_BYTES,
{
    let mut out = u64_to_le_bytes(r.price);
    out.push(if r.completed { 1u8 } else { 0u8 });
    out
}

/// Decodes a durable record, rejecting anything of the wrong length or with
/// a corrupt flag byte.
pub fn decode_record(s: &[u8]) -> (r: Option<OrderRecord>)
    ensures
        r == spec_decode_record(s@),
{
    if s.len() != RECORD_BYTES {
        return None;
    }
    let flag = *vstd::slice::slice_index_get(s, 8);
    if flag != 0u8 && flag != 1u8 {
        return None;
    }
    let price = u64_from_le_bytes(slice_subrange(s, 0, 8));
    Some(OrderRecord { price, completed: flag == 1u8 })
}

/// Law: persisting and then loading a record reproduces the identical
/// price and completion flag.
pub proof fn lemma_record_round_trip(r: OrderRecord)
    ensures
        spec_decode_record(spec_encode_record(r)) == Some(r),
{
    lemma_auto_spec_u64_to_from_le_bytes();
    assert(spec_encode_record(r).subrange(0, 8) =~= spec_u64_to_le_bytes(r.price));
}

} // verus!
