use vstd::prelude::*;

use vstd::bytes::lemma_auto_spec_u64_to_from_le_bytes;
use vstd::bytes::spec_u64_from_le_bytes;
use vstd::bytes::spec_u64_to_le_bytes;
use vstd::bytes::u64_from_le_bytes;
use vstd::bytes::u64_to_le_bytes;
use vstd::slice::slice_index_get;
use vstd::slice::slice_subrange;

use crate::record::Counter;

verus! {

/// Length in bytes of the tag that opens every persisted counter record.
pub const TAG_BYTES: usize = 8;

/// Total length in bytes of a persisted counter record: the tag followed by
/// the 8-byte little-endian value.
pub const RECORD_BYTES: usize = 16;

/// The tag that opens every persisted counter record: seven bytes of ASCII
/// `counter` naming the record type, then one format-version byte.
pub open spec fn spec_record_tag() -> Seq<u8> {
    seq![0x63u8, 0x6fu8, 0x75u8, 0x6eu8, 0x74u8, 0x65u8, 0x72u8, 0x01u8]
}

/// The persisted form of a counter record holding `count`: the tag, then
/// `count` in little-endian order.
pub open spec fn spec_encode_record(count: u64) -> Seq<u8> {
    spec_record_tag() + spec_u64_to_le_bytes(count)
}

/// What a byte sequence means as a counter record: `Some(count)` exactly when
/// the bytes are one whole record (right length, right tag), `None` otherwise.
pub open spec fn spec_decode_record(bytes: Seq<u8>) -> Option<u64> {
    if bytes.len() == RECORD_BYTES && bytes.subrange(0, TAG_BYTES as int) == spec_record_tag() {
        Option::Some(spec_u64_from_le_bytes(bytes.subrange(TAG_BYTES as int, RECORD_BYTES as int)))
    } else {
        Option::None
    }
}

/// Decoding inverts encoding: the persisted form of `count` reads back as
/// exactly `count`.
pub proof fn lemma_record_round_trip(count: u64)
    ensures
        spec_decode_record(spec_encode_record(count)) == Option::Some(count),
{
    lemma_auto_spec_u64_to_from_le_bytes();
    let bytes = spec_encode_record(count);
    assert(bytes.subrange(0, TAG_BYTES as int) =~= spec_record_tag());
    assert(bytes.subrange(TAG_BYTES as int, RECORD_BYTES as int) =~= spec_u64_to_le_bytes(count));
}

/// The tag as runtime bytes.
pub fn record_tag() -> (tag: Vec<u8>)
    ensures
        tag@ == spec_record_tag(),
{
    let mut tag: Vec<u8> = Vec::new();
    tag.push(0x63u8);
    tag.push(0x6fu8);
    tag.push(0x75u8);
    tag.push(0x6eu8);
    tag.push(0x74u8);
    tag.push(0x65u8);
    tag.push(0x72u8);
    tag.push(0x01u8);
    proof {
        assert(tag@ =~= spec_record_tag());
    }
    tag
}

/// Serializes a counter record into its persisted form.
pub fn encode_record(record: &Counter) -> (bytes: Vec<u8>)
    ensures
        bytes@ == spec_encode_record(record.count),
{
    let mut bytes = record_tag();
    let mut value = u64_to_le_bytes(record.count);
    bytes.append(&mut value);
    proof {
        assert(bytes@ =~= spec_encode_record(record.count));
    }
    bytes
}

/// Deserializes a persisted counter record, rejecting anything that is not
/// one whole record.
pub fn decode_record(bytes: &[u8]) -> (record: Option<Counter>)
    ensures
        match record {
            Option::Some(c) => spec_decode_record(bytes@) == Option::Some(c.count),
            Option::None => spec_decode_record(bytes@) is None,
        },
{
    if bytes.len() != RECORD_BYTES {
        return Option::None;
    }
    let tag = record_tag();
    let mut i: usize = 0;
    while i < TAG_BYTES
        invariant
            i <= TAG_BYTES,
            bytes@.len() == RECORD_BYTES,
            tag@ == spec_record_tag(),
            forall|k: int| 0 <= k < i ==> bytes@[k] == spec_record_tag()[k],
        decreases TAG_BYTES - i,
    {
        if *slice_index_get(bytes, i) != tag[i] {
            proof {
                assert(bytes@.subrange(0, TAG_BYTES as int)[i as int] != spec_record_tag()[i as int]);
            }
            return Option::None;
        }
        i = i + 1;
    }
    proof {
        assert(bytes@.subrange(0, TAG_BYTES as int) =~= spec_record_tag());
    }
    let value = u64_from_le_bytes(slice_subrange(bytes, TAG_BYTES, RECORD_BYTES));
    Option::Some(Counter { count: value })
}

} // verus!
