use vstd::prelude::*;

use crate::codec::spec_decode_record;

verus! {

/// The sole persistent entity: a record holding one unsigned 64-bit value.
///
/// A record is created exactly once, with `count == 0`, and from then on is
/// only ever mutated in place by the increment operation.
pub struct Counter {
    pub count: u64,
}

/// A storage slot as the host runtime presents it to the program.
///
/// `data` is the raw persisted bytes of the slot: `None` while the slot has
/// never been allocated, `Some(bytes)` once something lives there.  Whether
/// those bytes form a valid counter record is a separate question, answered
/// by the codec.  `balance` is the funds held by the slot's owner, spent when
/// the slot funds an allocation.  `writable` and `signed` are the per-call
/// access flags the host attaches to every account reference: whether the
/// caller asked for write access, and whether the slot's owner signed the
/// call.
pub struct Slot {
    pub data: Option<Vec<u8>>,
    pub balance: u64,
    pub writable: bool,
    pub signed: bool,
}

/// The mathematical view of a `Slot`: the same four fields, with the
/// persisted bytes as a sequence.
#[verifier::ext_equal]
pub struct SlotView {
    pub data: Option<Seq<u8>>,
    pub balance: u64,
    pub writable: bool,
    pub signed: bool,
}

impl View for Slot {
    type V = SlotView;

    open spec fn view(&self) -> SlotView {
        SlotView {
            data: match self.data {
                Option::Some(bytes) => Option::Some(bytes@),
                Option::None => Option::None,
            },
            balance: self.balance,
            writable: self.writable,
            signed: self.signed,
        }
    }
}

/// The record a slot holds: `Some(count)` when the slot is allocated and its
/// bytes decode as a counter record, `None` when the slot was never allocated
/// or holds bytes of some other shape.
pub open spec fn slot_record(s: SlotView) -> Option<u64> {
    match s.data {
        Option::Some(bytes) => spec_decode_record(bytes),
        Option::None => Option::None,
    }
}

} // verus!
