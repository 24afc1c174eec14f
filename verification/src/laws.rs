use vstd::prelude::*;

use crate::codec::lemma_record_round_trip;
use crate::errors::ProgramError;
use crate::handlers::spec_increment_error;
use crate::handlers::spec_incremented_slot;
use crate::handlers::spec_initialize_error;
use crate::handlers::spec_initialized_slot;
use crate::record::SlotView;
use crate::record::slot_record;

verus! {

/// On a fresh slot, with a signed, writable and sufficiently funded payer,
/// initialize succeeds, and the record the slot then holds reads back as
/// exactly 0.
pub proof fn lemma_initialize_fresh_slot(counter: SlotView, user: SlotView, cost: u64)
    requires
        counter.data is None,
        counter.writable,
        user.signed,
        user.writable,
        user.balance >= cost,
    ensures
        spec_initialize_error(counter, user, cost) is None,
        slot_record(spec_initialized_slot(counter)) == Option::Some(0u64),
{
    lemma_record_round_trip(0);
}

/// Initialize invoked against a slot that already holds a record fails,
/// whatever the payer looks like; with a signed, writable payer the error is
/// the allocation conflict.  By the initialize contract, a failing call
/// leaves both accounts, and so the stored count, untouched.
pub proof fn lemma_initialize_occupied_slot_fails(counter: SlotView, user: SlotView, cost: u64)
    requires
        slot_record(counter) is Some,
    ensures
        spec_initialize_error(counter, user, cost) is Some,
        user.signed && user.writable ==> spec_initialize_error(counter, user, cost)
            == Option::Some(ProgramError::AllocationConflict),
{
}

/// Increment on a writable slot holding a record with count `n`, for any
/// `n` with a representable successor, succeeds, and the record the slot
/// then holds reads back as exactly `n + 1`.
pub proof fn lemma_increment_adds_one(counter: SlotView, n: u64)
    requires
        slot_record(counter) == Option::Some(n),
        counter.writable,
        n < u64::MAX,
    ensures
        spec_increment_error(counter) is None,
        slot_record(spec_incremented_slot(counter)) == Option::Some((n + 1) as u64),
{
    lemma_record_round_trip((n + 1) as u64);
}

/// Increment on a slot that was never allocated fails with the type
/// mismatch error.  By the increment contract, a failing call leaves the
/// slot untouched.
pub proof fn lemma_increment_unallocated_slot_fails(counter: SlotView)
    requires
        counter.data is None,
    ensures
        spec_increment_error(counter) == Option::Some(ProgramError::TypeMismatch),
{
}

/// Increment is not idempotent: from a record with count `n`, two
/// increments in sequence leave a different count than one does, `n + 2`
/// against `n + 1`.  This fails only where the second call has no
/// representable result, at `n == u64::MAX - 1`, which the bound below
/// leaves out.
pub proof fn lemma_increment_not_idempotent(counter: SlotView, n: u64)
    requires
        slot_record(counter) == Option::Some(n),
        counter.writable,
        n + 2 <= u64::MAX,
    ensures
        slot_record(spec_incremented_slot(spec_incremented_slot(counter))) == Option::Some(
            (n + 2) as u64,
        ),
        slot_record(spec_incremented_slot(spec_incremented_slot(counter))) != slot_record(
            spec_incremented_slot(counter),
        ),
{
    lemma_record_round_trip((n + 1) as u64);
    let once = spec_incremented_slot(counter);
    assert(slot_record(once) == Option::Some((n + 1) as u64));
    lemma_record_round_trip((n + 2) as u64);
}

} // verus!
