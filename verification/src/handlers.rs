use vstd::prelude::*;

use crate::codec::decode_record;
use crate::codec::encode_record;
use crate::codec::spec_encode_record;
use crate::errors::ProgramError;
use crate::logs::LogEntry;
use crate::logs::LogKind;
use crate::record::Counter;
use crate::record::Slot;
use crate::record::SlotView;
use crate::record::slot_record;
use crate::validate::Constraint;
use crate::validate::validate;

verus! {

/// The accounts the initialize operation names: the slot the record is to be
/// created in, and the identity that funds the allocation.
pub struct Initialize {
    pub counter: Slot,
    pub user: Slot,
}

/// The accounts the increment operation names: just the slot holding the
/// record.
pub struct Increment {
    pub counter: Slot,
}

/// Why an initialize call fails, or `None` when it succeeds.  The checks run
/// in this order: the funding identity's declared constraints (signed, then
/// writable), the counter slot's declared constraints (not yet existing,
/// then writable), and last the funding check.
pub open spec fn spec_initialize_error(counter: SlotView, user: SlotView, cost: u64) -> Option<
    ProgramError,
> {
    if !user.signed {
        Option::Some(ProgramError::MissingAuthorization)
    } else if !user.writable {
        Option::Some(ProgramError::NotWritable)
    } else if counter.data is Some {
        Option::Some(ProgramError::AllocationConflict)
    } else if !counter.writable {
        Option::Some(ProgramError::NotWritable)
    } else if user.balance < cost {
        Option::Some(ProgramError::FundingFailure)
    } else {
        Option::None
    }
}

/// The counter slot after a successful initialize: a fresh record holding 0,
/// access flags untouched.
pub open spec fn spec_initialized_slot(counter: SlotView) -> SlotView {
    SlotView { data: Option::Some(spec_encode_record(0)), ..counter }
}

/// The funding identity after a successful initialize: the allocation cost
/// paid out of its balance.
pub open spec fn spec_charged_user(user: SlotView, cost: u64) -> SlotView {
    SlotView { balance: (user.balance - cost) as u64, ..user }
}

/// Why an increment call fails, or `None` when it succeeds.  The slot must
/// exist, be writable, hold a valid counter record, and hold a count with a
/// representable successor.
pub open spec fn spec_increment_error(counter: SlotView) -> Option<ProgramError> {
    if counter.data is None {
        Option::Some(ProgramError::TypeMismatch)
    } else if !counter.writable {
        Option::Some(ProgramError::NotWritable)
    } else if slot_record(counter) is None {
        Option::Some(ProgramError::TypeMismatch)
    } else if slot_record(counter) == Option::Some(u64::MAX) {
        Option::Some(ProgramError::CounterOverflow)
    } else {
        Option::None
    }
}

/// The counter slot after a successful increment: the same record with the
/// count one higher, access flags untouched.
pub open spec fn spec_incremented_slot(counter: SlotView) -> SlotView
    recommends
        slot_record(counter) is Some,
{
    SlotView {
        data: Option::Some(spec_encode_record((slot_record(counter)->Some_0 + 1) as u64)),
        ..counter
    }
}

/// Creates the counter record: validates the named accounts, allocates the
/// slot with a record holding 0, charges the funding identity the allocation
/// cost, and reports the initial count in a log entry.  On failure nothing
/// changes.
pub fn initialize(ctx: &mut Initialize, cost: u64) -> (r: Result<LogEntry, ProgramError>)
    ensures
        match spec_initialize_error(old(ctx).counter@, old(ctx).user@, cost) {
            Option::Some(e) => r == Result::<LogEntry, ProgramError>::Err(e) && *final(ctx)
                == *old(ctx),
            Option::None => {
                &&& r == Result::<LogEntry, ProgramError>::Ok(
                    LogEntry { kind: LogKind::Initialized, count: 0 },
                )
                &&& final(ctx).counter@ == spec_initialized_slot(old(ctx).counter@)
                &&& final(ctx).user@ == spec_charged_user(old(ctx).user@, cost)
            },
        },
{
    let mut user_constraints: Vec<Constraint> = Vec::new();
    user_constraints.push(Constraint::MustBeSigned);
    user_constraints.push(Constraint::MustBeWritable);
    proof {
        assert(user_constraints@ =~= seq![Constraint::MustBeSigned, Constraint::MustBeWritable]);
    }
    if let Result::Err(e) = validate(&ctx.user, &user_constraints) {
        return Result::Err(e);
    }
    let mut counter_constraints: Vec<Constraint> = Vec::new();
    counter_constraints.push(Constraint::MustNotExist);
    counter_constraints.push(Constraint::MustBeWritable);
    proof {
        assert(counter_constraints@ =~= seq![
            Constraint::MustNotExist,
            Constraint::MustBeWritable,
        ]);
    }
    if let Result::Err(e) = validate(&ctx.counter, &counter_constraints) {
        return Result::Err(e);
    }
    if ctx.user.balance < cost {
        return Result::Err(ProgramError::FundingFailure);
    }
    let record = Counter { count: 0 };
    ctx.counter.data = Option::Some(encode_record(&record));
    ctx.user.balance = ctx.user.balance - cost;
    proof {
        assert(final(ctx).counter@ =~= spec_initialized_slot(old(ctx).counter@));
        assert(final(ctx).user@ =~= spec_charged_user(old(ctx).user@, cost));
    }
    Result::Ok(LogEntry { kind: LogKind::Initialized, count: 0 })
}

/// Adds one to the count of an existing record and reports the new count in
/// a log entry.  Deliberately unauthenticated: no signature is required, so
/// any caller able to name the record may increment it.  On failure nothing
/// changes.
pub fn increment(ctx: &mut Increment) -> (r: Result<LogEntry, ProgramError>)
    ensures
        match spec_increment_error(old(ctx).counter@) {
            Option::Some(e) => r == Result::<LogEntry, ProgramError>::Err(e) && *final(ctx)
                == *old(ctx),
            Option::None => {
                let n = slot_record(old(ctx).counter@)->Some_0;
                &&& r == Result::<LogEntry, ProgramError>::Ok(
                    LogEntry { kind: LogKind::Incremented, count: (n + 1) as u64 },
                )
                &&& final(ctx).counter@ == spec_incremented_slot(old(ctx).counter@)
            },
        },
{
    let mut counter_constraints: Vec<Constraint> = Vec::new();
    counter_constraints.push(Constraint::MustExist);
    counter_constraints.push(Constraint::MustBeWritable);
    proof {
        assert(counter_constraints@ =~= seq![Constraint::MustExist, Constraint::MustBeWritable]);
    }
    if let Result::Err(e) = validate(&ctx.counter, &counter_constraints) {
        return Result::Err(e);
    }
    let record = match &ctx.counter.data {
        Option::Some(bytes) => decode_record(bytes.as_slice()),
        Option::None => Option::None,
    };
    let record = match record {
        Option::Some(record) => record,
        Option::None => {
            return Result::Err(ProgramError::TypeMismatch);
        },
    };
    if record.count == u64::MAX {
        return Result::Err(ProgramError::CounterOverflow);
    }
    let next = Counter { count: record.count + 1 };
    ctx.counter.data = Option::Some(encode_record(&next));
    proof {
        assert(final(ctx).counter@ =~= spec_incremented_slot(old(ctx).counter@));
    }
    Result::Ok(LogEntry { kind: LogKind::Incremented, count: next.count })
}

} // verus!
