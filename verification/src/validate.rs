use vstd::prelude::*;

use crate::errors::ProgramError;
use crate::record::Slot;
use crate::record::SlotView;

verus! {

/// The closed set of constraint kinds an operation can declare on an account
/// it names.  A blockchain host runtime checks such declarations on its own
/// before a handler body runs; the validation stage below makes the same
/// checks explicit.
#[derive(Clone, Copy, Debug, PartialEq, Eq, Structural)]
pub enum Constraint {
    /// The slot must already hold data.
    MustExist,
    /// The slot must not hold data yet.
    MustNotExist,
    /// The slot must have been passed with write access.
    MustBeWritable,
    /// The slot's owner must have signed the call.
    MustBeSigned,
}

/// Whether a slot satisfies one declared constraint.
pub open spec fn spec_satisfies(s: SlotView, c: Constraint) -> bool {
    match c {
        Constraint::MustExist => s.data is Some,
        Constraint::MustNotExist => s.data is None,
        Constraint::MustBeWritable => s.writable,
        Constraint::MustBeSigned => s.signed,
    }
}

/// The error surfaced to the caller when a declared constraint is violated.
pub open spec fn spec_constraint_error(c: Constraint) -> ProgramError {
    match c {
        Constraint::MustExist => ProgramError::TypeMismatch,
        Constraint::MustNotExist => ProgramError::AllocationConflict,
        Constraint::MustBeWritable => ProgramError::NotWritable,
        Constraint::MustBeSigned => ProgramError::MissingAuthorization,
    }
}

/// Runtime check of one constraint.
pub fn satisfies(slot: &Slot, c: Constraint) -> (r: bool)
    ensures
        r == spec_satisfies(slot@, c),
{
    match c {
        Constraint::MustExist => slot.data.is_some(),
        Constraint::MustNotExist => slot.data.is_none(),
        Constraint::MustBeWritable => slot.writable,
        Constraint::MustBeSigned => slot.signed,
    }
}

/// Runtime form of `spec_constraint_error`.
pub fn constraint_error(c: Constraint) -> (e: ProgramError)
    ensures
        e == spec_constraint_error(c),
{
    match c {
        Constraint::MustExist => ProgramError::TypeMismatch,
        Constraint::MustNotExist => ProgramError::AllocationConflict,
        Constraint::MustBeWritable => ProgramError::NotWritable,
        Constraint::MustBeSigned => ProgramError::MissingAuthorization,
    }
}

/// The pre-dispatch validation stage: checks the declared constraints on one
/// account, in declaration order, and surfaces the error of the first one
/// violated.  A handler body runs only after every account it names has
/// passed.
pub fn validate(slot: &Slot, constraints: &Vec<Constraint>) -> (r: Result<(), ProgramError>)
    ensures
        r is Ok <==> (forall|i: int|
            0 <= i < constraints@.len() ==> spec_satisfies(slot@, constraints@[i])),
        r matches Err(e) ==> (exists|i: int|
            0 <= i < constraints@.len() && !spec_satisfies(slot@, constraints@[i])
                && e == spec_constraint_error(constraints@[i])
                && (forall|j: int| 0 <= j < i ==> spec_satisfies(slot@, constraints@[j]))),
{
    let mut i: usize = 0;
    while i < constraints.len()
        invariant
            i <= constraints@.len(),
            forall|j: int| 0 <= j < i ==> spec_satisfies(slot@, constraints@[j]),
        decreases constraints@.len() - i,
    {
        let c = constraints[i];
        if !satisfies(slot, c) {
            return Result::Err(constraint_error(c));
        }
        i = i + 1;
    }
    Result::Ok(())
}

} // verus!
