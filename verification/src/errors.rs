use vstd::prelude::*;

verus! {

/// Every way a call can fail.  Each failure is terminal for the invoking
/// call: the handler returns the error and leaves all state exactly as it
/// found it.
#[derive(Clone, Copy, Debug, PartialEq, Eq, Structural)]
pub enum ProgramError {
    /// Initialize was invoked against a slot that already holds data; the
    /// caller must choose a fresh slot.
    AllocationConflict,
    /// The funding identity cannot cover the allocation cost.
    FundingFailure,
    /// The referenced slot is not recognized as a valid counter record:
    /// never allocated, or holding bytes of some other shape.
    TypeMismatch,
    /// Initialize was invoked without a valid signature from the funding
    /// identity.
    MissingAuthorization,
    /// An account that the operation mutates was not passed with write
    /// access.
    NotWritable,
    /// The counter already holds the largest representable value, so one
    /// more increment has no representable result.
    CounterOverflow,
}

} // verus!
