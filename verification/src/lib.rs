/// The persisted byte form of a counter record: an 8-byte tag naming the
/// record type and format version, then the count in little-endian order.
pub mod codec;
/// Every way a call can fail; each failure aborts the whole call with no
/// state change.
pub mod errors;
/// The two instruction handlers, initialize and increment.  Each takes the
/// accounts its operation names by exclusive reference: calls touching the
/// same record are serialized by the host, an assumption the borrow itself
/// expresses.
pub mod handlers;
/// The laws the operations obey, each proved from the contracts.
pub mod laws;
/// The log entry a handler emits, and its exact rendered text.
pub mod logs;
/// The counter record and the storage slot the host presents it in.
pub mod record;
/// The pre-dispatch validation stage: the closed set of constraint kinds an
/// operation declares on the accounts it names, checked before any handler
/// logic runs.
pub mod validate;
