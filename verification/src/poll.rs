//! Outcome types for the poll-based read protocol.

use vstd::prelude::*;

verus! {

/// Result of advancing a suspendable computation by one step: either the
/// computation has arranged to be resumed later, or it is done and yields a
/// value.
pub enum Poll<T> {
    /// Not yet complete; the caller will be re-invoked after a wake-up.
    Pending,
    /// Complete, with the finished value.
    Ready(T),
}

/// Errors a read can report.  The current producer is infallible, so no call
/// ever returns one of these; the kind is reserved so that a future fallible
/// producer can surface its failures without changing the read contract.
#[derive(Clone, Copy, Debug, PartialEq, Eq, Structural)]
pub enum ReadError {
    /// The data source failed to produce the requested chunk.
    SourceFailure,
}

} // verus!
