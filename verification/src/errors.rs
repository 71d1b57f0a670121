//! The failure taxonomy of the protocol layer.

use vstd::prelude::*;

verus! {

/// Protocol failures. Order and settlement logic never fails: malformed
/// numeric inputs are clamped, not rejected.
#[derive(Clone, Copy, PartialEq, Eq, Structural, Debug)]
pub enum ErrorCode {
    /// The confidential cluster reported failure; surfaced verbatim to the
    /// caller and never retried by this core.
    AbortedComputation,
    /// No cluster is configured to take computations: a configuration
    /// precondition is unmet.
    ClusterNotSet,
    /// The ticket of a queued request is already in flight or consumed.
    DuplicateTicket,
    /// A result arrived for a ticket with no pending computation.
    UnknownTicket,
}

} // verus!
