use vstd::prelude::*;

verus! {

/// A precondition of one operation that the account does not meet.
#[derive(Debug, Clone, Copy, PartialEq, Eq, Structural)]
pub enum DomainError {
    /// The operation exists only for real (non-simulation) accounts.
    NotAvailableInSimulation,
}

/// Everything that can go wrong between building a request and reading its answer.
#[derive(Debug, Clone, PartialEq, Eq)]
pub enum KisError {
    /// The connection, the send or the receive failed.
    Transport(String),
    /// The upstream answered with a status other than 200.
    Upstream { status: u16, body: String },
    /// The answer is not JSON, or lacks a field that the operation needs.
    Decode,
    /// The account configuration could not be read.
    Config,
    /// An operation-specific precondition failed.
    Domain(DomainError),
    /// A header value holds a byte that HTTP does not allow.
    InvalidHeaderValue,
    /// The composed URL is malformed.
    InvalidUrl,
}

} // verus!
