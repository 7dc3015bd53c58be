use vstd::prelude::*;

verus! {

/// The failure taxonomy of a verification call.
///
/// Every failure is surfaced to the caller as the call's result; none is
/// retried internally, and no state is committed on any failure path.
#[derive(Clone, Copy, Debug, PartialEq, Eq, Structural)]
pub enum ContractError {
    /// Envelope, body, filter-payload or instruction-payload bytes do not
    /// parse as their expected binary or JSON schema.
    Malformed,
    /// The query identifier has no registered filter.
    NotFound,
    /// Decoding succeeded but zero transfer records were produced: the
    /// evidence does not satisfy the filter, and is rejected by design.
    NoMatch,
    /// The registry or ledger backend itself failed; raised by the host
    /// around this library, never by the verified core.
    Upstream,
}

impl ContractError {
    /// A short description, for hosts that render errors as text.
    pub fn describe(&self) -> (r: String)
        ensures
            r@.len() > 0,
    {
        proof {
            reveal_strlit("malformed evidence or filter payload");
            reveal_strlit("no registered filter for this query identifier");
            reveal_strlit("failed to find a matching transaction message");
            reveal_strlit("upstream backend failure");
        }
        match self {
            ContractError::Malformed => "malformed evidence or filter payload".to_owned(),
            ContractError::NotFound => "no registered filter for this query identifier".to_owned(),
            ContractError::NoMatch => "failed to find a matching transaction message".to_owned(),
            ContractError::Upstream => "upstream backend failure".to_owned(),
        }
    }
}

} // verus!
