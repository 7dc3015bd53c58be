//! Verified core of a transaction-evidence callback handler.
//!
//! The library verifies externally supplied blockchain transaction evidence
//! against a previously registered query filter and maintains a per-recipient
//! ledger of matching transfers. A raw transaction envelope is decoded into a
//! body of typed sub-messages, payment instructions are matched against the
//! filter's target recipient, and on success the matching transfer records
//! are merged into the recipient's history; on any failure nothing is written.

pub mod codec;
pub mod contract;
pub mod errors;
pub mod filter;
pub mod ledger;
pub mod matcher;
pub mod messages;
pub mod registry;
