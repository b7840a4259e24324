//! Governance engine for a community treasury: proposal submission, weighted
//! voting, quorum and threshold tallying, and one-time execution.
//!
//! Every operation is a total function of the records it is handed and the
//! current tick of the ledger's clock. A failed operation leaves every record
//! as it was.

pub mod identity;
pub mod status;
pub mod config;
pub mod proposal;
pub mod ledger;
pub mod voting;
pub mod tally;
pub mod execution;
pub mod laws;
pub mod events;
pub mod research;
