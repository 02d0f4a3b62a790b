//! A token-exchange ledger: one account sells a balance of credited tokens for
//! payments in a single native denomination at a fixed price, and lets its owner
//! reclaim what is unsold.
//!
//! The ledger is a plain value that every transition takes explicitly. Each
//! transition either applies in full or leaves the ledger as it was, and says in
//! its contract which of the two happens on which inputs.

pub mod amount;
pub mod contract;
pub mod error;
pub mod laws;
pub mod model;
pub mod msg;
pub mod response;
pub mod state;
pub mod transfer;
