//! Validation and tallying logic for a D21-style voting method: an event
//! defines a fixed list of choices and limits on positive and negative
//! selections; each voter submits one ballot, which is validated against the
//! event's rules and the voter's one-shot record, then applied to a running
//! signed tally with overflow-checked arithmetic.

pub mod api;
pub mod ballot;
pub mod errors;
pub mod laws;
pub mod state;
pub mod tally;
