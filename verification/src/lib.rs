//! A transaction submission engine: the decisions that carry one signed
//! operation to a ledger network through fee estimation, submission,
//! confirmation and bounded retry with nonce correction.
//!
//! The engine performs no I/O. A submission is a state machine: the caller
//! performs each [`submission::Action`] against the network and feeds what
//! happened back as an [`submission::Event`].

pub mod amount;
pub mod fee;
pub mod laws;
pub mod manager;
pub mod policy;
pub mod request;
pub mod submission;
pub mod text;
