//! A threshold-governance engine: a fixed set of authorized signers jointly
//! controls two kinds of actions -- releasing funds to a recipient and
//! modifying the signer set itself -- by requiring a quorum of approvals
//! before execution.
//!
//! The engine is a pure state machine. Durable storage, caller
//! authentication, the wall clock and the actual asset transfer are external
//! collaborators: the host passes the current time into every guarded call,
//! and `execute_proposal` returns the transfer it has authorized as a
//! [`types::TransferAction`] for the host to perform within the same atomic
//! call.

pub mod errors;
pub mod laws;
pub mod multisig;
pub mod types;
