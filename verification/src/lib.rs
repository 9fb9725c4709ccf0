//! Delegated-spending authorization core.
//!
//! An asset owner grants a delegate a bounded, revocable right to move value
//! out of the owner's balance. Two allowance shapes exist: a one-shot capped
//! allowance (`Simple`) that depletes as it is spent, and a rate-based
//! allowance (`Recurring`) that streams value to one fixed destination over a
//! bounded time window. This crate holds the data model, the lifecycle
//! transitions and the two settlement algorithms; callers wire it to account
//! storage, signature checks and the actual value transfer.

pub mod error;
pub mod laws;
pub mod lifecycle;
pub mod state;
