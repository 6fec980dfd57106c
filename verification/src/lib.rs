//! Accounting core of a revenue-distribution ledger for music streaming.
//!
//! A shared pool collects revenue; registered artists accrue a share of it
//! based on stream counts; each artist can withdraw their accrued share.
//! The modules here hold the data model, the fee-split arithmetic, and the
//! operations that move the ledger from one state to the next, each with a
//! contract that pins down exactly when it succeeds and what it changes.
//!
//! The host platform that stores the records, proves who signed a call,
//! moves native currency and supplies timestamps is not part of this crate:
//! the operations take identities, balances and timestamps as plain values
//! and return the records and events for the host to persist and emit.

pub mod accounts;
pub mod engine;
pub mod errors;
pub mod events;
pub mod laws;
pub mod model;
