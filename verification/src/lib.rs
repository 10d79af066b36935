//! FlowSol: the accounting engine of a continuous payment stream.
//!
//! A sender commits a deposit and a rate per second; the deposit accrues to
//! a receiver as time passes, and the receiver may claim what has accrued at
//! any time. Accrual is lazy: it is computed from the stored settlement time
//! whenever a party calls, and never by a timer.
//!
//! - [`accrual`]: the calculator of the amount to settle.
//! - [`stream`]: the record of a stream.
//! - [`engine`]: the four operations: create, withdraw, close and the query
//!   for the claimable amount.
//! - [`model`]: the mathematical model that the contracts are stated over.
//! - [`laws`]: what holds of a stream after any sequence of calls.

pub mod accrual;
pub mod engine;
pub mod error;
pub mod identity;
pub mod laws;
pub mod model;
pub mod stream;
