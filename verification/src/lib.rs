//! A peer-vs-peer wagering settlement engine.
//!
//! Two principals stake an entry fee into a contest, third parties may place
//! side bets on the outcome, and an externally supplied result is reconciled
//! through a multi-phase settlement protocol with a challenge window before
//! funds are released.
//!
//! The engine owns the record-level state machines and the payout arithmetic.
//! Fund movement, identity checks and the wall clock are collaborators at the
//! boundary: every operation takes the caller's identity and the current time
//! as plain values, and reports the amounts to move as plain values. The
//! hosting environment serializes operations per record, so each function here
//! is one atomic transition.

pub mod battle;
pub mod feed;
pub mod math;
pub mod prediction;
pub mod principal;
pub mod session;
