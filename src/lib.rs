//! A three-party escrow: an initializer locks an amount in custody; it is
//! then either released to the counterparty (Accept) or returned to the
//! initializer (Refund), at most once, with a failed transfer rolled back.
//!
//! - `state`: the record's states and the two operations' guards and targets.
//! - `escrow`: the record, Create, and the Accept and Refund operations. Each
//!   of these checks the state, sets the new state and returns the custodial
//!   transfer for the host to make; `settle` then keeps the new state or rolls
//!   it back, according to the transfer's outcome.
//! - `lifecycle`: the record's whole lifetime as a sequence of events, and the
//!   laws that hold over it.

pub mod escrow;
pub mod lifecycle;
pub mod state;
