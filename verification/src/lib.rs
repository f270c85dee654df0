//! A keyed balance ledger: a store of named accounts, each holding a numeric
//! balance and an owner identity, mutated only through a small set of
//! authorization-gated operations (register, deposit, withdraw, lock-toggle).
//!
//! The engine works on plain account records handed to it by the host; the
//! host supplies storage, value movement and the clock, and delivers the
//! events the engine packages.

pub mod account;
pub mod addressing;
pub mod calculator;
pub mod engine;
pub mod errors;
pub mod events;
