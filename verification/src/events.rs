use vstd::prelude::*;

use crate::account::Identity;

verus! {

/// Notification of a successful registration: the key that was claimed,
/// the identity that now owns it, and when.
#[derive(Clone, Debug)]
pub struct Registered {
    pub key: String,
    pub owner: Identity,
    pub timestamp: i64,
}

/// Notification of a successful deposit into an account.
#[derive(Clone, Debug)]
pub struct Sent {
    pub key: String,
    pub sender: Identity,
    pub amount: u64,
    pub timestamp: i64,
}

/// Notification of a successful withdrawal from an account.
#[derive(Clone, Debug)]
pub struct Withdrawn {
    pub key: String,
    pub owner: Identity,
    pub amount: u64,
    pub timestamp: i64,
}

/// Notification that an account's lock gate was flipped, and to what.
#[derive(Clone, Copy, Debug)]
pub struct LockToggled {
    pub target: [u8; 32],
    pub caller: Identity,
    pub locked: bool,
}

} // verus!
