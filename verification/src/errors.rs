use vstd::prelude::*;

verus! {

/// Every failure a ledger operation can report. Each error is a normal,
/// typed outcome: no operation leaves an account in an intermediate state.
#[derive(Clone, Copy, Debug, PartialEq, Eq, Structural)]
pub enum LedgerError {
    /// The human key is shorter than the minimum of three characters.
    TooShort,
    /// The human key is longer than the maximum of fifty characters.
    TooLong,
    /// The human key contains a character that is not alphanumeric or hyphen.
    InvalidFormat,
    /// The derived account slot already holds a record.
    AlreadyRegistered,
    /// The amount of a transfer was zero.
    InvalidAmount,
    /// The account's lock gate is set, so balance changes are refused.
    VaultLocked,
    /// The caller is not the account's owner.
    Unauthorized,
    /// The ledger balance (or the caller's holding, on deposit) cannot
    /// cover the requested amount.
    InsufficientBalance,
    /// Adding the amount to the ledger balance would overflow.
    BalanceOverflow,
    /// The backing value store cannot cover the requested amount.
    BalanceUnderflow,
    /// The account's claimed slot address is not what its namespace and
    /// key derive to.
    AddressMismatch,
}

} // verus!
