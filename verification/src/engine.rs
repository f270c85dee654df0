use vstd::prelude::*;

use crate::account::{
    key_error, lemma_key_error_none, valid_key, AccountView, Identity, LedgerAccount, MAX_KEY_LEN,
    MIN_KEY_LEN,
};
use crate::account::check_key;
use crate::errors::LedgerError;
use crate::events::{LockToggled, Registered, Sent, Withdrawn};

verus! {

// ---------------------------------------------------------------------------
// The mathematical model of each mutation. Every executable operation below
// promises that it computes exactly what these functions say, and the laws at
// the bottom of the file are proved of them.
// ---------------------------------------------------------------------------

/// What registration yields: the validation error of the key where it has
/// one, AlreadyRegistered where the derived slot is occupied, otherwise a
/// fresh record owned by the caller with zero balance and an open lock.
pub open spec fn spec_register(
    caller: Seq<u8>,
    key: Seq<char>,
    now: i64,
    bump: u8,
    occupied: bool,
) -> Result<AccountView, LedgerError> {
    match key_error(key) {
        Some(e) => Err(e),
        None => if occupied {
            Err(LedgerError::AlreadyRegistered)
        } else {
            Ok(
                AccountView {
                    owner: caller,
                    key: key,
                    balance: 0,
                    locked: false,
                    created_at: now,
                    bump: bump,
                },
            )
        },
    }
}

/// What a deposit yields, checked in order: a zero amount, the lock gate,
/// the caller's own holding, then overflow of the ledger balance. Success
/// raises the balance by exactly the amount and touches nothing else.
pub open spec fn spec_deposit(a: AccountView, caller_held: u64, amount: u64) -> Result<
    AccountView,
    LedgerError,
> {
    if amount == 0 {
        Err(LedgerError::InvalidAmount)
    } else if a.locked {
        Err(LedgerError::VaultLocked)
    } else if caller_held < amount {
        Err(LedgerError::InsufficientBalance)
    } else if a.balance + amount > u64::MAX {
        Err(LedgerError::BalanceOverflow)
    } else {
        Ok(AccountView { balance: (a.balance + amount) as u64, ..a })
    }
}

/// What a withdrawal yields, checked in order: a zero amount, the lock
/// gate, ownership, the ledger balance, then the backing value store.
/// Success lowers the balance by exactly the amount and touches nothing
/// else.
pub open spec fn spec_withdraw(
    a: AccountView,
    caller: Seq<u8>,
    account_held: u64,
    amount: u64,
) -> Result<AccountView, LedgerError> {
    if amount == 0 {
        Err(LedgerError::InvalidAmount)
    } else if a.locked {
        Err(LedgerError::VaultLocked)
    } else if a.owner != caller {
        Err(LedgerError::Unauthorized)
    } else if a.balance < amount {
        Err(LedgerError::InsufficientBalance)
    } else if account_held < amount {
        Err(LedgerError::BalanceUnderflow)
    } else {
        Ok(AccountView { balance: (a.balance - amount) as u64, ..a })
    }
}

/// The flip of the lock gate, everything else kept.
pub open spec fn spec_toggle(a: AccountView) -> AccountView {
    AccountView { locked: !a.locked, ..a }
}

/// What a lock toggle yields: Unauthorized for anyone but the owner,
/// otherwise the account with its lock gate flipped.
pub open spec fn spec_toggle_lock(a: AccountView, caller: Seq<u8>) -> Result<
    AccountView,
    LedgerError,
> {
    if a.owner != caller {
        Err(LedgerError::Unauthorized)
    } else {
        Ok(spec_toggle(a))
    }
}

// ---------------------------------------------------------------------------
// The executable operations.
// ---------------------------------------------------------------------------

/// Validates a human key and creates the fresh ledger record for it.
///
/// The host resolves the derived slot and reports through `occupied`
/// whether a record already sits there; it persists the returned record
/// and delivers the returned event.
pub fn register(caller: &Identity, key: String, now: i64, bump: u8, occupied: bool) -> (r: Result<
    (LedgerAccount, Registered),
    LedgerError,
>)
    ensures
        match r {
            Ok((account, event)) => {
                &&& spec_register(caller@, key@, now, bump, occupied) == Ok::<
                    AccountView,
                    LedgerError,
                >(account@)
                &&& event.key@ == key@
                &&& event.owner@ == caller@
                &&& event.timestamp == now
            },
            Err(e) => spec_register(caller@, key@, now, bump, occupied) == Err::<
                AccountView,
                LedgerError,
            >(e),
        },
{
    if let Some(e) = check_key(key.as_str()) {
        return Err(e);
    }
    if occupied {
        return Err(LedgerError::AlreadyRegistered);
    }
    let event_key = key.clone();
    let account = LedgerAccount {
        owner: *caller,
        key,
        balance: 0,
        locked: false,
        created_at: now,
        bump,
    };
    let event = Registered { key: event_key, owner: *caller, timestamp: now };
    proof {
        assert(spec_register(caller@, account.key@, now, bump, occupied) matches Ok(v) && v
            =~= account@);
    }
    Ok((account, event))
}

/// What a successful deposit hands back to the host: the two balances
/// after the atomic step, and the notification to deliver.
#[derive(Debug)]
pub struct DepositOutcome {
    pub new_balance: u64,
    pub caller_remaining: u64,
    pub event: Sent,
}

/// Moves `amount` into the account: anyone may fund any unlocked account
/// they can address, provided they hold the amount themselves.
///
/// The host passes the caller's backing holding in `caller_held` and must
/// commit the value movement and the returned record as one atomic step;
/// on any error the record is unchanged and nothing is owed.
pub fn deposit(
    account: &mut LedgerAccount,
    caller: &Identity,
    caller_held: u64,
    amount: u64,
    now: i64,
) -> (r: Result<DepositOutcome, LedgerError>)
    ensures
        match r {
            Ok(out) => {
                &&& spec_deposit(old(account)@, caller_held, amount) == Ok::<
                    AccountView,
                    LedgerError,
                >(final(account)@)
                &&& out.new_balance == final(account).balance
                &&& out.new_balance == old(account).balance + amount
                &&& out.caller_remaining == caller_held - amount
                &&& out.event.key@ == old(account)@.key
                &&& out.event.sender@ == caller@
                &&& out.event.amount == amount
                &&& out.event.timestamp == now
            },
            Err(e) => {
                &&& *final(account) == *old(account)
                &&& spec_deposit(old(account)@, caller_held, amount) == Err::<
                    AccountView,
                    LedgerError,
                >(e)
            },
        },
{
    if amount == 0 {
        return Err(LedgerError::InvalidAmount);
    }
    if account.locked {
        return Err(LedgerError::VaultLocked);
    }
    if caller_held < amount {
        return Err(LedgerError::InsufficientBalance);
    }
    let new_balance = match account.balance.checked_add(amount) {
        Some(b) => b,
        None => { return Err(LedgerError::BalanceOverflow) },
    };
    let event = Sent { key: account.key.clone(), sender: *caller, amount, timestamp: now };
    account.balance = new_balance;
    proof {
        assert(spec_deposit(old(account)@, caller_held, amount) matches Ok(v) && v =~= account@);
    }
    Ok(DepositOutcome { new_balance, caller_remaining: caller_held - amount, event })
}

/// What a successful withdrawal hands back to the host: the two balances
/// after the atomic step, and the notification to deliver.
#[derive(Debug)]
pub struct WithdrawOutcome {
    pub new_balance: u64,
    pub account_remaining: u64,
    pub event: Withdrawn,
}

/// Moves `amount` out of the account to its owner; only the owner may
/// withdraw, and only what both the ledger balance and the backing value
/// store cover.
///
/// The host passes the backing holding of the account's slot in
/// `account_held` and must commit the value movement and the returned
/// record as one atomic step; on any error the record is unchanged.
pub fn withdraw(
    account: &mut LedgerAccount,
    caller: &Identity,
    account_held: u64,
    amount: u64,
    now: i64,
) -> (r: Result<WithdrawOutcome, LedgerError>)
    ensures
        match r {
            Ok(out) => {
                &&& spec_withdraw(old(account)@, caller@, account_held, amount) == Ok::<
                    AccountView,
                    LedgerError,
                >(final(account)@)
                &&& out.new_balance == final(account).balance
                &&& out.new_balance == old(account).balance - amount
                &&& out.account_remaining == account_held - amount
                &&& out.event.key@ == old(account)@.key
                &&& out.event.owner@ == old(account)@.owner
                &&& out.event.amount == amount
                &&& out.event.timestamp == now
            },
            Err(e) => {
                &&& *final(account) == *old(account)
                &&& spec_withdraw(old(account)@, caller@, account_held, amount) == Err::<
                    AccountView,
                    LedgerError,
                >(e)
            },
        },
{
    if amount == 0 {
        return Err(LedgerError::InvalidAmount);
    }
    if account.locked {
        return Err(LedgerError::VaultLocked);
    }
    if !account.owner.same_as(caller) {
        return Err(LedgerError::Unauthorized);
    }
    if account.balance < amount {
        return Err(LedgerError::InsufficientBalance);
    }
    let account_remaining = match account_held.checked_sub(amount) {
        Some(h) => h,
        None => { return Err(LedgerError::BalanceUnderflow) },
    };
    let new_balance = account.balance - amount;
    let event = Withdrawn {
        key: account.key.clone(),
        owner: account.owner,
        amount,
        timestamp: now,
    };
    account.balance = new_balance;
    proof {
        assert(spec_withdraw(old(account)@, caller@, account_held, amount) matches Ok(v) && v
            =~= account@);
    }
    Ok(WithdrawOutcome { new_balance, account_remaining, event })
}

/// Flips the account's lock gate; only the owner may. Returns the flag's
/// new value and the notification for the host, which carries `target`,
/// the address of the account's slot.
pub fn toggle_lock(account: &mut LedgerAccount, caller: &Identity, target: &[u8; 32]) -> (r: Result<
    (bool, LockToggled),
    LedgerError,
>)
    ensures
        match r {
            Ok((new_state, event)) => {
                &&& spec_toggle_lock(old(account)@, caller@) == Ok::<AccountView, LedgerError>(
                    final(account)@,
                )
                &&& new_state == final(account).locked
                &&& new_state == !old(account).locked
                &&& event.target@ == target@
                &&& event.caller@ == caller@
                &&& event.locked == new_state
            },
            Err(e) => {
                &&& *final(account) == *old(account)
                &&& spec_toggle_lock(old(account)@, caller@) == Err::<AccountView, LedgerError>(e)
            },
        },
{
    if !account.owner.same_as(caller) {
        return Err(LedgerError::Unauthorized);
    }
    account.locked = !account.locked;
    proof {
        assert(spec_toggle(old(account)@) =~= account@);
    }
    Ok((account.locked, LockToggled { target: *target, caller: *caller, locked: account.locked }))
}

// ---------------------------------------------------------------------------
// The laws of the engine.
// ---------------------------------------------------------------------------

/// A successful registration yields a fresh account: zero balance, an open
/// lock gate, owned by the caller, carrying the requested key.
pub proof fn lemma_register_fresh(caller: Seq<u8>, key: Seq<char>, now: i64, bump: u8, occupied: bool)
    requires
        valid_key(key),
        !occupied,
    ensures
        spec_register(caller, key, now, bump, occupied) == Ok::<AccountView, LedgerError>(
            AccountView {
                owner: caller,
                key: key,
                balance: 0,
                locked: false,
                created_at: now,
                bump: bump,
            },
        ),
{
    lemma_key_error_none(key);
}

/// An ill-formed key draws the matching validation error and no account
/// comes to be: TooShort below three characters, TooLong above fifty,
/// otherwise InvalidFormat for a disallowed character.
pub proof fn lemma_register_rejects_invalid(
    caller: Seq<u8>,
    key: Seq<char>,
    now: i64,
    bump: u8,
    occupied: bool,
)
    requires
        !valid_key(key),
    ensures
        spec_register(caller, key, now, bump, occupied) is Err,
        key.len() < MIN_KEY_LEN ==> spec_register(caller, key, now, bump, occupied) == Err::<
            AccountView,
            LedgerError,
        >(LedgerError::TooShort),
        key.len() > MAX_KEY_LEN ==> spec_register(caller, key, now, bump, occupied) == Err::<
            AccountView,
            LedgerError,
        >(LedgerError::TooLong),
        MIN_KEY_LEN <= key.len() <= MAX_KEY_LEN ==> spec_register(caller, key, now, bump, occupied)
            == Err::<AccountView, LedgerError>(LedgerError::InvalidFormat),
{
    lemma_key_error_none(key);
}

/// A deposit of a positive amount the caller can cover raises the balance
/// by exactly that amount where it fits the ledger field, and fails —
/// changing nothing — where it would overflow.
pub proof fn lemma_deposit_adds_exactly(a: AccountView, caller_held: u64, amount: u64)
    requires
        0 < amount <= caller_held,
        !a.locked,
    ensures
        a.balance + amount <= u64::MAX ==> spec_deposit(a, caller_held, amount) == Ok::<
            AccountView,
            LedgerError,
        >(AccountView { balance: (a.balance + amount) as u64, ..a }),
        a.balance + amount > u64::MAX ==> spec_deposit(a, caller_held, amount) == Err::<
            AccountView,
            LedgerError,
        >(LedgerError::BalanceOverflow),
{
}

/// An owner's withdrawal of a covered positive amount lowers the balance
/// by exactly that amount; an amount above the balance, or any attempt on
/// an empty account, fails.
pub proof fn lemma_withdraw_subtracts_exactly(
    a: AccountView,
    caller: Seq<u8>,
    account_held: u64,
    amount: u64,
)
    requires
        a.owner == caller,
    ensures
        !a.locked && 0 < amount <= a.balance && amount <= account_held ==> spec_withdraw(
            a,
            caller,
            account_held,
            amount,
        ) == Ok::<AccountView, LedgerError>(AccountView { balance: (a.balance - amount) as u64, ..a }),
        amount > a.balance || a.balance == 0 ==> spec_withdraw(a, caller, account_held, amount) is Err,
{
}

/// A withdrawal by anyone but the owner fails, and — once past the amount
/// and lock gates — fails precisely with Unauthorized, whatever the amount
/// or the balance.
pub proof fn lemma_withdraw_unauthorized(
    a: AccountView,
    caller: Seq<u8>,
    account_held: u64,
    amount: u64,
)
    requires
        a.owner != caller,
    ensures
        spec_withdraw(a, caller, account_held, amount) is Err,
        amount != 0 && !a.locked ==> spec_withdraw(a, caller, account_held, amount) == Err::<
            AccountView,
            LedgerError,
        >(LedgerError::Unauthorized),
{
}

/// Toggling the lock twice in succession restores the account exactly:
/// what one authorized toggle yields, a second one by the same caller
/// takes back to the original.
pub proof fn lemma_toggle_twice_restores(a: AccountView, caller: Seq<u8>)
    ensures
        spec_toggle(spec_toggle(a)) == a,
        spec_toggle_lock(a, caller) matches Ok(b) ==> spec_toggle_lock(b, caller) == Ok::<
            AccountView,
            LedgerError,
        >(a),
{
    assert(spec_toggle(spec_toggle(a)) =~= a);
}

/// While the lock gate is set, every deposit and withdrawal fails — with
/// VaultLocked once a nonzero amount passes the validation gate — and the
/// account is left as it was.
pub proof fn lemma_locked_blocks_transfers(a: AccountView, caller: Seq<u8>, held: u64, amount: u64)
    requires
        a.locked,
    ensures
        spec_deposit(a, held, amount) is Err,
        spec_withdraw(a, caller, held, amount) is Err,
        amount != 0 ==> spec_deposit(a, held, amount) == Err::<AccountView, LedgerError>(
            LedgerError::VaultLocked,
        ),
        amount != 0 ==> spec_withdraw(a, caller, held, amount) == Err::<AccountView, LedgerError>(
            LedgerError::VaultLocked,
        ),
{
}

} // verus!
