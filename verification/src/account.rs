use vstd::prelude::*;

use crate::errors::LedgerError;

verus! {

/// A 32-byte identity: the public key that created or controls an account.
#[derive(Clone, Copy, Debug)]
pub struct Identity {
    pub bytes: [u8; 32],
}

impl View for Identity {
    type V = Seq<u8>;

    open spec fn view(&self) -> Seq<u8> {
        self.bytes@
    }
}

impl Identity {
    /// Builds an identity from its raw bytes.
    pub fn new(bytes: [u8; 32]) -> (r: Identity)
        ensures
            r@ == bytes@,
    {
        Identity { bytes }
    }

    /// Whether two identities are the same public key.
    pub fn same_as(&self, other: &Identity) -> (r: bool)
        ensures
            r == (self@ == other@),
    {
        let mut i: usize = 0;
        while i < 32
            invariant
                0 <= i <= 32,
                forall|j: int| 0 <= j < i ==> self@[j] == other@[j],
            decreases 32 - i,
        {
            if self.bytes[i] != other.bytes[i] {
                assert(self@[i as int] != other@[i as int]);
                return false;
            }
            i += 1;
        }
        proof {
            assert(self@ =~= other@);
        }
        true
    }
}

/// A derived account slot: the 32-byte address together with the
/// disambiguation bump the derivation settled on.
#[derive(Clone, Copy, Debug)]
pub struct AccountAddress {
    pub bytes: [u8; 32],
    pub bump: u8,
}

/// The least number of characters a human key may have.
pub const MIN_KEY_LEN: usize = 3;

/// The greatest number of characters a human key may have.
pub const MAX_KEY_LEN: usize = 50;

/// What char::is_alphanumeric returns: whether the character lies in a
/// Unicode letter or number category.
pub uninterp spec fn unicode_alphanumeric(c: char) -> bool;

/// Relies on char::is_alphanumeric: the answer depends on the character
/// alone.
#[verifier::external_body]
fn is_alphanumeric_char(c: char) -> (r: bool)
    ensures
        r == unicode_alphanumeric(c),
{
    c.is_alphanumeric()
}

/// A character a human key may contain: alphanumeric or hyphen.
pub open spec fn is_key_char(c: char) -> bool {
    unicode_alphanumeric(c) || c == '-'
}

/// A well-formed human key: three to fifty characters, each alphanumeric
/// or hyphen.
pub open spec fn valid_key(k: Seq<char>) -> bool {
    &&& MIN_KEY_LEN <= k.len() <= MAX_KEY_LEN
    &&& forall|i: int| 0 <= i < k.len() ==> is_key_char(k[i])
}

/// The validation error a human key draws, if any: length bounds are
/// reported before format.
pub open spec fn key_error(k: Seq<char>) -> Option<LedgerError> {
    if k.len() < MIN_KEY_LEN {
        Some(LedgerError::TooShort)
    } else if k.len() > MAX_KEY_LEN {
        Some(LedgerError::TooLong)
    } else if exists|i: int| 0 <= i < k.len() && !is_key_char(k[i]) {
        Some(LedgerError::InvalidFormat)
    } else {
        None
    }
}

/// A key passes validation exactly when it is well formed.
pub proof fn lemma_key_error_none(k: Seq<char>)
    ensures
        key_error(k) is None <==> valid_key(k),
{
}

/// Checks a human key against the format rule, reporting the precise
/// validation error where it fails.
pub fn check_key(key: &str) -> (r: Option<LedgerError>)
    ensures
        r == key_error(key@),
{
    let n = key.unicode_len();
    if n < MIN_KEY_LEN {
        return Some(LedgerError::TooShort);
    }
    if n > MAX_KEY_LEN {
        return Some(LedgerError::TooLong);
    }
    let mut i: usize = 0;
    while i < n
        invariant
            n == key@.len(),
            MIN_KEY_LEN <= n <= MAX_KEY_LEN,
            0 <= i <= n,
            forall|j: int| 0 <= j < i ==> is_key_char(key@[j]),
        decreases n - i,
    {
        let c = key.get_char(i);
        if !(is_alphanumeric_char(c) || c == '-') {
            return Some(LedgerError::InvalidFormat);
        }
        i += 1;
    }
    None
}

/// The persisted ledger record: owner, human key, balance, lock flag,
/// creation timestamp, and the derivation bump of its storage slot.
#[derive(Clone, Debug)]
pub struct LedgerAccount {
    pub owner: Identity,
    pub key: String,
    pub balance: u64,
    pub locked: bool,
    pub created_at: i64,
    pub bump: u8,
}

/// The mathematical value of a ledger record.
#[verifier::ext_equal]
pub ghost struct AccountView {
    pub owner: Seq<u8>,
    pub key: Seq<char>,
    pub balance: u64,
    pub locked: bool,
    pub created_at: i64,
    pub bump: u8,
}

impl View for LedgerAccount {
    type V = AccountView;

    open spec fn view(&self) -> AccountView {
        AccountView {
            owner: self.owner@,
            key: self.key@,
            balance: self.balance,
            locked: self.locked,
            created_at: self.created_at,
            bump: self.bump,
        }
    }
}

} // verus!
