use vstd::prelude::*;

use crate::account::AccountAddress;
use crate::errors::LedgerError;

verus! {

/// What Pubkey::try_find_program_address returns for the two seeds and the
/// program id: the derived 32-byte slot address with its disambiguation
/// bump, or None where a seed is over the derivation's 32-byte seed cap or
/// — statistically improbable — no bump seed works.
pub uninterp spec fn derived_address(namespace: Seq<u8>, key: Seq<u8>, program_id: Seq<u8>) -> Option<
    (Seq<u8>, u8),
>;

/// Relies on Pubkey::try_find_program_address (anchor_lang's re-export of
/// the Solana address type): the derivation is a pure function of the seed
/// bytes and the program id, the same in every process.
#[verifier::external_body]
fn find_derived_address(namespace: &[u8], key: &[u8], program_id: &[u8; 32]) -> (r: Option<
    ([u8; 32], u8),
>)
    ensures
        match r {
            Some((address, bump)) => derived_address(namespace@, key@, program_id@) == Some(
                (address@, bump),
            ),
            None => derived_address(namespace@, key@, program_id@) is None,
        },
{
    let owner = anchor_lang::prelude::Pubkey::new_from_array(*program_id);
    anchor_lang::prelude::Pubkey::try_find_program_address(&[namespace, key], &owner).map(
        |(address, bump)| (address.to_bytes(), bump),
    )
}

/// Derives the account slot for a namespace tag and a key: deterministic,
/// and collision-free across distinct inputs with overwhelming probability.
/// Returns None where a seed is over the derivation's 32-byte seed cap or
/// no bump seed works.
pub fn derive_account_address(namespace: &[u8], key: &[u8], program_id: &[u8; 32]) -> (r: Option<
    AccountAddress,
>)
    ensures
        match r {
            Some(addr) => derived_address(namespace@, key@, program_id@) == Some(
                (addr.bytes@, addr.bump),
            ),
            None => derived_address(namespace@, key@, program_id@) is None,
        },
{
    match find_derived_address(namespace, key, program_id) {
        Some((bytes, bump)) => Some(AccountAddress { bytes, bump }),
        None => None,
    }
}

/// Whether a claimed slot address is the one the namespace and key derive
/// to. Any operation presented with an account whose address fails this
/// check must be refused before any state is touched.
pub open spec fn address_matches(
    claimed: Seq<u8>,
    namespace: Seq<u8>,
    key: Seq<u8>,
    program_id: Seq<u8>,
) -> bool {
    match derived_address(namespace, key, program_id) {
        Some((address, bump)) => claimed == address,
        None => false,
    }
}

/// The check a host runs ahead of every operation on a presented account:
/// AddressMismatch before any state is touched, unless the claimed
/// address is the derived one.
pub fn require_address(
    claimed: &[u8; 32],
    namespace: &[u8],
    key: &[u8],
    program_id: &[u8; 32],
) -> (r: Result<(), LedgerError>)
    ensures
        r is Ok <==> address_matches(claimed@, namespace@, key@, program_id@),
        r matches Err(e) ==> e == LedgerError::AddressMismatch,
{
    if verify_address(claimed, namespace, key, program_id) {
        Ok(())
    } else {
        Err(LedgerError::AddressMismatch)
    }
}

/// Recomputes the derivation and compares it with a claimed address.
pub fn verify_address(claimed: &[u8; 32], namespace: &[u8], key: &[u8], program_id: &[u8; 32]) -> (r:
    bool)
    ensures
        r == address_matches(claimed@, namespace@, key@, program_id@),
{
    match find_derived_address(namespace, key, program_id) {
        Some((bytes, _bump)) => {
            let mut i: usize = 0;
            while i < 32
                invariant
                    0 <= i <= 32,
                    derived_address(namespace@, key@, program_id@) matches Some((a, _)) && a
                        == bytes@,
                    forall|j: int| 0 <= j < i ==> claimed@[j] == bytes@[j],
                decreases 32 - i,
            {
                if claimed[i] != bytes[i] {
                    assert(claimed@[i as int] != bytes@[i as int]);
                    return false;
                }
                i += 1;
            }
            proof {
                assert(claimed@ =~= bytes@);
            }
            true
        },
        None => false,
    }
}

} // verus!
