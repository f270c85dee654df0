use keyed_ledger::addressing::{derive_account_address, require_address, verify_address};
use keyed_ledger::errors::LedgerError;

const PROGRAM_ID: [u8; 32] = [3u8; 32];

#[test]
fn derivation_is_deterministic() {
    let a = derive_account_address(b"username_wallet", b"alice-1", &PROGRAM_ID).unwrap();
    let b = derive_account_address(b"username_wallet", b"alice-1", &PROGRAM_ID).unwrap();
    assert_eq!(a.bytes, b.bytes);
    assert_eq!(a.bump, b.bump);
}

#[test]
fn derivation_depends_on_the_key() {
    let a = derive_account_address(b"username_wallet", b"alice-1", &PROGRAM_ID).unwrap();
    let b = derive_account_address(b"username_wallet", b"bob-2", &PROGRAM_ID).unwrap();
    assert_ne!(a.bytes, b.bytes);
}

#[test]
fn derivation_depends_on_the_namespace() {
    let a = derive_account_address(b"username_wallet", b"alice-1", &PROGRAM_ID).unwrap();
    let b = derive_account_address(b"vault", b"alice-1", &PROGRAM_ID).unwrap();
    assert_ne!(a.bytes, b.bytes);
}

#[test]
fn derivation_is_a_real_mapping() {
    // The derived slot is none of the inputs handed in.
    let a = derive_account_address(b"username_wallet", b"alice-1", &PROGRAM_ID).unwrap();
    assert_ne!(a.bytes, PROGRAM_ID);
}

#[test]
fn verify_accepts_the_derived_address() {
    let a = derive_account_address(b"vault", b"alice-1", &PROGRAM_ID).unwrap();
    assert!(verify_address(&a.bytes, b"vault", b"alice-1", &PROGRAM_ID));
}

#[test]
fn require_address_gates_a_mismatch() {
    let a = derive_account_address(b"vault", b"alice-1", &PROGRAM_ID).unwrap();
    assert!(require_address(&a.bytes, b"vault", b"alice-1", &PROGRAM_ID).is_ok());
    assert_eq!(
        require_address(&a.bytes, b"vault", b"bob-2", &PROGRAM_ID).unwrap_err(),
        LedgerError::AddressMismatch
    );
}

#[test]
fn verify_rejects_a_foreign_address() {
    let a = derive_account_address(b"vault", b"alice-1", &PROGRAM_ID).unwrap();
    assert!(!verify_address(&a.bytes, b"vault", b"bob-2", &PROGRAM_ID));
    assert!(!verify_address(&PROGRAM_ID, b"vault", b"alice-1", &PROGRAM_ID));
}
