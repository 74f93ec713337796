use sep41::auth::AuthGate;
use sep41::model::LedgerError;

#[test]
fn deny_all_lets_nobody_pass() {
    let gate = AuthGate::deny_all();
    assert!(!gate.permits(0));
    assert!(!gate.permits(7));
    assert_eq!(gate.require(7), Err(LedgerError::Unauthorized));
}

#[test]
fn allow_all_lets_everybody_pass() {
    let gate = AuthGate::allow_all();
    assert!(gate.permits(0));
    assert!(gate.permits(u64::MAX));
    assert_eq!(gate.require(7), Ok(()));
}

#[test]
fn signed_by_lets_the_signers_pass() {
    let gate = AuthGate::signed_by(vec![3, 5, 3]);
    assert!(gate.permits(3));
    assert!(gate.permits(5));
    assert!(!gate.permits(4));
    assert_eq!(gate.require(5), Ok(()));
    assert_eq!(gate.require(4), Err(LedgerError::Unauthorized));
}

#[test]
fn signed_by_nobody_lets_nobody_pass() {
    let gate = AuthGate::signed_by(vec![]);
    assert!(!gate.permits(0));
    assert_eq!(gate.require(0), Err(LedgerError::Unauthorized));
}
