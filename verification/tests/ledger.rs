use twizzin_be::ledger::{transfer, LedgerAccount, TransferError};

#[test]
fn transfer_moves_the_full_amount() {
    let mut from = LedgerAccount::new(500);
    let mut to = LedgerAccount::new(70);
    let r = transfer(&mut from, &mut to, 120);
    assert_eq!(r, Ok(()));
    assert_eq!(from.balance, 380);
    assert_eq!(to.balance, 190);
}

#[test]
fn transfer_of_zero_succeeds_and_moves_nothing() {
    let mut from = LedgerAccount::new(0);
    let mut to = LedgerAccount::new(25);
    let r = transfer(&mut from, &mut to, 0);
    assert_eq!(r, Ok(()));
    assert_eq!(from.balance, 0);
    assert_eq!(to.balance, 25);
}

#[test]
fn transfer_insufficient_funds_changes_nothing() {
    let mut from = LedgerAccount::new(99);
    let mut to = LedgerAccount::new(1);
    let r = transfer(&mut from, &mut to, 100);
    assert_eq!(r, Err(TransferError::InsufficientFunds));
    assert_eq!(from.balance, 99);
    assert_eq!(to.balance, 1);
}

#[test]
fn transfer_from_uninitialized_account_is_invalid() {
    let mut from = LedgerAccount { balance: 1000, initialized: false };
    let mut to = LedgerAccount::new(0);
    let r = transfer(&mut from, &mut to, 10);
    assert_eq!(r, Err(TransferError::AccountInvalid));
    assert_eq!(from.balance, 1000);
    assert_eq!(to.balance, 0);
}

#[test]
fn transfer_to_uninitialized_account_is_invalid() {
    let mut from = LedgerAccount::new(1000);
    let mut to = LedgerAccount { balance: 0, initialized: false };
    let r = transfer(&mut from, &mut to, 10);
    assert_eq!(r, Err(TransferError::AccountInvalid));
    assert_eq!(from.balance, 1000);
    assert_eq!(to.balance, 0);
}

#[test]
fn invalid_account_reported_before_insufficient_funds() {
    let mut from = LedgerAccount { balance: 0, initialized: false };
    let mut to = LedgerAccount::new(0);
    let r = transfer(&mut from, &mut to, 50);
    assert_eq!(r, Err(TransferError::AccountInvalid));
}
