//! Escrow ledger adapter: the value-transfer primitive the registration
//! coordinator builds on. A transfer moves a fixed amount between two
//! accounts atomically, or fails without any partial effect.

use vstd::prelude::*;

verus! {

/// Why a transfer was refused. Both conditions are terminal for the calling
/// operation: the coordinator never retries.
#[derive(Clone, Copy, Debug, PartialEq, Eq, Structural)]
pub enum TransferError {
    /// The source account cannot cover the requested amount.
    InsufficientFunds,
    /// One of the account references is malformed or uninitialized.
    AccountInvalid,
}

/// A passive value-holding account on the ledger, in the smallest currency
/// unit. `initialized` models whether the reference resolves to a live
/// account; a transfer touching an uninitialized account is refused.
#[derive(Clone, Copy, Debug, PartialEq, Eq, Structural)]
pub struct LedgerAccount {
    pub balance: u64,
    pub initialized: bool,
}

impl LedgerAccount {
    /// A live account holding `balance`.
    pub fn new(balance: u64) -> (r: LedgerAccount)
        ensures
            r.balance == balance,
            r.initialized,
    {
        LedgerAccount { balance, initialized: true }
    }
}

/// Move `amount` from `from` to `to`, atomically: on success the full amount
/// has moved, on failure both balances are unchanged. Account validity is
/// checked before funds, so an uninitialized account is reported as
/// `AccountInvalid` even when funds would also be short.
pub fn transfer(from: &mut LedgerAccount, to: &mut LedgerAccount, amount: u64) -> (r: Result<
    (),
    TransferError,
>)
    requires
        old(to).balance + amount <= u64::MAX,
    ensures
        final(from).initialized == old(from).initialized,
        final(to).initialized == old(to).initialized,
        (!old(from).initialized || !old(to).initialized) ==> r == Err::<(), TransferError>(
            TransferError::AccountInvalid,
        ),
        (old(from).initialized && old(to).initialized && old(from).balance < amount) ==> r
            == Err::<(), TransferError>(TransferError::InsufficientFunds),
        (old(from).initialized && old(to).initialized && old(from).balance >= amount) ==> r
            == Ok::<(), TransferError>(()),
        r is Ok ==> {
            &&& final(from).balance == old(from).balance - amount
            &&& final(to).balance == old(to).balance + amount
        },
        r is Err ==> {
            &&& final(from).balance == old(from).balance
            &&& final(to).balance == old(to).balance
        },
{
    if !from.initialized || !to.initialized {
        return Err(TransferError::AccountInvalid);
    }
    if from.balance < amount {
        return Err(TransferError::InsufficientFunds);
    }
    from.balance = from.balance - amount;
    to.balance = to.balance + amount;
    Ok(())
}

} // verus!
