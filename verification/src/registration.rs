//! The registration coordinator: admits one participant into a session as a
//! single logical unit, collecting the entry fee, checking uniqueness,
//! funding the growth of the persistent record, and appending the entry.

use vstd::prelude::*;

use crate::ledger::{transfer, LedgerAccount, TransferError};
use crate::session::{
    min_balance_spec, minimum_persistent_balance, roster_has, ParticipantEntry, RentPolicy,
    Session, PARTICIPANT_ENTRY_SIZE,
};

verus! {

/// How a completed registration ended. `AlreadyRegistered` is a normal
/// outcome, not an error: the roster is untouched, though the entry fee has
/// been collected (a documented quirk, see `register`).
#[derive(Clone, Copy, Debug, PartialEq, Eq, Structural)]
pub enum RegistrationOutcome {
    Admitted,
    AlreadyRegistered,
}

/// Why a registration failed. Transfer failures wrap the ledger's own error;
/// `StorageGrowthFailed` marks the fatal case of a record that could not be
/// resized to hold a committed entry.
#[derive(Clone, Copy, Debug, PartialEq, Eq, Structural)]
pub enum RegistrationError {
    FeeTransferFailed(TransferError),
    GrowthFundingFailed(TransferError),
    StorageGrowthFailed,
}

/// Both account references used by a registration resolve to live accounts.
pub open spec fn accounts_valid(funder: LedgerAccount, escrow: LedgerAccount) -> bool {
    funder.initialized && escrow.initialized
}

/// The entry-fee transfer will go through: valid accounts and a funding
/// balance that covers the fee.
pub open spec fn fee_payable(funder: LedgerAccount, escrow: LedgerAccount, fee: u64) -> bool {
    accounts_valid(funder, escrow) && funder.balance >= fee
}

/// The record size after one more roster entry.
pub open spec fn grown_size(s: Session) -> int {
    s.record_size + PARTICIPANT_ENTRY_SIZE
}

/// The least balance the escrow must hold once the record has grown by one
/// entry.
pub open spec fn required_balance(policy: RentPolicy, s: Session) -> int {
    min_balance_spec(policy, grown_size(s))
}

/// The top-up a first-time admission transfers: what the grown record
/// requires beyond the escrow balance held when the operation began, never
/// negative. The fee collected in the first step is pooled for payout and
/// does not offset this amount.
pub open spec fn growth_top_up(policy: RentPolicy, s: Session, escrow_balance_at_entry: u64) -> int {
    if required_balance(policy, s) > escrow_balance_at_entry {
        required_balance(policy, s) - escrow_balance_at_entry
    } else {
        0
    }
}

/// Admit `participant` into `session`, as a single logical unit:
///
/// 1. move the entry fee from `funder` to `escrow`;
/// 2. scan the roster for `participant`, completing with
///    `AlreadyRegistered` if present — the fee is *not* refunded in that
///    path, a deliberate if harsh policy: re-joining costs the fee;
/// 3. move the growth top-up from `funder` to `escrow`, assessed against the
///    escrow balance held at entry to the operation;
/// 4. grow the record by one entry's size and append a fresh entry.
///
/// The steps are not compensated: a registration that fails at step 3 keeps
/// the fee collected at step 1. A failed registration never modifies the
/// roster or the record size.
pub fn register(
    participant: u64,
    session: &mut Session,
    escrow: &mut LedgerAccount,
    funder: &mut LedgerAccount,
    policy: &RentPolicy,
) -> (r: Result<RegistrationOutcome, RegistrationError>)
    requires
        old(session).wf(),
        old(escrow).balance + old(session).entry_fee <= u64::MAX,
        grown_size(*old(session)) <= u64::MAX,
        required_balance(*policy, *old(session)) + old(session).entry_fee <= u64::MAX,
    ensures
        // The session's identity fields and the accounts' liveness never
        // change.
        final(session).admin_id == old(session).admin_id,
        final(session).session_code == old(session).session_code,
        final(session).entry_fee == old(session).entry_fee,
        final(session).escrow_ref == old(session).escrow_ref,
        final(escrow).initialized == old(escrow).initialized,
        final(funder).initialized == old(funder).initialized,
        // Well-formedness is preserved and the record never shrinks.
        final(session).wf(),
        final(session).record_size >= old(session).record_size,
        // Membership only grows, and only by the acting participant.
        forall|q: u64|
            roster_has(old(session).participants@, q) ==> roster_has(
                final(session).participants@,
                q,
            ),
        forall|q: u64|
            q != participant ==> roster_has(final(session).participants@, q) == roster_has(
                old(session).participants@,
                q,
            ),
        // Invalid accounts: refused before any effect.
        !accounts_valid(*old(funder), *old(escrow)) ==> {
            &&& r == Err::<RegistrationOutcome, RegistrationError>(
                RegistrationError::FeeTransferFailed(TransferError::AccountInvalid),
            )
            &&& final(session).participants@ == old(session).participants@
            &&& final(session).record_size == old(session).record_size
            &&& final(escrow).balance == old(escrow).balance
            &&& final(funder).balance == old(funder).balance
        },
        // Fee not covered: refused before any effect.
        (accounts_valid(*old(funder), *old(escrow)) && old(funder).balance < old(
            session,
        ).entry_fee) ==> {
            &&& r == Err::<RegistrationOutcome, RegistrationError>(
                RegistrationError::FeeTransferFailed(TransferError::InsufficientFunds),
            )
            &&& final(session).participants@ == old(session).participants@
            &&& final(session).record_size == old(session).record_size
            &&& final(escrow).balance == old(escrow).balance
            &&& final(funder).balance == old(funder).balance
        },
        // Already on the roster: the fee has moved, nothing else.
        (fee_payable(*old(funder), *old(escrow), old(session).entry_fee) && roster_has(
            old(session).participants@,
            participant,
        )) ==> {
            &&& r == Ok::<RegistrationOutcome, RegistrationError>(
                RegistrationOutcome::AlreadyRegistered,
            )
            &&& final(session).participants@ == old(session).participants@
            &&& final(session).record_size == old(session).record_size
            &&& final(escrow).balance == old(escrow).balance + old(session).entry_fee
            &&& final(funder).balance == old(funder).balance - old(session).entry_fee
        },
        // Top-up not covered: the fee has moved, the roster is untouched.
        (fee_payable(*old(funder), *old(escrow), old(session).entry_fee) && !roster_has(
            old(session).participants@,
            participant,
        ) && old(funder).balance - old(session).entry_fee < growth_top_up(
            *policy,
            *old(session),
            old(escrow).balance,
        )) ==> {
            &&& r == Err::<RegistrationOutcome, RegistrationError>(
                RegistrationError::GrowthFundingFailed(TransferError::InsufficientFunds),
            )
            &&& final(session).participants@ == old(session).participants@
            &&& final(session).record_size == old(session).record_size
            &&& final(escrow).balance == old(escrow).balance + old(session).entry_fee
            &&& final(funder).balance == old(funder).balance - old(session).entry_fee
        },
        // First-time admission: exactly two debits, one appended entry, a
        // record one entry larger, and a solvent escrow.
        (fee_payable(*old(funder), *old(escrow), old(session).entry_fee) && !roster_has(
            old(session).participants@,
            participant,
        ) && old(funder).balance - old(session).entry_fee >= growth_top_up(
            *policy,
            *old(session),
            old(escrow).balance,
        )) ==> {
            &&& r == Ok::<RegistrationOutcome, RegistrationError>(RegistrationOutcome::Admitted)
            &&& final(session).participants@ == old(session).participants@.push(
                ParticipantEntry { identity: participant, correct_count: 0, completion_time: 0 },
            )
            &&& roster_has(final(session).participants@, participant)
            &&& final(session).record_size == grown_size(*old(session))
            &&& final(escrow).balance == old(escrow).balance + old(session).entry_fee
                + growth_top_up(*policy, *old(session), old(escrow).balance)
            &&& final(escrow).balance >= required_balance(*policy, *old(session))
            &&& final(funder).balance == old(funder).balance - old(session).entry_fee
                - growth_top_up(*policy, *old(session), old(escrow).balance)
        },
        // Admission order is preserved: whatever the outcome, every entry
        // already on the roster keeps its position.
        forall|i: int|
            0 <= i < old(session).participants@.len() ==> final(session).participants@[i] == old(
                session,
            ).participants@[i],
        // The record is always large enough to resize in place: growth
        // itself never fails here.
        r != Err::<RegistrationOutcome, RegistrationError>(RegistrationError::StorageGrowthFailed),
        // An escrow that met the minimum for the current record keeps
        // meeting it, whatever the outcome.
        old(escrow).balance >= min_balance_spec(*policy, old(session).record_size as int)
            ==> final(escrow).balance >= min_balance_spec(
            *policy,
            final(session).record_size as int,
        ),
{
    let escrow_balance_at_entry = escrow.balance;
    match transfer(funder, escrow, session.entry_fee) {
        Ok(()) => {},
        Err(e) => {
            return Err(RegistrationError::FeeTransferFailed(e));
        },
    }
    if session.roster_contains(participant) {
        return Ok(RegistrationOutcome::AlreadyRegistered);
    }
    let new_size = session.record_size + PARTICIPANT_ENTRY_SIZE;
    let required = minimum_persistent_balance(policy, new_size);
    let top_up = if required > escrow_balance_at_entry {
        required - escrow_balance_at_entry
    } else {
        0
    };
    match transfer(funder, escrow, top_up) {
        Ok(()) => {},
        Err(e) => {
            return Err(RegistrationError::GrowthFundingFailed(e));
        },
    }
    let ghost pre = session.participants@;
    session.record_size = new_size;
    session.participants.push(ParticipantEntry::new(participant));
    proof {
        let t = session.participants@;
        assert forall|i: int, j: int| 0 <= i < j < t.len() implies t[i].identity
            != t[j].identity by {
            if j < t.len() - 1 {
                assert(pre[i].identity != pre[j].identity);
            } else {
                assert(t[i] == pre[i]);
                assert(!roster_has(pre, participant));
            }
        }
        assert(t[t.len() - 1].identity == participant);
        assert(roster_has(t, participant));
        assert forall|q: u64| roster_has(pre, q) implies roster_has(t, q) by {
            let i = choose|i: int| 0 <= i < pre.len() && pre[i].identity == q;
            assert(t[i] == pre[i]);
        }
        assert forall|q: u64| q != participant && roster_has(t, q) implies roster_has(pre, q) by {
            let i = choose|i: int| 0 <= i < t.len() && t[i].identity == q;
            assert(i < t.len() - 1);
            assert(pre[i] == t[i]);
        }
    }
    Ok(RegistrationOutcome::Admitted)
}

} // verus!

