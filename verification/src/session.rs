//! The game session record: its roster of participant entries, the byte size
//! of its persistent storage region, and the minimum-balance rule that the
//! region's backing account must satisfy to persist.

use vstd::prelude::*;

verus! {

/// Fixed byte cost of one roster entry in the persistent record.
pub const PARTICIPANT_ENTRY_SIZE: u64 = 48;

/// One element of a session's roster. The identity is fixed at admission;
/// the counter and the timestamp start at their sentinel values and are only
/// touched by scoring logic outside this core.
#[derive(Clone, Copy, Debug, PartialEq, Eq, Structural)]
pub struct ParticipantEntry {
    pub identity: u64,
    pub correct_count: u64,
    pub completion_time: u64,
}

impl ParticipantEntry {
    /// A fresh entry for `identity`: zero correct answers, completion
    /// timestamp at the "not finished" sentinel of zero.
    pub fn new(identity: u64) -> (r: ParticipantEntry)
        ensures
            r == (ParticipantEntry { identity, correct_count: 0, completion_time: 0 }),
    {
        ParticipantEntry { identity, correct_count: 0, completion_time: 0 }
    }
}

/// The external minimum-balance rule, injected as data: a record of
/// `size` bytes must hold at least `base + per_byte * size` to persist.
#[derive(Clone, Copy, Debug, PartialEq, Eq, Structural)]
pub struct RentPolicy {
    pub base: u64,
    pub per_byte: u64,
}

/// The least balance a record of `size` bytes must hold under `policy`.
pub open spec fn min_balance_spec(policy: RentPolicy, size: int) -> int {
    policy.base + policy.per_byte * size
}

/// Query the minimum-balance rule for a record of `size` bytes.
pub fn minimum_persistent_balance(policy: &RentPolicy, size: u64) -> (r: u64)
    requires
        min_balance_spec(*policy, size as int) <= u64::MAX,
    ensures
        r == min_balance_spec(*policy, size as int),
{
    policy.base + policy.per_byte * size
}

/// Whether the roster holds an entry for `id`.
pub open spec fn roster_has(s: Seq<ParticipantEntry>, id: u64) -> bool {
    exists|i: int| 0 <= i < s.len() && s[i].identity == id
}

/// How many roster entries carry `id`.
pub open spec fn roster_count(s: Seq<ParticipantEntry>, id: u64) -> nat
    decreases s.len(),
{
    if s.len() == 0 {
        0
    } else {
        roster_count(s.drop_last(), id) + if s.last().identity == id {
            1nat
        } else {
            0nat
        }
    }
}

/// No two roster entries share an identity.
pub open spec fn roster_distinct(s: Seq<ParticipantEntry>) -> bool {
    forall|i: int, j: int| 0 <= i < j < s.len() ==> s[i].identity != s[j].identity
}

/// One game instance: administrator, session code, fixed entry fee, the
/// escrow account reference, the byte size of the persistent record, and the
/// roster in admission order.
#[derive(Debug)]
pub struct Session {
    pub admin_id: u64,
    pub session_code: u64,
    pub entry_fee: u64,
    pub escrow_ref: u64,
    pub record_size: u64,
    pub participants: Vec<ParticipantEntry>,
}

impl Session {
    /// Well-formedness: no participant is registered twice, and the stored
    /// record is at least as large as the roster implies.
    pub open spec fn wf(self) -> bool {
        &&& roster_distinct(self.participants@)
        &&& self.record_size >= PARTICIPANT_ENTRY_SIZE * self.participants@.len()
    }

    /// A fresh session with an empty roster, stored in `record_size` bytes.
    pub fn new(admin_id: u64, session_code: u64, entry_fee: u64, escrow_ref: u64, record_size: u64) -> (r:
        Session)
        ensures
            r.wf(),
            r.admin_id == admin_id,
            r.session_code == session_code,
            r.entry_fee == entry_fee,
            r.escrow_ref == escrow_ref,
            r.record_size == record_size,
            r.participants@ =~= Seq::<ParticipantEntry>::empty(),
    {
        Session {
            admin_id,
            session_code,
            entry_fee,
            escrow_ref,
            record_size,
            participants: Vec::new(),
        }
    }

    /// Linear scan of the roster, in roster order, for `id`.
    pub fn roster_contains(&self, id: u64) -> (r: bool)
        ensures
            r == roster_has(self.participants@, id),
    {
        let mut i: usize = 0;
        while i < self.participants.len()
            invariant
                0 <= i <= self.participants@.len(),
                forall|k: int| 0 <= k < i ==> self.participants@[k].identity != id,
            decreases self.participants@.len() - i,
        {
            if self.participants[i].identity == id {
                return true;
            }
            i = i + 1;
        }
        false
    }
}

/// Distinctness is kept when the last entry is dropped.
proof fn lemma_distinct_drop_last(s: Seq<ParticipantEntry>)
    requires
        s.len() > 0,
        roster_distinct(s),
    ensures
        roster_distinct(s.drop_last()),
{
}

/// A well-formed roster holds at most one entry per identity: exactly one
/// once a participant is present, none before.
pub proof fn lemma_membership_unique(s: Seq<ParticipantEntry>, id: u64)
    requires
        roster_distinct(s),
    ensures
        roster_has(s, id) ==> roster_count(s, id) == 1,
        !roster_has(s, id) ==> roster_count(s, id) == 0,
    decreases s.len(),
{
    if s.len() > 0 {
        lemma_distinct_drop_last(s);
        lemma_membership_unique(s.drop_last(), id);
        if s.last().identity == id {
            assert(!roster_has(s.drop_last(), id)) by {
                assert forall|i: int| 0 <= i < s.len() - 1 implies s[i].identity != id by {
                    assert(s[i].identity != s[s.len() - 1].identity);
                }
            }
            assert(roster_has(s, id));
        } else {
            if roster_has(s, id) {
                let i = choose|i: int| 0 <= i < s.len() && s[i].identity == id;
                assert(i < s.len() - 1);
                assert(s.drop_last()[i] == s[i]);
                assert(roster_has(s.drop_last(), id));
            }
            if roster_has(s.drop_last(), id) {
                let i = choose|i: int| 0 <= i < s.drop_last().len() && s.drop_last()[i].identity
                    == id;
                assert(s[i].identity == id);
            }
        }
    }
}

} // verus!
