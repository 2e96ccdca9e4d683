//! The roster: an ordered collection of person records, keyed by badge
//! number. It owns lookup, enrollment, removal and credential update, and
//! hands records to the access controller one call at a time.

use vstd::prelude::*;
use crate::controller::{verify_at, verify_rel, VerificationOutcome};
use crate::hashing::{hashable, spec_hash};
use crate::record::PersonRecord;

verus! {

/// Why a roster operation could not be carried out.
#[derive(Debug, PartialEq, Eq, Structural)]
pub enum RosterError {
    /// No record carries the given badge number.
    NotFound,
    /// A record with the given badge number is already enrolled.
    DuplicateBadge,
}

/// Does some record in `rs` carry badge number `badge`?
pub open spec fn spec_contains(rs: Seq<PersonRecord>, badge: u32) -> bool {
    exists|i: int| 0 <= i < rs.len() && rs[i].badge_id == badge
}

/// An ordered roster of person records, each badge number held at most once.
pub struct Roster {
    records: Vec<PersonRecord>,
}

impl View for Roster {
    type V = Seq<PersonRecord>;

    closed spec fn view(&self) -> Seq<PersonRecord> {
        self.records@
    }
}

impl Roster {
    /// Roster invariant: every record is well-formed and no badge number
    /// appears twice.
    pub open spec fn inv(self) -> bool {
        &&& forall|i: int| 0 <= i < self@.len() ==> (#[trigger] self@[i]).wf()
        &&& forall|i: int, j: int|
            0 <= i < j < self@.len() ==> self@[i].badge_id != self@[j].badge_id
    }

    /// An empty roster.
    pub fn new() -> (r: Roster)
        ensures
            r.inv(),
            r@.len() == 0,
    {
        Roster { records: Vec::new() }
    }

    pub fn len(&self) -> (n: usize)
        ensures
            n == self@.len(),
    {
        self.records.len()
    }

    /// Shared access to the record at position `k` in roster order.
    pub fn get_at(&self, k: usize) -> (r: &PersonRecord)
        requires
            k < self@.len(),
        ensures
            *r == self@[k as int],
    {
        &self.records[k]
    }

    /// The position of the record carrying `badge`, if any.
    fn find_index(&self, badge: u32) -> (r: Option<usize>)
        ensures
            (r matches Some(i) ==> i < self@.len() && self@[i as int].badge_id == badge),
            r is None ==> !spec_contains(self@, badge),
    {
        let n = self.records.len();
        let mut k: usize = 0;
        while k < n
            invariant
                n == self@.len(),
                k <= n,
                forall|j: int| 0 <= j < k ==> self@[j].badge_id != badge,
            decreases n - k,
        {
            if self.records[k].badge_id == badge {
                return Some(k);
            }
            k = k + 1;
        }
        None
    }

    /// Shared access to the record carrying `badge`, if any.
    pub fn get(&self, badge: u32) -> (r: Option<&PersonRecord>)
        ensures
            (r matches Some(p) ==> exists|i: int|
                0 <= i < self@.len() && self@[i] == *p && p.badge_id == badge),
            r is None ==> !spec_contains(self@, badge),
    {
        match self.find_index(badge) {
            Some(i) => Some(&self.records[i]),
            None => None,
        }
    }

    /// Enroll a new person. Refused, and the roster left as it was, when the
    /// badge number is already taken; otherwise the new record — secret
    /// hashed, counter at zero, no access yet — is appended in roster order.
    pub fn enroll(
        &mut self,
        last_name: String,
        first_name: String,
        badge_id: u32,
        secret: &str,
        recovery_question: String,
        recovery_answer: String,
    ) -> (r: Result<(), RosterError>)
        requires
            old(self).inv(),
            hashable(secret@),
        ensures
            final(self).inv(),
            spec_contains(old(self)@, badge_id) ==> r == Err::<(), RosterError>(
                RosterError::DuplicateBadge,
            ) && final(self)@ == old(self)@,
            !spec_contains(old(self)@, badge_id) ==> r is Ok && final(self)@.len() == old(
                self,
            )@.len() + 1 && final(self)@.drop_last() == old(self)@ && (final(self)@.last()
                == (PersonRecord {
                last_name: last_name,
                first_name: first_name,
                badge_id: badge_id,
                credential_hash: final(self)@.last().credential_hash,
                recovery_question: recovery_question,
                recovery_answer: recovery_answer,
                last_access: None,
                failed_attempts: 0,
            })) && final(self)@.last().credential_hash@ == spec_hash(secret@),
    {
        match self.find_index(badge_id) {
            Some(_) => Err(RosterError::DuplicateBadge),
            None => {
                let record = PersonRecord::enroll(
                    last_name,
                    first_name,
                    badge_id,
                    secret,
                    recovery_question,
                    recovery_answer,
                );
                self.records.push(record);
                proof {
                    assert(self@.drop_last() =~= old(self)@);
                }
                Ok(())
            },
        }
    }

    /// Remove the record carrying `badge`. When no record does, the roster —
    /// its size included — is left exactly as it was and the caller is told
    /// so.
    pub fn remove(&mut self, badge: u32) -> (r: Result<(), RosterError>)
        requires
            old(self).inv(),
        ensures
            final(self).inv(),
            !spec_contains(old(self)@, badge) ==> r == Err::<(), RosterError>(
                RosterError::NotFound,
            ) && final(self)@ == old(self)@,
            spec_contains(old(self)@, badge) ==> r is Ok && (exists|i: int|
                0 <= i < old(self)@.len() && old(self)@[i].badge_id == badge && final(self)@ == old(
                    self,
                )@.remove(i)),
    {
        match self.find_index(badge) {
            Some(i) => {
                self.records.remove(i);
                Ok(())
            },
            None => Err(RosterError::NotFound),
        }
    }

    /// Replace the credential of the record carrying `badge` with the hash
    /// of a new secret; every other field of it, and every other record,
    /// stays as it was.
    pub fn set_credential(&mut self, badge: u32, new_secret: &str) -> (r: Result<
        (),
        RosterError,
    >)
        requires
            old(self).inv(),
            hashable(new_secret@),
        ensures
            final(self).inv(),
            !spec_contains(old(self)@, badge) ==> r == Err::<(), RosterError>(
                RosterError::NotFound,
            ) && final(self)@ == old(self)@,
            spec_contains(old(self)@, badge) ==> r is Ok && (exists|i: int|
                0 <= i < old(self)@.len() && old(self)@[i].badge_id == badge && final(self)@
                    == old(self)@.update(i, final(self)@[i]) && (final(self)@[i]
                    == (PersonRecord {
                    credential_hash: final(self)@[i].credential_hash,
                    ..old(self)@[i]
                })) && final(self)@[i].credential_hash@ == spec_hash(new_secret@)),
    {
        match self.find_index(badge) {
            Some(i) => {
                let record = &mut self.records[i];
                record.set_credential(new_secret);
                Ok(())
            },
            None => Err(RosterError::NotFound),
        }
    }

    /// Run one gate-access attempt against the record carrying `badge`, as
    /// of instant `now`. When no record does, nothing moves and the caller
    /// is told so; otherwise that one record steps by the state machine's
    /// transition relation and every other record stays as it was.
    pub fn access(&mut self, badge: u32, input: &str, now: i64) -> (r: Result<
        VerificationOutcome,
        RosterError,
    >)
        requires
            old(self).inv(),
            crate::clock::ts_renderable(now as int),
            hashable(input@),
        ensures
            final(self).inv(),
            !spec_contains(old(self)@, badge) ==> r == Err::<VerificationOutcome, RosterError>(
                RosterError::NotFound,
            ) && final(self)@ == old(self)@,
            spec_contains(old(self)@, badge) ==> (r matches Ok(out) && (exists|i: int|
                0 <= i < old(self)@.len() && old(self)@[i].badge_id == badge && final(self)@
                    == old(self)@.update(i, final(self)@[i]) && verify_rel(
                    old(self)@[i],
                    input@,
                    now,
                    final(self)@[i],
                    out,
                ))),
    {
        match self.find_index(badge) {
            Some(i) => {
                let record = &mut self.records[i];
                let out = verify_at(record, input, now);
                Ok(out)
            },
            None => Err(RosterError::NotFound),
        }
    }
}

} // verus!
