//! The access-control state machine: given a record and a supplied input,
//! decide grant, denial, unlock or refused recovery, and mutate the record's
//! counter and last-access time in place.
//!
//! A record with fewer than `LOCKOUT_THRESHOLD` failed attempts is in the
//! normal state and the input is read as a claimed secret code; once the
//! counter has reached the threshold the record is locked and the input is
//! read as a claimed answer to the recovery question.

use vstd::prelude::*;
use crate::clock::{current_timestamp, ts_renderable, TS_RENDER_LIMIT};
use crate::hashing::{hash_secret, hashable, spec_hash};
use crate::record::PersonRecord;
use crate::record::LOCKOUT_THRESHOLD;

verus! {

/// What one gate-access attempt came to.
#[derive(Debug)]
pub enum VerificationOutcome {
    /// The supplied secret hashed to the stored credential: access granted,
    /// the named person passed at the given instant.
    Granted { first_name: String, last_name: String, timestamp: i64 },
    /// The supplied secret did not match: access refused.
    Denied,
    /// The record was locked and the supplied recovery answer was exact:
    /// the record is unlocked again.
    Unlocked,
    /// The record was locked and the supplied recovery answer was wrong:
    /// the record stays locked.
    RecoveryFailed,
}

/// One transition of the state machine, with the two input comparisons
/// abstracted into booleans: `secret_ok` stands for "the supplied secret
/// hashes to the stored credential", `answer_ok` for "the supplied text
/// equals the recovery answer verbatim".
///
/// In the normal state only `secret_ok` is consulted; while locked only
/// `answer_ok` is. Identity, credential and recovery fields never move.
pub open spec fn step(
    pre: PersonRecord,
    secret_ok: bool,
    answer_ok: bool,
    now: i64,
    post: PersonRecord,
    out: VerificationOutcome,
) -> bool {
    &&& post.last_name == pre.last_name
    &&& post.first_name == pre.first_name
    &&& post.badge_id == pre.badge_id
    &&& post.credential_hash == pre.credential_hash
    &&& post.recovery_question == pre.recovery_question
    &&& post.recovery_answer == pre.recovery_answer
    &&& if !pre.spec_is_locked() {
        if secret_ok {
            &&& (out matches VerificationOutcome::Granted { first_name, last_name, timestamp }
                && first_name == pre.first_name && last_name == pre.last_name && timestamp == now)
            &&& post.failed_attempts == 0
            &&& post.last_access == Some(now)
        } else {
            &&& out is Denied
            &&& post.failed_attempts == pre.failed_attempts + 1
            &&& post.last_access == pre.last_access
        }
    } else {
        if answer_ok {
            &&& out is Unlocked
            &&& post.failed_attempts == 0
            &&& post.last_access == pre.last_access
        } else {
            &&& out is RecoveryFailed
            &&& post.failed_attempts == pre.failed_attempts
            &&& post.last_access == pre.last_access
        }
    }
}

/// The full transition relation on a supplied input string: `step` with its
/// booleans fixed to the real comparisons. The secret check is on hash
/// digests; the recovery check is raw string equality.
pub open spec fn verify_rel(
    pre: PersonRecord,
    input: Seq<char>,
    now: i64,
    post: PersonRecord,
    out: VerificationOutcome,
) -> bool {
    step(
        pre,
        spec_hash(input) == pre.credential_hash@,
        input == pre.recovery_answer@,
        now,
        post,
        out,
    )
}

/// Decide one gate-access attempt against `record` as of instant `now`,
/// mutating the record in place.
pub fn verify_at(record: &mut PersonRecord, input: &str, now: i64) -> (out: VerificationOutcome)
    requires
        old(record).wf(),
        ts_renderable(now as int),
        hashable(input@),
    ensures
        final(record).wf(),
        verify_rel(*old(record), input@, now, *final(record), out),
{
    if record.failed_attempts < LOCKOUT_THRESHOLD {
        let supplied = hash_secret(input);
        if supplied == record.credential_hash {
            record.failed_attempts = 0;
            record.last_access = Some(now);
            VerificationOutcome::Granted {
                first_name: record.first_name.clone(),
                last_name: record.last_name.clone(),
                timestamp: now,
            }
        } else {
            record.failed_attempts = record.failed_attempts + 1;
            VerificationOutcome::Denied
        }
    } else {
        let supplied = input.to_owned();
        if supplied == record.recovery_answer {
            record.failed_attempts = 0;
            VerificationOutcome::Unlocked
        } else {
            VerificationOutcome::RecoveryFailed
        }
    }
}

/// Decide one gate-access attempt as of the system clock's current reading.
/// `None` is returned, and nothing moves, in the one case the library cannot
/// decide: a clock reading past the renderable range of instants.
pub fn verify_now(record: &mut PersonRecord, input: &str) -> (r: Option<VerificationOutcome>)
    requires
        old(record).wf(),
        hashable(input@),
    ensures
        final(record).wf(),
        (r matches Some(out) ==> exists|now: i64|
            ts_renderable(now as int) && #[trigger] verify_rel(
                *old(record),
                input@,
                now,
                *final(record),
                out,
            )),
        r is None ==> *final(record) == *old(record),
{
    let now = current_timestamp();
    if now < TS_RENDER_LIMIT {
        let out = verify_at(record, input, now);
        Some(out)
    } else {
        None
    }
}

/// On an unlocked record a matching secret is granted: the counter resets,
/// the pass is recorded at the given instant, and the outcome names the
/// person and that instant. Together with the determinism of hashing, this
/// is what entitles a freshly enrolled person to enter with their own secret.
pub proof fn lemma_matching_secret_grants(
    pre: PersonRecord,
    answer_ok: bool,
    now: i64,
    post: PersonRecord,
    out: VerificationOutcome,
)
    requires
        !pre.spec_is_locked(),
        step(pre, true, answer_ok, now, post, out),
    ensures
        (out matches VerificationOutcome::Granted { first_name, last_name, timestamp }
            && first_name == pre.first_name && last_name == pre.last_name && timestamp == now),
        post.failed_attempts == 0,
        !post.spec_is_locked(),
        post.last_access == Some(now),
{
}

/// On an unlocked record a non-matching secret is denied: the counter grows
/// by one and the recorded access stays. A credential update followed by a
/// check with the stale secret lands here, since the stale hash no longer
/// matches the stored one.
pub proof fn lemma_wrong_secret_denied(
    pre: PersonRecord,
    answer_ok: bool,
    now: i64,
    post: PersonRecord,
    out: VerificationOutcome,
)
    requires
        !pre.spec_is_locked(),
        step(pre, false, answer_ok, now, post, out),
    ensures
        out is Denied,
        post.failed_attempts == pre.failed_attempts + 1,
        post.last_access == pre.last_access,
{
}

/// Enrolling with a secret and then verifying with that very secret is
/// granted: the stored credential is the hash of the secret, and hashing is
/// deterministic, so the comparison cannot miss.
pub proof fn lemma_enroll_then_verify_grants(
    pre: PersonRecord,
    secret: Seq<char>,
    now: i64,
    post: PersonRecord,
    out: VerificationOutcome,
)
    requires
        !pre.spec_is_locked(),
        pre.credential_hash@ == spec_hash(secret),
        verify_rel(pre, secret, now, post, out),
    ensures
        (out matches VerificationOutcome::Granted { first_name, last_name, timestamp }
            && first_name == pre.first_name && last_name == pre.last_name && timestamp == now),
        post.failed_attempts == 0,
        post.last_access == Some(now),
{
}

/// After a credential update, the stale secret is denied. Only a collision
/// of the two secrets' digests could defeat this, which the hash's collision
/// resistance makes overwhelmingly improbable but no proof can exclude: that
/// case is left out by hypothesis.
pub proof fn lemma_stale_secret_denied(
    pre: PersonRecord,
    stale_secret: Seq<char>,
    new_secret: Seq<char>,
    now: i64,
    post: PersonRecord,
    out: VerificationOutcome,
)
    requires
        !pre.spec_is_locked(),
        pre.credential_hash@ == spec_hash(new_secret),
        spec_hash(stale_secret) != spec_hash(new_secret),
        verify_rel(pre, stale_secret, now, post, out),
    ensures
        out is Denied,
        post.failed_attempts == pre.failed_attempts + 1,
        post.last_access == pre.last_access,
{
}

/// Three wrong secrets in a row on a fresh record: three denials, and the
/// record ends locked with the counter at the threshold.
pub proof fn lemma_three_failures_lock(
    r0: PersonRecord,
    a1: bool,
    a2: bool,
    a3: bool,
    t1: i64,
    t2: i64,
    t3: i64,
    r1: PersonRecord,
    r2: PersonRecord,
    r3: PersonRecord,
    o1: VerificationOutcome,
    o2: VerificationOutcome,
    o3: VerificationOutcome,
)
    requires
        r0.failed_attempts == 0,
        step(r0, false, a1, t1, r1, o1),
        step(r1, false, a2, t2, r2, o2),
        step(r2, false, a3, t3, r3, o3),
    ensures
        o1 is Denied,
        o2 is Denied,
        o3 is Denied,
        r3.failed_attempts == LOCKOUT_THRESHOLD,
        r3.spec_is_locked(),
{
}

/// Once locked, no call is a secret check any more: whatever the two
/// comparisons say, the outcome is an unlock or a refused recovery, never a
/// grant or an ordinary denial.
pub proof fn lemma_locked_call_is_recovery(
    pre: PersonRecord,
    secret_ok: bool,
    answer_ok: bool,
    now: i64,
    post: PersonRecord,
    out: VerificationOutcome,
)
    requires
        pre.spec_is_locked(),
        step(pre, secret_ok, answer_ok, now, post, out),
    ensures
        !(out is Granted),
        !(out is Denied),
        answer_ok <==> out is Unlocked,
        !answer_ok <==> out is RecoveryFailed,
{
}

/// While locked, the exact recovery answer unlocks the record and resets the
/// counter to zero; any other answer is refused and the record — counter at
/// the threshold included — stays exactly as it was.
pub proof fn lemma_recovery(
    pre: PersonRecord,
    secret_ok: bool,
    answer_ok: bool,
    now: i64,
    post: PersonRecord,
    out: VerificationOutcome,
)
    requires
        pre.wf(),
        pre.spec_is_locked(),
        step(pre, secret_ok, answer_ok, now, post, out),
    ensures
        answer_ok ==> out is Unlocked && post.failed_attempts == 0 && !post.spec_is_locked(),
        !answer_ok ==> out is RecoveryFailed && post == pre && post.failed_attempts
            == LOCKOUT_THRESHOLD,
{
}

} // verus!
