//! The enrolled person record: identity, hashed credential, recovery
//! challenge, last successful access and the failed-attempt counter.

use vstd::prelude::*;
use crate::clock::{format_rfc2822, rfc2822_of, ts_renderable};
use crate::hashing::{hash_secret, hashable, spec_hash};
use crate::text::{dec_of, u32_to_decimal};

verus! {

/// How many consecutive failed secret checks lock a record.
pub const LOCKOUT_THRESHOLD: u8 = 3;

/// One enrolled person. The plaintext secret is never stored: only its
/// hashed form. The recovery answer, by contrast, is stored and compared
/// verbatim, mirroring the asymmetry of the modelled system.
pub struct PersonRecord {
    pub last_name: String,
    pub first_name: String,
    pub badge_id: u32,
    pub credential_hash: String,
    pub recovery_question: String,
    pub recovery_answer: String,
    pub last_access: Option<i64>,
    pub failed_attempts: u8,
}

impl PersonRecord {
    /// Well-formedness: the failure counter never passes the lockout
    /// threshold, and any recorded access time is a renderable instant.
    pub open spec fn wf(self) -> bool {
        &&& self.failed_attempts <= LOCKOUT_THRESHOLD
        &&& (self.last_access matches Some(t) ==> ts_renderable(t as int))
    }

    /// A record is locked once the counter has reached the threshold;
    /// ordinary secret checks are then refused until recovery succeeds.
    pub open spec fn spec_is_locked(self) -> bool {
        self.failed_attempts >= LOCKOUT_THRESHOLD
    }

    pub fn is_locked(&self) -> (locked: bool)
        ensures
            locked == self.spec_is_locked(),
    {
        self.failed_attempts >= LOCKOUT_THRESHOLD
    }

    /// Enroll a person: the secret is hashed once, the counter starts at
    /// zero and no access is recorded yet.
    pub fn enroll(
        last_name: String,
        first_name: String,
        badge_id: u32,
        secret: &str,
        recovery_question: String,
        recovery_answer: String,
    ) -> (r: PersonRecord)
        requires
            hashable(secret@),
        ensures
            r.wf(),
            !r.spec_is_locked(),
            r.last_name == last_name,
            r.first_name == first_name,
            r.badge_id == badge_id,
            r.credential_hash@ == spec_hash(secret@),
            r.recovery_question == recovery_question,
            r.recovery_answer == recovery_answer,
            r.last_access is None,
            r.failed_attempts == 0,
    {
        let credential_hash = hash_secret(secret);
        PersonRecord {
            last_name,
            first_name,
            badge_id,
            credential_hash,
            recovery_question,
            recovery_answer,
            last_access: None,
            failed_attempts: 0,
        }
    }

    /// Replace the credential with the hash of a new secret. The counter,
    /// the recorded access and every other field stay as they were.
    pub fn set_credential(&mut self, new_secret: &str)
        requires
            hashable(new_secret@),
        ensures
            final(self).credential_hash@ == spec_hash(new_secret@),
            final(self).last_name == old(self).last_name,
            final(self).first_name == old(self).first_name,
            final(self).badge_id == old(self).badge_id,
            final(self).recovery_question == old(self).recovery_question,
            final(self).recovery_answer == old(self).recovery_answer,
            final(self).last_access == old(self).last_access,
            final(self).failed_attempts == old(self).failed_attempts,
            old(self).wf() ==> final(self).wf(),
    {
        self.credential_hash = hash_secret(new_secret);
    }
}

/// The text block describing one record, one labelled line per field, closed
/// by a separator line. The credential is shown in its hashed form only.
pub open spec fn spec_record_text(r: PersonRecord) -> Seq<char> {
    "Nom : "@ + r.last_name@ + "\n"@ + "Prénom : "@ + r.first_name@ + "\n"@
        + "Numéro de badge : "@ + dec_of(r.badge_id as int) + "\n"@ + "Code secret : "@
        + r.credential_hash@ + "\n"@ + "Dernier passage : "@ + (match r.last_access {
        Some(t) => rfc2822_of(t as int),
        None => "Aucun"@,
    }) + "\n"@ + "---------------------\n"@
}

impl PersonRecord {
    /// Render the record for listing.
    pub fn record_text(&self) -> (r: String)
        requires
            self.wf(),
        ensures
            r@ == spec_record_text(*self),
    {
        let mut out = "Nom : ".to_owned();
        out.append(self.last_name.as_str());
        out.append("\n");
        out.append("Prénom : ");
        out.append(self.first_name.as_str());
        out.append("\n");
        out.append("Numéro de badge : ");
        let badge = u32_to_decimal(self.badge_id);
        out.append(badge.as_str());
        out.append("\n");
        out.append("Code secret : ");
        out.append(self.credential_hash.as_str());
        out.append("\n");
        out.append("Dernier passage : ");
        match self.last_access {
            Some(t) => {
                let rendered = format_rfc2822(t);
                out.append(rendered.as_str());
            },
            None => {
                out.append("Aucun");
            },
        }
        out.append("\n");
        out.append("---------------------\n");
        proof {
            assert(out@ =~= spec_record_text(*self));
        }
        out
    }
}

} // verus!
