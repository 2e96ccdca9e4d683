use badge_registry::controller::{verify_at, verify_now, VerificationOutcome};
use badge_registry::export::export_roster;
use badge_registry::hashing::hash_secret;
use badge_registry::record::PersonRecord;
use badge_registry::roster::{Roster, RosterError};
use badge_registry::text::u32_to_decimal;

fn sample_record(secret: &str) -> PersonRecord {
    PersonRecord::enroll(
        "Martin".to_owned(),
        "Alice".to_owned(),
        1234,
        secret,
        "Couleur préférée ?".to_owned(),
        "bleu".to_owned(),
    )
}

#[test]
fn hash_is_deterministic_and_one_way() {
    let h1 = hash_secret("abc123");
    let h2 = hash_secret("abc123");
    assert_eq!(h1, h2);
    // The exact SHA-256 digest of "abc123", rendered in lowercase hex.
    assert_eq!(
        h1,
        "6ca13d52ca70c883e0f0bb101e425a89e8624de51db2d2392593af6a84118090"
    );
    assert_eq!(h1.len(), 64);
    assert_ne!(hash_secret("abc124"), h1);
    assert_eq!(
        hash_secret(""),
        "e3b0c44298fc1c149afbf4c8996fb92427ae41e4649b934ca495991b7852b855"
    );
}

#[test]
fn enroll_then_verify_grants() {
    let mut record = sample_record("abc123");
    assert_eq!(record.failed_attempts, 0);
    assert!(record.last_access.is_none());
    let out = verify_at(&mut record, "abc123", 1_000);
    match out {
        VerificationOutcome::Granted {
            first_name,
            last_name,
            timestamp,
        } => {
            assert_eq!(first_name, "Alice");
            assert_eq!(last_name, "Martin");
            assert_eq!(timestamp, 1_000);
        }
        _ => panic!("expected a grant"),
    }
    assert_eq!(record.failed_attempts, 0);
    assert_eq!(record.last_access, Some(1_000));
}

#[test]
fn three_wrong_secrets_lock_the_record() {
    let mut record = sample_record("abc123");
    for attempt in 1..=3u8 {
        let out = verify_at(&mut record, "wrong", 10);
        assert!(matches!(out, VerificationOutcome::Denied));
        assert_eq!(record.failed_attempts, attempt);
    }
    assert!(record.is_locked());
    assert_eq!(record.failed_attempts, 3);
    assert!(record.last_access.is_none());
    // A fourth call is a recovery attempt now, not a secret check: even the
    // correct secret is read as a (wrong) recovery answer.
    let out = verify_at(&mut record, "abc123", 20);
    assert!(matches!(out, VerificationOutcome::RecoveryFailed));
    assert!(record.is_locked());
}

#[test]
fn recovery_answer_unlocks_and_resets() {
    let mut record = sample_record("abc123");
    for _ in 0..3 {
        verify_at(&mut record, "wrong", 10);
    }
    assert!(record.is_locked());
    let out = verify_at(&mut record, "rouge", 30);
    assert!(matches!(out, VerificationOutcome::RecoveryFailed));
    assert!(record.is_locked());
    assert_eq!(record.failed_attempts, 3);
    // Comparison is verbatim and case-sensitive.
    let out = verify_at(&mut record, "Bleu", 31);
    assert!(matches!(out, VerificationOutcome::RecoveryFailed));
    let out = verify_at(&mut record, "bleu", 32);
    assert!(matches!(out, VerificationOutcome::Unlocked));
    assert_eq!(record.failed_attempts, 0);
    assert!(!record.is_locked());
    // Unlocking records no passage.
    assert!(record.last_access.is_none());
    // Ordinary checks work again.
    let out = verify_at(&mut record, "abc123", 40);
    assert!(matches!(out, VerificationOutcome::Granted { .. }));
}

#[test]
fn credential_update_replaces_the_secret() {
    let mut record = sample_record("abc123");
    record.set_credential("s3cret!");
    let out = verify_at(&mut record, "abc123", 50);
    assert!(matches!(out, VerificationOutcome::Denied));
    assert_eq!(record.failed_attempts, 1);
    let out = verify_at(&mut record, "s3cret!", 60);
    assert!(matches!(out, VerificationOutcome::Granted { .. }));
    assert_eq!(record.failed_attempts, 0);
    assert_eq!(record.last_access, Some(60));
}

#[test]
fn verify_now_records_a_timestamp() {
    let mut record = sample_record("abc123");
    let out = verify_now(&mut record, "abc123");
    match out {
        Some(VerificationOutcome::Granted { timestamp, .. }) => {
            assert!(timestamp > 0);
            assert_eq!(record.last_access, Some(timestamp));
        }
        _ => panic!("expected a grant"),
    }
}

#[test]
fn roster_enrolls_and_finds_by_badge() {
    let mut roster = Roster::new();
    assert!(roster
        .enroll(
            "Martin".to_owned(),
            "Alice".to_owned(),
            1234,
            "abc123",
            "Q1".to_owned(),
            "A1".to_owned(),
        )
        .is_ok());
    assert!(roster
        .enroll(
            "Durand".to_owned(),
            "Bob".to_owned(),
            5678,
            "xyz",
            "Q2".to_owned(),
            "A2".to_owned(),
        )
        .is_ok());
    assert_eq!(roster.len(), 2);
    let p = roster.get(5678).expect("enrolled badge must resolve");
    assert_eq!(p.last_name, "Durand");
    assert!(roster.get(1111).is_none());
    // Badge numbers are unique keys: re-enrolling one is refused.
    let r = roster.enroll(
        "Petit".to_owned(),
        "Chloé".to_owned(),
        1234,
        "other",
        "Q3".to_owned(),
        "A3".to_owned(),
    );
    assert!(matches!(r, Err(RosterError::DuplicateBadge)));
    assert_eq!(roster.len(), 2);
}

#[test]
fn removing_an_absent_badge_reports_not_found() {
    let mut roster = Roster::new();
    roster
        .enroll(
            "Martin".to_owned(),
            "Alice".to_owned(),
            1234,
            "abc123",
            "Q".to_owned(),
            "A".to_owned(),
        )
        .unwrap();
    let r = roster.remove(9999);
    assert!(matches!(r, Err(RosterError::NotFound)));
    assert_eq!(roster.len(), 1);
    assert!(roster.remove(1234).is_ok());
    assert_eq!(roster.len(), 0);
}

#[test]
fn roster_access_drives_the_state_machine() {
    let mut roster = Roster::new();
    roster
        .enroll(
            "Martin".to_owned(),
            "Alice".to_owned(),
            1234,
            "abc123",
            "Q".to_owned(),
            "bleu".to_owned(),
        )
        .unwrap();
    let r = roster.access(4321, "abc123", 100);
    assert!(matches!(r, Err(RosterError::NotFound)));
    let r = roster.access(1234, "nope", 100).unwrap();
    assert!(matches!(r, VerificationOutcome::Denied));
    let r = roster.access(1234, "abc123", 200).unwrap();
    assert!(matches!(r, VerificationOutcome::Granted { .. }));
    assert_eq!(roster.get(1234).unwrap().last_access, Some(200));
    // Updating the credential through the roster.
    roster.set_credential(1234, "new-secret").unwrap();
    let r = roster.access(1234, "abc123", 300).unwrap();
    assert!(matches!(r, VerificationOutcome::Denied));
    let r = roster.access(1234, "new-secret", 400).unwrap();
    assert!(matches!(r, VerificationOutcome::Granted { .. }));
    assert!(matches!(
        roster.set_credential(9999, "x"),
        Err(RosterError::NotFound)
    ));
}

#[test]
fn roster_lockout_and_recovery() {
    let mut roster = Roster::new();
    roster
        .enroll(
            "Martin".to_owned(),
            "Alice".to_owned(),
            1234,
            "abc123",
            "Couleur préférée ?".to_owned(),
            "bleu".to_owned(),
        )
        .unwrap();
    for _ in 0..3 {
        let r = roster.access(1234, "wrong", 10).unwrap();
        assert!(matches!(r, VerificationOutcome::Denied));
    }
    assert!(roster.get(1234).unwrap().is_locked());
    let r = roster.access(1234, "vert", 20).unwrap();
    assert!(matches!(r, VerificationOutcome::RecoveryFailed));
    assert!(roster.get(1234).unwrap().is_locked());
    let r = roster.access(1234, "bleu", 30).unwrap();
    assert!(matches!(r, VerificationOutcome::Unlocked));
    assert!(!roster.get(1234).unwrap().is_locked());
    assert_eq!(roster.get(1234).unwrap().failed_attempts, 0);
}

#[test]
fn export_shape_and_fields() {
    let mut roster = Roster::new();
    roster
        .enroll(
            "Martin".to_owned(),
            "Alice".to_owned(),
            1234,
            "abc123",
            "Q1".to_owned(),
            "A1".to_owned(),
        )
        .unwrap();
    roster
        .enroll(
            "Durand".to_owned(),
            "Bob".to_owned(),
            42,
            "xyz",
            "Q2".to_owned(),
            "A2".to_owned(),
        )
        .unwrap();
    let text = export_roster(&roster);
    // N records give N + 1 lines, each closed by a line break.
    assert_eq!(text.matches('\n').count(), 3);
    let lines: Vec<&str> = text.lines().collect();
    assert_eq!(lines.len(), 3);
    assert_eq!(
        lines[0],
        "Nom, Prénom, Numéro de badge, Code secret, Dernier passage"
    );
    // Each data line splits into exactly five comma-separated fields; a
    // record with no prior access renders an empty fifth field.
    for line in &lines[1..] {
        let fields: Vec<&str> = line.split(',').collect();
        assert_eq!(fields.len(), 5);
        assert_eq!(fields[4], "");
    }
    let fields: Vec<&str> = lines[1].split(',').collect();
    assert_eq!(fields[0], "Martin");
    assert_eq!(fields[1], "Alice");
    assert_eq!(fields[2], "1234");
    assert_eq!(
        fields[3],
        "6ca13d52ca70c883e0f0bb101e425a89e8624de51db2d2392593af6a84118090"
    );
    let fields: Vec<&str> = lines[2].split(',').collect();
    assert_eq!(fields[2], "42");
}

#[test]
fn export_renders_a_recorded_access_as_rfc2822() {
    let mut roster = Roster::new();
    roster
        .enroll(
            "Martin".to_owned(),
            "Alice".to_owned(),
            7,
            "abc123",
            "Q".to_owned(),
            "A".to_owned(),
        )
        .unwrap();
    roster.access(7, "abc123", 0).unwrap();
    let text = export_roster(&roster);
    let lines: Vec<&str> = text.lines().collect();
    assert_eq!(
        lines[1],
        "Martin,Alice,7,6ca13d52ca70c883e0f0bb101e425a89e8624de51db2d2392593af6a84118090,\
Thu, 1 Jan 1970 00:00:00 +0000"
    );
}

#[test]
fn record_text_lists_the_fields() {
    let record = sample_record("abc123");
    let text = record.record_text();
    let lines: Vec<&str> = text.lines().collect();
    assert_eq!(lines[0], "Nom : Martin");
    assert_eq!(lines[1], "Prénom : Alice");
    assert_eq!(lines[2], "Numéro de badge : 1234");
    assert_eq!(
        lines[3],
        "Code secret : 6ca13d52ca70c883e0f0bb101e425a89e8624de51db2d2392593af6a84118090"
    );
    assert_eq!(lines[4], "Dernier passage : Aucun");
    assert_eq!(lines[5], "---------------------");

    let mut passed = sample_record("abc123");
    verify_at(&mut passed, "abc123", 86_400);
    let text = passed.record_text();
    let lines: Vec<&str> = text.lines().collect();
    assert_eq!(lines[4], "Dernier passage : Fri, 2 Jan 1970 00:00:00 +0000");
}

#[test]
fn decimal_rendering_of_badge_numbers() {
    assert_eq!(u32_to_decimal(0), "0");
    assert_eq!(u32_to_decimal(9), "9");
    assert_eq!(u32_to_decimal(10), "10");
    assert_eq!(u32_to_decimal(1234), "1234");
    assert_eq!(u32_to_decimal(u32::MAX), "4294967295");
}
