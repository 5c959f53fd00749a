use audit_verifier::AuditError;
use audit_verifier::Registry;
use audit_verifier::RevokeAudit;
use audit_verifier::derive_record_address;

const PROGRAM_ID: [u8; 32] = [7u8; 32];
const AUDITOR_A: [u8; 32] = [1u8; 32];
const AUDITOR_B: [u8; 32] = [2u8; 32];
const HASH: [u8; 32] = [0xAB; 32];

#[test]
fn first_publish_succeeds_republish_conflicts() {
    let mut reg = Registry::new(PROGRAM_ID);
    let r1 = reg
        .publish(&AUDITOR_A, "token-vault".to_string(), &HASH, 87, 5, 0, 2, 3, 1_700_000_000)
        .unwrap();
    let ev = r1.expect("first publish succeeds");
    assert_eq!(ev.auditor, AUDITOR_A);
    assert_eq!(ev.program_name, "token-vault");
    assert_eq!(ev.security_score, 87);
    assert_eq!(ev.audit_hash, HASH);
    assert_eq!(ev.timestamp, 1_700_000_000);

    let addr = derive_record_address(&AUDITOR_A, "token-vault", &PROGRAM_ID).unwrap();
    let rec = reg.lookup(&addr.id).expect("record stored at the derived address");
    assert!(rec.verified);
    assert_eq!(rec.bump, addr.bump);

    let r2 = reg
        .publish(&AUDITOR_A, "token-vault".to_string(), &HASH, 90, 1, 0, 0, 1, 1_700_000_100)
        .unwrap();
    assert!(matches!(r2, Err(AuditError::AllocationConflict)));
    // the store is unchanged: the first record still stands
    let rec = reg.lookup(&addr.id).unwrap();
    assert_eq!(rec.security_score, 87);
    assert!(rec.verified);
}

#[test]
fn stranger_cannot_revoke() {
    let mut reg = Registry::new(PROGRAM_ID);
    reg.publish(&AUDITOR_A, "token-vault".to_string(), &HASH, 87, 5, 0, 2, 3, 1_700_000_000)
        .unwrap()
        .unwrap();
    let addr = derive_record_address(&AUDITOR_A, "token-vault", &PROGRAM_ID).unwrap();

    let ctx = RevokeAudit { audit_record: addr.id, auditor: AUDITOR_B };
    let r = reg.revoke_audit(&ctx, 1_700_000_500);
    assert!(matches!(r, Err(AuditError::Unauthorized)));
    assert!(reg.lookup(&addr.id).unwrap().verified);
}

#[test]
fn auditor_revokes_and_revoking_again_is_harmless() {
    let mut reg = Registry::new(PROGRAM_ID);
    reg.publish(&AUDITOR_A, "token-vault".to_string(), &HASH, 87, 5, 0, 2, 3, 1_700_000_000)
        .unwrap()
        .unwrap();
    let addr = derive_record_address(&AUDITOR_A, "token-vault", &PROGRAM_ID).unwrap();

    let ctx = RevokeAudit { audit_record: addr.id, auditor: AUDITOR_A };
    let ev = reg.revoke_audit(&ctx, 1_700_000_500).expect("auditor may revoke");
    assert_eq!(ev.auditor, AUDITOR_A);
    assert_eq!(ev.program_name, "token-vault");
    assert_eq!(ev.timestamp, 1_700_000_500);
    assert!(!reg.lookup(&addr.id).unwrap().verified);

    let ev2 = reg.revoke_audit(&ctx, 1_700_000_600).expect("revoking again succeeds");
    assert_eq!(ev2.timestamp, 1_700_000_600);
    assert!(!reg.lookup(&addr.id).unwrap().verified);
}

#[test]
fn perfect_score_publish() {
    let mut reg = Registry::new(PROGRAM_ID);
    let ev = reg
        .publish(&AUDITOR_A, "clean-program".to_string(), &HASH, 100, 0, 0, 0, 0, 1_700_000_000)
        .unwrap()
        .expect("publish succeeds");
    assert_eq!(ev.security_score, 100);
    let addr = derive_record_address(&AUDITOR_A, "clean-program", &PROGRAM_ID).unwrap();
    let rec = reg.lookup(&addr.id).unwrap();
    assert!(rec.verified);
    assert_eq!(rec.total_issues, 0);
}

#[test]
fn token_vault_scenario() {
    let mut reg = Registry::new(PROGRAM_ID);
    reg.publish(&AUDITOR_A, "token-vault".to_string(), &HASH, 87, 5, 0, 2, 3, 1_700_000_000)
        .unwrap()
        .expect("publish succeeds");

    // lookup via derivation returns the record with those exact fields
    let addr = derive_record_address(&AUDITOR_A, "token-vault", &PROGRAM_ID).unwrap();
    let rec = reg.lookup(&addr.id).expect("record found via derivation");
    assert_eq!(rec.auditor, AUDITOR_A);
    assert_eq!(rec.audited_at, 1_700_000_000);
    assert_eq!(rec.program_name, "token-vault");
    assert_eq!(rec.audit_hash, HASH);
    assert_eq!(rec.security_score, 87);
    assert_eq!(rec.total_issues, 5);
    assert_eq!(rec.critical_count, 0);
    assert_eq!(rec.high_count, 2);
    assert_eq!(rec.medium_count, 3);
    assert!(rec.verified);

    // auditor B's revoke attempt is refused
    let ctx_b = RevokeAudit { audit_record: addr.id, auditor: AUDITOR_B };
    assert!(matches!(reg.revoke_audit(&ctx_b, 1_700_001_000), Err(AuditError::Unauthorized)));

    // auditor A revokes; the record stays, only `verified` changed
    let ctx_a = RevokeAudit { audit_record: addr.id, auditor: AUDITOR_A };
    reg.revoke_audit(&ctx_a, 1_700_002_000).expect("auditor may revoke");
    let rec = reg.lookup(&addr.id).expect("record not deleted");
    assert_eq!(rec.auditor, AUDITOR_A);
    assert_eq!(rec.audited_at, 1_700_000_000);
    assert_eq!(rec.program_name, "token-vault");
    assert_eq!(rec.audit_hash, HASH);
    assert_eq!(rec.security_score, 87);
    assert_eq!(rec.total_issues, 5);
    assert_eq!(rec.critical_count, 0);
    assert_eq!(rec.high_count, 2);
    assert_eq!(rec.medium_count, 3);
    assert!(!rec.verified);
}

#[test]
fn lookup_misses_on_empty_store() {
    let reg = Registry::new(PROGRAM_ID);
    assert!(reg.lookup(&[3u8; 32]).is_none());
}

#[test]
fn records_of_different_pairs_coexist() {
    let mut reg = Registry::new(PROGRAM_ID);
    reg.publish(&AUDITOR_A, "token-vault".to_string(), &HASH, 87, 5, 0, 2, 3, 1_000)
        .unwrap()
        .unwrap();
    reg.publish(&AUDITOR_B, "token-vault".to_string(), &HASH, 55, 9, 1, 3, 5, 2_000)
        .unwrap()
        .unwrap();
    reg.publish(&AUDITOR_A, "".to_string(), &HASH, 70, 2, 0, 1, 1, 3_000)
        .unwrap()
        .unwrap();

    let a_vault = derive_record_address(&AUDITOR_A, "token-vault", &PROGRAM_ID).unwrap();
    let b_vault = derive_record_address(&AUDITOR_B, "token-vault", &PROGRAM_ID).unwrap();
    let a_empty = derive_record_address(&AUDITOR_A, "", &PROGRAM_ID).unwrap();
    assert_eq!(reg.lookup(&a_vault.id).unwrap().security_score, 87);
    assert_eq!(reg.lookup(&b_vault.id).unwrap().security_score, 55);
    assert_eq!(reg.lookup(&a_empty.id).unwrap().security_score, 70);
}
