//! Tests of the metadata records, the sealing digest and the output
//! checks.

use keysas::report::{hex_string, FileMetadata};
use sha2::Digest;

fn record() -> FileMetadata {
    FileMetadata {
        filename: "document.pdf".to_string(),
        digest: "0123456789abcdef".to_string(),
        is_digest_ok: true,
        is_toobig: false,
        is_type_allowed: true,
        av_pass: true,
        av_report: vec!["clean".to_string(), "ok".to_string()],
        yara_pass: true,
        yara_report: String::new(),
        timestamp: "2024-01-01".to_string(),
    }
}

#[test]
fn hex_string_encodes_bytes() {
    assert_eq!(hex_string(&[]), "");
    assert_eq!(hex_string(&[0x00]), "00");
    assert_eq!(hex_string(&[0xab, 0x01, 0xff]), "ab01ff");
}

#[test]
fn sealing_digest_matches_a_direct_computation() {
    let md = record();
    let mut hasher = sha2::Sha256::new();
    hasher.update(md.filename.as_bytes());
    hasher.update(md.digest.as_bytes());
    hasher.update(b"true");
    hasher.update(b"false");
    hasher.update(b"true");
    hasher.update(b"true");
    for line in &md.av_report {
        hasher.update(line.as_bytes());
    }
    hasher.update(b"true");
    hasher.update(md.yara_report.as_bytes());
    let expected = format!("{:x}", hasher.finalize());
    assert_eq!(md.compute_sha256(), expected);
}

#[test]
fn sealing_digest_depends_on_the_record() {
    let md = record();
    let mut other = record();
    other.av_pass = false;
    assert_ne!(md.compute_sha256(), other.compute_sha256());
}

#[test]
fn timestamp_does_not_enter_the_digest() {
    let md = record();
    let mut other = record();
    other.timestamp = "2030-12-31".to_string();
    assert_eq!(md.compute_sha256(), other.compute_sha256());
}

#[test]
fn output_check_truth_table() {
    let md = record();
    assert!(md.passes_checks(false));
    assert!(md.passes_checks(true));

    let mut bad_digest = record();
    bad_digest.is_digest_ok = false;
    assert!(!bad_digest.passes_checks(false));

    let mut too_big = record();
    too_big.is_toobig = true;
    assert!(!too_big.passes_checks(false));

    let mut bad_type = record();
    bad_type.is_type_allowed = false;
    assert!(!bad_type.passes_checks(false));

    let mut infected = record();
    infected.av_pass = false;
    assert!(!infected.passes_checks(false));

    let mut rule_match = record();
    rule_match.yara_pass = false;
    assert!(rule_match.passes_checks(false));
    assert!(!rule_match.passes_checks(true));
}

#[test]
fn digest_check_marks_mismatches() {
    let mut md = record();
    let actual = md.digest.clone();
    md.note_actual_digest(&actual);
    assert!(md.is_digest_ok);
    md.note_actual_digest(&"something else".to_string());
    assert!(!md.is_digest_ok);
    // Once marked bad, a matching digest does not restore it.
    md.note_actual_digest(&actual);
    assert!(!md.is_digest_ok);
}

#[test]
fn report_seals_the_record() {
    let md = record();
    let expected = md.compute_sha256();
    let report = md.into_report();
    assert_eq!(report.md_digest, expected);
    assert_eq!(report.md.filename, "document.pdf");
}
