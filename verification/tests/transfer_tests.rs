//! Tests of the transfer planning rules.

use keysas::transfer::{
    busy_marker_plan, clean_file_name, egress_mount_flags, ingress_mount_flags, plan_egress_file,
    plan_ingress_file, product_key, remove_last, sandbox_decision, BusyStep, SandboxDecision,
    SandboxStatus,
};

#[test]
fn diacritics_are_folded() {
    assert_eq!(clean_file_name("café.txt"), "cafe.txt");
}

#[test]
fn question_marks_become_dashes() {
    assert_eq!(clean_file_name("a?b.bin"), "a-b.bin");
    assert_eq!(clean_file_name("???"), "---");
    assert_eq!(clean_file_name("plain.txt"), "plain.txt");
    assert_eq!(clean_file_name(""), "");
}

#[test]
fn ingress_plan_builds_the_three_paths() {
    let plan = plan_ingress_file("café?1.txt");
    assert_eq!(plan.tmp_path, "/var/local/tmp/cafe-1.txt");
    assert_eq!(plan.sas_path, "/var/local/in/cafe-1.txt");
    assert_eq!(plan.error_report_path, "/var/local/in/cafe-1.txt.ioerror");
}

#[test]
fn egress_plan_builds_both_paths() {
    let (write_path, read_path) = plan_egress_file("/tmp/mnt1", "résumé.pdf");
    assert_eq!(write_path, "/tmp/mnt1/resume.pdf");
    assert_eq!(read_path, "/var/local/out/résumé.pdf");
}

#[test]
fn product_key_shape() {
    assert_eq!(product_key("abcd", "1234", "0100"), "abcd/1234/0100");
}

#[test]
fn partition_digit_is_stripped() {
    assert_eq!(remove_last("/dev/sda1"), "/dev/sda");
    assert_eq!(remove_last(""), "");
    assert_eq!(remove_last("x"), "");
}

#[test]
fn mount_flags_follow_the_direction() {
    let ingress = ingress_mount_flags();
    assert!(ingress.read_only && ingress.no_suid && ingress.no_exec && ingress.no_dev);
    let egress = egress_mount_flags();
    assert!(!egress.read_only && egress.no_suid && egress.no_exec && egress.no_dev);
}

#[test]
fn busy_marker_protocol() {
    assert_eq!(busy_marker_plan(false, false, false), BusyStep::CreateLockDir);
    assert_eq!(busy_marker_plan(false, true, true), BusyStep::CreateLockDir);
    assert_eq!(busy_marker_plan(true, true, false), BusyStep::RemoveOtherMarker);
    assert_eq!(busy_marker_plan(true, false, false), BusyStep::CreateOwnMarker);
    assert_eq!(busy_marker_plan(true, false, true), BusyStep::Nothing);
}

#[test]
fn sandbox_policy() {
    assert_eq!(
        sandbox_decision(SandboxStatus::FullyEnforced, true),
        SandboxDecision::Proceed
    );
    assert_eq!(
        sandbox_decision(SandboxStatus::PartiallyEnforced, true),
        SandboxDecision::ProceedWithWarning
    );
    assert_eq!(
        sandbox_decision(SandboxStatus::NotEnforced, false),
        SandboxDecision::ProceedWithWarning
    );
    assert_eq!(
        sandbox_decision(SandboxStatus::NotEnforced, true),
        SandboxDecision::Abort
    );
}
