//! Tests of the USB event controller's device sets.

use keysas::usb::{should_copy_in, SignatureVerdict, UsbAction, UsbState};

fn assert_disjoint(state: &UsbState) {
    for p in &state.keys_in {
        assert!(!state.keys_out.contains(p));
        assert!(!state.keys_undef.contains(p));
    }
    for p in &state.keys_out {
        assert!(!state.keys_undef.contains(p));
    }
}

#[test]
fn signed_device_joins_the_egress_set() {
    let mut state = UsbState::new();
    let action = state.handle_add(&"abcd/1234/0100".to_string(), SignatureVerdict::Signed);
    assert_eq!(action, UsbAction::StartEgress);
    assert_eq!(state.keys_out, vec!["abcd/1234/0100".to_string()]);
    assert!(state.keys_in.is_empty());
    assert_disjoint(&state);
}

#[test]
fn unsigned_device_joins_the_ingress_set() {
    let mut state = UsbState::new();
    let action = state.handle_add(&"abcd/1234/0100".to_string(), SignatureVerdict::Unsigned);
    assert_eq!(action, UsbAction::StartIngress);
    assert_eq!(state.keys_in, vec!["abcd/1234/0100".to_string()]);
    assert!(state.keys_out.is_empty());
    assert_disjoint(&state);
}

#[test]
fn unreadable_signature_is_treated_as_unsigned() {
    let mut state = UsbState::new();
    let action = state.handle_add(&"abcd/1234/0100".to_string(), SignatureVerdict::Unreadable);
    assert_eq!(action, UsbAction::StartIngress);
    assert_eq!(state.keys_in, vec!["abcd/1234/0100".to_string()]);
    assert_disjoint(&state);
}

#[test]
fn a_tracked_device_is_not_dispatched_again() {
    let mut state = UsbState::new();
    let p = "abcd/1234/0100".to_string();
    assert_eq!(state.handle_add(&p, SignatureVerdict::Unsigned), UsbAction::StartIngress);
    assert_eq!(state.handle_add(&p, SignatureVerdict::Unsigned), UsbAction::Ignore);
    // Even with a different verdict the device stays where it is:
    // promotion happens only on unplug-then-replug.
    assert_eq!(state.handle_add(&p, SignatureVerdict::Signed), UsbAction::Ignore);
    assert_eq!(state.keys_in.len(), 1);
    assert!(state.keys_out.is_empty());
    assert_disjoint(&state);
}

#[test]
fn sets_stay_disjoint_across_a_session() {
    let mut state = UsbState::new();
    let d1 = "1111/aaaa/0001".to_string();
    let d2 = "2222/bbbb/0002".to_string();
    let d3 = "3333/cccc/0003".to_string();
    state.handle_add(&d1, SignatureVerdict::Signed);
    state.handle_add(&d2, SignatureVerdict::Unsigned);
    state.handle_add(&d3, SignatureVerdict::Unreadable);
    assert_disjoint(&state);
    state.handle_remove(&d2);
    assert_disjoint(&state);
    state.handle_add(&d2, SignatureVerdict::Signed);
    assert_disjoint(&state);
    assert!(state.keys_out.contains(&d2));
    assert!(!state.keys_in.contains(&d2));
}

#[test]
fn remove_purges_the_product_from_all_sets() {
    let mut state = UsbState::new();
    let d1 = "1111/aaaa/0001".to_string();
    let d2 = "2222/bbbb/0002".to_string();
    state.handle_add(&d1, SignatureVerdict::Signed);
    state.handle_add(&d2, SignatureVerdict::Unsigned);
    state.handle_remove(&d1);
    assert!(state.keys_out.is_empty());
    assert_eq!(state.keys_in, vec![d2.clone()]);
    state.handle_remove(&d2);
    assert!(state.keys_in.is_empty());
}

#[test]
fn unplug_after_egress_start_empties_the_egress_set() {
    // An egress transfer is running when the device is unplugged: the
    // remove event empties the egress set; the copy itself runs to
    // completion outside the library.
    let mut state = UsbState::new();
    let d = "abcd/1234/0100".to_string();
    assert_eq!(state.handle_add(&d, SignatureVerdict::Signed), UsbAction::StartEgress);
    state.handle_remove(&d);
    assert!(state.keys_out.is_empty());
    assert!(state.keys_in.is_empty());
    assert!(state.keys_undef.is_empty());
}

#[test]
fn unreadable_remove_resets_everything() {
    let mut state = UsbState::new();
    state.handle_add(&"1111/aaaa/0001".to_string(), SignatureVerdict::Signed);
    state.handle_add(&"2222/bbbb/0002".to_string(), SignatureVerdict::Unsigned);
    state.handle_remove_unknown();
    assert!(state.keys_in.is_empty());
    assert!(state.keys_out.is_empty());
    assert!(state.keys_undef.is_empty());
}

#[test]
fn snapshot_reflects_the_sets() {
    let mut state = UsbState::new();
    let d1 = "1111/aaaa/0001".to_string();
    let d2 = "2222/bbbb/0002".to_string();
    state.handle_add(&d1, SignatureVerdict::Signed);
    state.handle_add(&d2, SignatureVerdict::Unsigned);
    let snap = state.snapshot(true, vec!["1050/0407".to_string()]);
    assert_eq!(snap.usb_out, vec![d1]);
    assert_eq!(snap.usb_in, vec![d2]);
    assert!(snap.usb_undef.is_empty());
    assert!(snap.yubikeys.active);
    assert_eq!(snap.yubikeys.yubikeys, vec!["1050/0407".to_string()]);
}

#[test]
fn ingress_copy_decision() {
    assert!(should_copy_in(false, false));
    assert!(should_copy_in(false, true));
    assert!(!should_copy_in(true, false));
    assert!(should_copy_in(true, true));
}
