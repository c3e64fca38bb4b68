//! End-to-end tests of the device signature verifier: provision a root
//! and a signing leaf, write the hybrid signature into a device image,
//! and check the verdicts.

use keysas::cert::{generate_root, generate_signed_keypair, CertificateFields};
use keysas::codec::{
    encode_signature_payload, frame_signature_payload, parse_signature_length, HybridSignature,
};
use keysas::device::{
    get_pubkeys_from_certs, is_signed, verify_key_signatures, DeviceIdentity, VerifierError,
};

const NOW: u64 = 1_700_000_000;

fn fields() -> CertificateFields {
    CertificateFields {
        org_name: "ACME".to_string(),
        org_unit: "Lab".to_string(),
        country: "FR".to_string(),
        validity: 10,
    }
}

fn identity(serial: &str) -> DeviceIdentity {
    DeviceIdentity {
        vendor_id: b"abcd".to_vec(),
        model_id: b"1234".to_vec(),
        revision: b"0100".to_vec(),
        serial: serial.as_bytes().to_vec(),
    }
}

/// Provision a signing key pair, sign the canonical message of `S01`, and
/// return the signing certificates (PEM) and the raw signature halves.
fn provision() -> (String, String, Vec<u8>, Vec<u8>) {
    let ca = generate_root(&fields(), NOW).expect("root generation");
    let usb = generate_signed_keypair(&ca, &fields(), &fields(), NOW).expect("leaf generation");
    let message = b"abcd/1234/0100/S01/out";
    let cl_sig = usb.classic.message_sign(message).expect("classic sign");
    let pq_sig = usb.pq.message_sign(message).expect("pq sign");
    let cl_pem = usb.classic_cert.to_pem().expect("classic cert pem");
    let pq_pem = usb.pq_cert.to_pem().expect("pq cert pem");
    (cl_pem, pq_pem, cl_sig, pq_sig)
}

/// Write the framed payload at offset 512 of a 16 KiB image and read the
/// payload back the way the daemon does.
fn through_image(framed: &[u8]) -> Vec<u8> {
    let mut image = vec![0u8; 16384];
    image[512..512 + framed.len()].copy_from_slice(framed);
    let l = parse_signature_length(&image[512..516]).expect("length prefix") as usize;
    image[516..516 + l].to_vec()
}

#[test]
fn provisioned_device_verifies() {
    let (cl_pem, pq_pem, cl_sig, pq_sig) = provision();
    let payload = encode_signature_payload(&cl_sig, &pq_sig);
    let framed = frame_signature_payload(&payload).expect("frame");
    let read_back = through_image(&framed);
    let pubkeys = get_pubkeys_from_certs(&cl_pem, &pq_pem).expect("pubkeys");
    assert!(is_signed(&pubkeys, &identity("S01"), &read_back));
}

#[test]
fn tampered_pq_half_is_rejected_with_a_mismatch() {
    let (cl_pem, pq_pem, cl_sig, mut pq_sig) = provision();
    pq_sig[17] ^= 0x20;
    let payload = encode_signature_payload(&cl_sig, &pq_sig);
    let pubkeys = get_pubkeys_from_certs(&cl_pem, &pq_pem).expect("pubkeys");
    assert!(!is_signed(&pubkeys, &identity("S01"), &payload));
    let sig = HybridSignature { classic: cl_sig, pq: pq_sig };
    assert_eq!(
        verify_key_signatures(b"abcd/1234/0100/S01/out", &sig, &pubkeys),
        Err(VerifierError::HybridMismatch)
    );
}

#[test]
fn wrong_serial_is_rejected() {
    let (cl_pem, pq_pem, cl_sig, pq_sig) = provision();
    let payload = encode_signature_payload(&cl_sig, &pq_sig);
    let pubkeys = get_pubkeys_from_certs(&cl_pem, &pq_pem).expect("pubkeys");
    assert!(!is_signed(&pubkeys, &identity("S02"), &payload));
}

#[test]
fn oversize_length_prefix_is_rejected() {
    let mut image = vec![0u8; 16384];
    let l: u32 = 9000;
    image[512..516].copy_from_slice(&[
        (l >> 24) as u8,
        (l >> 16) as u8,
        (l >> 8) as u8,
        l as u8,
    ]);
    assert!(parse_signature_length(&image[512..516]).is_err());
}

#[test]
fn garbage_payload_is_treated_as_unsigned() {
    let (cl_pem, pq_pem, _, _) = provision();
    let pubkeys = get_pubkeys_from_certs(&cl_pem, &pq_pem).expect("pubkeys");
    assert!(!is_signed(&pubkeys, &identity("S01"), b"no separator here"));
    assert!(!is_signed(&pubkeys, &identity("S01"), b""));
}

#[test]
fn pubkeys_require_parsable_certificates() {
    assert!(get_pubkeys_from_certs("not a pem", "not a pem either").is_err());
}

#[test]
fn pubkeys_require_matching_algorithms() {
    let (cl_pem, pq_pem, _, _) = provision();
    // The two certificates swapped: each declares the other scheme.
    assert!(get_pubkeys_from_certs(&pq_pem, &cl_pem).is_err());
}

#[test]
fn canonical_message_shape() {
    let msg = identity("S01").out_message();
    assert_eq!(msg, b"abcd/1234/0100/S01/out".to_vec());
}

#[test]
fn foreign_authority_is_rejected() {
    // A device provisioned under one authority presents to a station
    // configured with another authority's certificates.
    let (_, _, cl_sig, pq_sig) = provision();
    let (other_cl, other_pq, _, _) = provision();
    let payload = encode_signature_payload(&cl_sig, &pq_sig);
    let pubkeys = get_pubkeys_from_certs(&other_cl, &other_pq).expect("pubkeys");
    assert!(!is_signed(&pubkeys, &identity("S01"), &payload));
}

#[test]
fn garbage_halves_reject_both() {
    let (cl_pem, pq_pem, _, _) = provision();
    let pubkeys = get_pubkeys_from_certs(&cl_pem, &pq_pem).expect("pubkeys");
    let sig = HybridSignature { classic: vec![0u8; 64], pq: vec![0u8; 4627] };
    assert_eq!(
        verify_key_signatures(b"abcd/1234/0100/S01/out", &sig, &pubkeys),
        Err(VerifierError::BothRejected)
    );
}
