//! Tests of the certificate engine: field validation, issuance and the
//! PEM round trip.

use keysas::cert::{
    generate_cert_from_csr, generate_root, generate_root_ed25519, generate_signed_keypair,
    parse_u32, pki_directory_layout, pki_file_paths, u32_to_string, validate_input_cert_fields, CertError, Certificate,
    CertificateFields, Csr,
};
use keysas::keys::{KeysasClassicKey, KeysasPQKey, DILITHIUM5_OID, ED25519_OID};
use x509_cert::der::{Decode, DecodePem, EncodePem};

const NOW: u64 = 1_700_000_000;

fn fields() -> CertificateFields {
    CertificateFields {
        org_name: "ACME".to_string(),
        org_unit: "Lab".to_string(),
        country: "FR".to_string(),
        validity: 10,
    }
}

#[test]
fn validate_fields_accepts_two_letter_country() {
    let f = validate_input_cert_fields(
        &"ACME".to_string(),
        &"Lab".to_string(),
        &"FR".to_string(),
        "365",
    )
    .expect("valid fields");
    assert_eq!(f.country, "FR");
    assert_eq!(f.validity, 365);
    assert_eq!(f.org_name, "ACME");
    assert_eq!(f.org_unit, "Lab");
}

#[test]
fn validate_fields_truncates_long_country() {
    let f = validate_input_cert_fields(
        &"ACME".to_string(),
        &"Lab".to_string(),
        &"FRANCE".to_string(),
        "1",
    )
    .expect("valid fields");
    assert_eq!(f.country, "FR");
}

#[test]
fn validate_fields_rejects_short_country() {
    let r = validate_input_cert_fields(
        &"ACME".to_string(),
        &"Lab".to_string(),
        &"F".to_string(),
        "1",
    );
    assert!(matches!(r, Err(CertError::InvalidCountry)));
}

#[test]
fn validate_fields_rejects_bad_validity() {
    let r = validate_input_cert_fields(
        &"ACME".to_string(),
        &"Lab".to_string(),
        &"FR".to_string(),
        "not a number",
    );
    assert!(matches!(r, Err(CertError::InvalidValidity)));
}

#[test]
fn parse_u32_behaves_like_std() {
    for s in ["0", "1", "42", "365", "+12", "4294967295", "4294967296", "", "+", "1a", "-1",
        "99999999999999999999"] {
        assert_eq!(parse_u32(s), s.parse::<u32>().ok(), "on {:?}", s);
    }
}

#[test]
fn u32_to_string_matches_std() {
    for v in [0u32, 1, 9, 10, 99, 100, 12345, u32::MAX] {
        assert_eq!(u32_to_string(v), v.to_string());
    }
}

#[test]
fn root_certificates_follow_the_profile() {
    let hk = generate_root(&fields(), NOW).expect("root generation");
    assert_eq!(hk.classic_cert.tbs.serial, vec![1u8]);
    assert_eq!(hk.pq_cert.tbs.serial, vec![1u8]);
    assert_eq!(hk.classic_cert.tbs.sig_oid, ED25519_OID);
    assert_eq!(hk.classic_cert.sig_alg_oid, ED25519_OID);
    assert_eq!(hk.pq_cert.sig_alg_oid, DILITHIUM5_OID);
    assert_eq!(hk.classic_cert.tbs.not_before, NOW);
    assert_eq!(hk.classic_cert.tbs.not_after, NOW + 10 * 86400);
    assert_eq!(hk.classic_cert.tbs.pub_key, hk.classic.public);
    assert_eq!(hk.pq_cert.tbs.pub_key, hk.pq.public_key);
}

#[test]
fn root_certificates_are_self_signed() {
    let (key, cert) = generate_root_ed25519(&fields(), NOW).expect("root generation");
    assert!(key.message_verify(&cert.tbs_der, &cert.signature));
}

#[test]
fn certificate_pem_round_trip() {
    let hk = generate_root(&fields(), NOW).expect("root generation");
    for cert in [&hk.classic_cert, &hk.pq_cert] {
        let pem = cert.to_pem().expect("encode");
        let parsed = Certificate::from_pem(&pem).expect("parse");
        assert_eq!(parsed.tbs.serial, cert.tbs.serial);
        assert_eq!(parsed.tbs.sig_oid, cert.tbs.sig_oid);
        assert_eq!(parsed.tbs.not_before, cert.tbs.not_before);
        assert_eq!(parsed.tbs.not_after, cert.tbs.not_after);
        assert_eq!(parsed.tbs.pub_key_oid, cert.tbs.pub_key_oid);
        assert_eq!(parsed.tbs.pub_key, cert.tbs.pub_key);
        assert_eq!(parsed.tbs_der, cert.tbs_der);
        assert_eq!(parsed.sig_alg_oid, cert.sig_alg_oid);
        assert_eq!(parsed.signature, cert.signature);
    }
}

#[test]
fn pem_is_readable_by_the_x509_crate() {
    let hk = generate_root(&fields(), NOW).expect("root generation");
    let pem = hk.classic_cert.to_pem().expect("encode");
    let cert = x509_cert::Certificate::from_pem(pem.as_bytes()).expect("foreign parse");
    assert_eq!(cert.tbs_certificate.serial_number.as_bytes(), &[1u8]);
    assert_eq!(
        cert.tbs_certificate.signature.oid.to_string(),
        ED25519_OID
    );
}

#[test]
fn leaf_issuance_signs_with_the_matching_half() {
    let ca = generate_root(&fields(), NOW).expect("root generation");
    let leaf = generate_signed_keypair(&ca, &fields(), &fields(), NOW).expect("leaf generation");
    // The classical leaf certificate is labelled classical and verifies
    // under the authority's classical key.
    assert_eq!(leaf.classic_cert.sig_alg_oid, ED25519_OID);
    assert!(ca.classic.message_verify(&leaf.classic_cert.tbs_der, &leaf.classic_cert.signature));
    // The post-quantum leaf certificate is labelled post-quantum and
    // verifies under the authority's post-quantum key.
    assert_eq!(leaf.pq_cert.sig_alg_oid, DILITHIUM5_OID);
    assert!(ca.pq.message_verify(&leaf.pq_cert.tbs_der, &leaf.pq_cert.signature));
    // The leaf certificates carry the leaf's public keys.
    assert_eq!(leaf.classic_cert.tbs.pub_key, leaf.classic.public);
    assert_eq!(leaf.pq_cert.tbs.pub_key, leaf.pq.public_key);
}

#[test]
fn issuance_rejects_unrecognized_algorithms() {
    let ca = generate_root(&fields(), NOW).expect("root generation");
    let csr = Csr {
        info_der: Vec::new(),
        pub_key_oid: "1.2.840.113549.1.1.1".to_string(),
        pub_key: vec![1, 2, 3],
        signature: Vec::new(),
    };
    let r = generate_cert_from_csr(&ca, &csr, &fields(), &[0x42], NOW);
    assert!(matches!(r, Err(CertError::UnknownAlgorithm)));
}

#[test]
fn export_bundle_restores_keys_and_certificates() {
    let hk = generate_root(&fields(), NOW).expect("root generation");
    let bundle = hk.export_with_cost("bundle password", 10).expect("export");
    let classic = KeysasClassicKey::load_keys(&bundle.classic_key_der, "bundle password")
        .expect("classic load");
    assert_eq!(classic.secret, hk.classic.secret);
    assert_eq!(classic.public, hk.classic.public);
    let pq = KeysasPQKey::load_keys(&bundle.pq_key_der, "bundle password").expect("pq load");
    assert_eq!(pq.private_key, hk.pq.private_key);
    assert_eq!(pq.public_key, hk.pq.public_key);
    let cert = Certificate::from_pem(&bundle.classic_cert_pem).expect("cert parse");
    assert_eq!(cert.signature, hk.classic_cert.signature);
}

#[test]
fn leaf_serials_are_random_and_positive() {
    let ca = generate_root(&fields(), NOW).expect("root generation");
    let leaf = generate_signed_keypair(&ca, &fields(), &fields(), NOW).expect("leaf generation");
    for cert in [&leaf.classic_cert, &leaf.pq_cert] {
        assert_eq!(cert.tbs.serial.len(), 16);
        assert!(cert.tbs.serial[0] >= 0x40 && cert.tbs.serial[0] < 0x80);
    }
    // Two serials drawn independently collide with negligible probability.
    assert_ne!(leaf.classic_cert.tbs.serial, leaf.pq_cert.tbs.serial);
}

#[test]
fn unknown_outer_algorithm_is_rejected_without_verification() {
    let hk = generate_root(&fields(), NOW).expect("root generation");
    // Relabel the certificate with an RSA identifier and render it again.
    let forged = x509_cert::Certificate {
        tbs_certificate: x509_cert::certificate::TbsCertificate::from_der(
            &hk.classic_cert.tbs_der,
        )
        .expect("tbs"),
        signature_algorithm: x509_cert::spki::AlgorithmIdentifier {
            oid: "1.2.840.113549.1.1.11".parse().expect("oid"),
            parameters: None,
        },
        signature: x509_cert::der::asn1::BitString::from_bytes(&hk.classic_cert.signature)
            .expect("bits"),
    };
    let pem = forged.to_pem(x509_cert::der::pem::LineEnding::LF).expect("pem");
    assert!(matches!(Certificate::from_pem(&pem), Err(CertError::UnknownAlgorithm)));
}

#[test]
fn key_file_paths_follow_the_layout() {
    let p = pki_file_paths("/etc/pki/CA", "root");
    assert_eq!(p.key_cl, "/etc/pki/CA/root-priv-cl.p8");
    assert_eq!(p.key_pq, "/etc/pki/CA/root-priv-pq.p8");
    assert_eq!(p.cert_cl, "/etc/pki/CA/root-cert-cl.pem");
    assert_eq!(p.cert_pq, "/etc/pki/CA/root-cert-pq.pem");
}

#[test]
fn issuance_rejects_a_bad_serial() {
    let ca = generate_root(&fields(), NOW).expect("root generation");
    let csr = ca.classic.generate_csr().expect("csr");
    for serial in [&[][..], &[0u8, 1][..], &[0x80u8][..], &[1u8; 20][..]] {
        let r = generate_cert_from_csr(&ca, &csr, &fields(), serial, NOW);
        assert!(matches!(r, Err(CertError::InvalidSerial)), "serial {serial:?}");
    }
}

#[test]
fn pki_directories_follow_the_layout() {
    let dirs = pki_directory_layout(&"/etc/pki".to_string());
    assert_eq!(
        dirs,
        vec![
            "/etc/pki/CA".to_string(),
            "/etc/pki/CA/root".to_string(),
            "/etc/pki/CA/st".to_string(),
            "/etc/pki/CA/usb".to_string(),
            "/etc/pki/CRL".to_string(),
            "/etc/pki/CERT".to_string(),
        ]
    );
}
