//! Certificate engine of the hybrid public-key infrastructure.
//!
//! Certificates follow one fixed profile: version 3, an explicit signature
//! algorithm whose object identifier selects the classical or the
//! post-quantum scheme, empty issuer and subject names, a validity window
//! of whole days from the time of issuance, and a subject public key info
//! that carries the raw key bytes. Roots are self-signed with serial number
//! one; leaves are issued from a certificate signing request and carry a
//! random serial number.
//!
//! The library models a certificate by its profile fields together with the
//! DER bytes of its to-be-signed part; the X.509 encoding itself is done by
//! the x509-cert crate behind trusted wrappers. The outer signature
//! algorithm identifier always equals the identifier of the key that signed
//! the certificate; in particular a classical leaf is labelled classical.

use vstd::prelude::*;
use vstd::string::*;

use core::time::Duration;
use x509_cert::certificate::TbsCertificate;
use x509_cert::certificate::Version;
use x509_cert::request::CertReqInfo;
use x509_cert::serial_number::SerialNumber;
use x509_cert::der::asn1::BitString;
use x509_cert::der::asn1::GeneralizedTime;
use x509_cert::der::Decode;
use x509_cert::der::DecodePem;
use x509_cert::der::Encode;
use x509_cert::der::EncodePem;
use x509_cert::spki::AlgorithmIdentifier;
use x509_cert::spki::SubjectPublicKeyInfo;
use x509_cert::time::Time;
use x509_cert::time::Validity;

use crate::crypto::ed_pub_of;
use crate::crypto::ed_sign_of;
use crate::crypto::ed_verify_of;
use crate::crypto::pq_verify_of;
use crate::keys::pkcs8_parse_of;
use crate::keys::KeysasClassicKey;
use crate::keys::KeysasPQKey;
use crate::keys::oid_matches;
use crate::keys::DILITHIUM5_OID;
use crate::keys::ED25519_OID;

verus! {

/// Errors of the certificate engine.
#[derive(Debug, Clone, Copy, PartialEq, Eq, Structural)]
pub enum CertError {
    /// The operating system's random generator failed.
    RandomFailure,
    /// A signing key had the wrong length.
    SignFailure,
    /// The X.509 structure could not be encoded.
    EncodeFailure,
    /// The input is not a well-formed certificate.
    ParseFailure,
    /// An object identifier outside the recognized pair.
    UnknownAlgorithm,
    /// The country field is shorter than two characters.
    InvalidCountry,
    /// The validity field is not a day count that fits 32 bits, or the
    /// validity window cannot be represented.
    InvalidValidity,
    /// A serial number that DER cannot carry.
    InvalidSerial,
    /// Saving or loading key material failed.
    KeyStore,
}

/// Information used to build the certificates of the public-key
/// infrastructure.
#[derive(Debug, Clone)]
pub struct CertificateFields {
    pub org_name: String,
    pub org_unit: String,
    pub country: String,
    pub validity: u32,
}

/// The profile fields of a to-be-signed certificate: serial number,
/// announced signature algorithm, validity window in seconds since the Unix
/// epoch, and the subject's public key with its algorithm.
#[derive(Debug, Clone)]
pub struct TbsInfo {
    pub serial: Vec<u8>,
    pub sig_oid: String,
    pub not_before: u64,
    pub not_after: u64,
    pub pub_key_oid: String,
    pub pub_key: Vec<u8>,
}

/// A certificate of the fixed profile: its to-be-signed fields, the DER
/// bytes they encode to, the outer signature algorithm, and the signature.
#[derive(Debug, Clone)]
pub struct Certificate {
    pub tbs: TbsInfo,
    pub tbs_der: Vec<u8>,
    pub sig_alg_oid: String,
    pub signature: Vec<u8>,
}

/// Mathematical model of a certificate.
pub ghost struct CertSpec {
    pub serial: Seq<u8>,
    pub sig_oid: Seq<char>,
    pub not_before: u64,
    pub not_after: u64,
    pub pk_oid: Seq<char>,
    pub pk: Seq<u8>,
    pub tbs_der: Seq<u8>,
    pub outer_oid: Seq<char>,
    pub sig: Seq<u8>,
}

impl View for Certificate {
    type V = CertSpec;

    open spec fn view(&self) -> CertSpec {
        CertSpec {
            serial: self.tbs.serial@,
            sig_oid: self.tbs.sig_oid@,
            not_before: self.tbs.not_before,
            not_after: self.tbs.not_after,
            pk_oid: self.tbs.pub_key_oid@,
            pk: self.tbs.pub_key@,
            tbs_der: self.tbs_der@,
            outer_oid: self.sig_alg_oid@,
            sig: self.signature@,
        }
    }
}

/// The DER bytes of a validity window: two second-precision timestamps.
/// Named after der's encoder for `Validity`.
pub uninterp spec fn validity_der_of(not_before: u64, not_after: u64) -> Seq<u8>;

/// The DER bytes of the profile's to-be-signed certificate with the given
/// fields; the validity window is handed over in its own DER form. Named
/// after x509-cert's DER encoder.
pub uninterp spec fn tbs_der_of(
    serial: Seq<u8>,
    sig_oid: Seq<char>,
    validity_der: Seq<u8>,
    pk_oid: Seq<char>,
    pk: Seq<u8>,
) -> Seq<u8>;

/// The profile fields that parsing a DER to-be-signed certificate yields:
/// serial, signature algorithm, validity window, public key algorithm and
/// public key; `None` when the bytes do not parse. Named after x509-cert's
/// DER decoder.
pub uninterp spec fn tbs_parsed_of(der: Seq<u8>) -> Option<
    (Seq<u8>, Seq<char>, u64, u64, Seq<char>, Seq<u8>),
>;

/// The PEM text of a certificate assembled from to-be-signed DER bytes, an
/// outer signature algorithm and a signature. Named after x509-cert's PEM
/// encoder.
pub uninterp spec fn cert_pem_of(tbs_der: Seq<u8>, sig_oid: Seq<char>, sig: Seq<u8>) -> Seq<char>;

/// What parsing a PEM certificate yields: the DER bytes of its to-be-signed
/// part, the outer signature algorithm, and the signature; `None` when the
/// text does not parse. Named after x509-cert's PEM decoder.
pub uninterp spec fn cert_parsed_of(pem: Seq<char>) -> Option<(Seq<u8>, Seq<char>, Seq<u8>)>;

/// The DER bytes of a certificate signing request's information part with
/// an empty subject and the given public key. Named after x509-cert's DER
/// encoder for request information.
pub uninterp spec fn csr_info_der_of(pk_oid: Seq<char>, pk: Seq<u8>) -> Seq<u8>;

/// A serial number that DER carries as given: nonempty, at most 19 bytes,
/// no leading zero byte and no sign bit.
pub open spec fn spec_serial_ok(serial: Seq<u8>) -> bool {
    1 <= serial.len() <= 19 && serial[0] != 0 && serial[0] < 0x80
}

/// The last second that a DER timestamp can carry: the end of the year
/// 9999.
pub const MAX_DER_TIME_SECS: u64 = 253402300799;

/// A raw key or signature size up to which the X.509 encoders are promised
/// to succeed; far above both schemes' sizes.
pub const X509_FIELD_MAX_LEN: usize = 65535;

/// Relies on der's encoder for `Validity` over two `GeneralizedTime`
/// values: the encoding is a function of the two timestamps, with second
/// precision, and it fails exactly when a timestamp lies beyond the last
/// second that the DER time type can carry.
#[verifier::external_body]
fn x509_validity_der(not_before: u64, not_after: u64) -> (r: Option<Vec<u8>>)
    ensures
        not_before <= MAX_DER_TIME_SECS && not_after <= MAX_DER_TIME_SECS ==> r is Some,
        r matches Some(der) ==> der@ == validity_der_of(not_before, not_after),
{
    let nb = GeneralizedTime::from_unix_duration(Duration::from_secs(not_before)).ok()?;
    let na = GeneralizedTime::from_unix_duration(Duration::from_secs(not_after)).ok()?;
    Validity { not_before: Time::GeneralTime(nb), not_after: Time::GeneralTime(na) }.to_der().ok()
}

/// Relies on x509-cert: builds the profile's `TbsCertificate` (version 3,
/// empty issuer and subject, no extensions) and DER-encodes it. The
/// encoding is a function of the fields, and decoding it yields the fields
/// unchanged: DER is canonical, and the serial has no leading zeros. It
/// succeeds whenever the validity bytes are a window the validity encoder
/// produced and the key is of ordinary size: the admissible serial and the
/// recognized identifiers always encode, and every length fits DER.
#[verifier::external_body]
fn x509_tbs_der(
    serial: &[u8],
    sig_oid: &str,
    validity_der: &[u8],
    pk_oid: &str,
    pk: &[u8],
) -> (r: Option<Vec<u8>>)
    requires
        sig_oid@ == ED25519_OID@ || sig_oid@ == DILITHIUM5_OID@,
        pk_oid@ == ED25519_OID@ || pk_oid@ == DILITHIUM5_OID@,
        spec_serial_ok(serial@),
    ensures
        match r {
            Some(der) => {
                &&& der@ == tbs_der_of(serial@, sig_oid@, validity_der@, pk_oid@, pk@)
                &&& forall|nb: u64, na: u64|
                    validity_der@ == validity_der_of(nb, na) ==> tbs_parsed_of(der@) == Some(
                        (serial@, sig_oid@, nb, na, pk_oid@, pk@),
                    )
            },
            None => true,
        },
        (exists|nb: u64, na: u64| validity_der@ == validity_der_of(nb, na)) && pk@.len()
            <= X509_FIELD_MAX_LEN ==> r is Some,
{
    let tbs = TbsCertificate {
        version: Version::V3,
        serial_number: SerialNumber::new(serial).ok()?,
        signature: AlgorithmIdentifier { oid: sig_oid.parse().ok()?, parameters: None },
        issuer: Default::default(),
        validity: Validity::from_der(validity_der).ok()?,
        subject: Default::default(),
        subject_public_key_info: SubjectPublicKeyInfo {
            algorithm: AlgorithmIdentifier { oid: pk_oid.parse().ok()?, parameters: None },
            subject_public_key: BitString::from_bytes(pk).ok()?,
        },
        issuer_unique_id: None, subject_unique_id: None, extensions: None,
    };
    tbs.to_der().ok()
}

/// Relies on x509-cert's DER decoder for `TbsCertificate`: parsing is a
/// function of the bytes; it extracts the serial without leading zeros, the
/// two algorithm identifiers in dotted form, the validity window in seconds
/// and the raw public key bytes.
#[verifier::external_body]
fn x509_tbs_parse(der: &[u8]) -> (r: Result<TbsInfo, CertError>)
    ensures
        match r {
            Ok(t) => tbs_parsed_of(der@) == Some(
                (t.serial@, t.sig_oid@, t.not_before, t.not_after, t.pub_key_oid@, t.pub_key@),
            ),
            Err(e) => tbs_parsed_of(der@) is None && e == CertError::ParseFailure,
        },
{
    let tbs = x509_cert::certificate::TbsCertificate::from_der(der)
        .map_err(|_| CertError::ParseFailure)?;
    let pub_key = tbs.subject_public_key_info.subject_public_key.as_bytes()
        .ok_or(CertError::ParseFailure)?.to_vec();
    Ok(TbsInfo {
        serial: tbs.serial_number.as_bytes().to_vec(),
        sig_oid: tbs.signature.oid.to_string(),
        not_before: tbs.validity.not_before.to_unix_duration().as_secs(),
        not_after: tbs.validity.not_after.to_unix_duration().as_secs(),
        pub_key_oid: tbs.subject_public_key_info.algorithm.oid.to_string(),
        pub_key,
    })
}

/// Relies on x509-cert's PEM encoder: assembles the certificate from the
/// to-be-signed DER bytes, the outer algorithm and the signature, and
/// renders it as PEM with LF line endings. Parsing the text back yields the
/// three inputs unchanged. It succeeds whenever the to-be-signed bytes
/// parse and the signature is of ordinary size.
#[verifier::external_body]
fn x509_cert_pem(tbs_der: &[u8], sig_oid: &str, sig: &[u8]) -> (r: Result<String, CertError>)
    requires
        sig_oid@ == ED25519_OID@ || sig_oid@ == DILITHIUM5_OID@,
    ensures
        match r {
            Ok(pem) => {
                &&& pem@ == cert_pem_of(tbs_der@, sig_oid@, sig@)
                &&& cert_parsed_of(pem@) == Some((tbs_der@, sig_oid@, sig@))
            },
            Err(e) => e == CertError::EncodeFailure,
        },
        tbs_parsed_of(tbs_der@) is Some && sig@.len() <= X509_FIELD_MAX_LEN ==> r is Ok,
{
    let cert = x509_cert::Certificate {
        tbs_certificate: x509_cert::certificate::TbsCertificate::from_der(tbs_der)
            .map_err(|_| CertError::EncodeFailure)?,
        signature_algorithm: x509_cert::spki::AlgorithmIdentifier {
            oid: sig_oid.parse().map_err(|_| CertError::EncodeFailure)?,
            parameters: None,
        },
        signature: x509_cert::der::asn1::BitString::from_bytes(sig)
            .map_err(|_| CertError::EncodeFailure)?,
    };
    cert.to_pem(x509_cert::der::pem::LineEnding::LF).map_err(|_| CertError::EncodeFailure)
}

/// Relies on x509-cert's PEM decoder: parsing is a function of the text; it
/// yields the DER bytes of the to-be-signed part, the outer algorithm in
/// dotted form, and the raw signature bytes.
#[verifier::external_body]
fn x509_cert_parse_pem(pem: &str) -> (r: Result<(Vec<u8>, String, Vec<u8>), CertError>)
    ensures
        match r {
            Ok(t) => cert_parsed_of(pem@) == Some((t.0@, t.1@, t.2@)),
            Err(e) => cert_parsed_of(pem@) is None && e == CertError::ParseFailure,
        },
{
    let cert = x509_cert::Certificate::from_pem(pem.as_bytes())
        .map_err(|_| CertError::ParseFailure)?;
    let sig = cert.signature.as_bytes().ok_or(CertError::ParseFailure)?.to_vec();
    let tbs_der = cert.tbs_certificate.to_der().map_err(|_| CertError::ParseFailure)?;
    Ok((tbs_der, cert.signature_algorithm.oid.to_string(), sig))
}

/// Relies on x509-cert's DER encoder for `CertReqInfo`: builds the request
/// information (version 1, empty subject, no attributes) over the given
/// public key and DER-encodes it; the encoding is a function of the inputs,
/// and succeeds whenever the key is of ordinary size.
#[verifier::external_body]
fn x509_csr_info_der(pk_oid: &str, pk: &[u8]) -> (r: Option<Vec<u8>>)
    requires
        pk_oid@ == ED25519_OID@ || pk_oid@ == DILITHIUM5_OID@,
    ensures
        r matches Some(der) ==> der@ == csr_info_der_of(pk_oid@, pk@),
        pk@.len() <= X509_FIELD_MAX_LEN ==> r is Some,
{
    let info = CertReqInfo {
        version: x509_cert::request::Version::V1,
        subject: Default::default(),
        public_key: SubjectPublicKeyInfo {
            algorithm: AlgorithmIdentifier { oid: pk_oid.parse().ok()?, parameters: None },
            subject_public_key: BitString::from_bytes(pk).ok()?,
        },
        attributes: Default::default(),
    };
    info.to_der().ok()
}

/// Relies on rand's `OsRng`: sixteen bytes from the operating system's
/// random generator; nothing is promised of their values.
#[verifier::external_body]
fn random_bytes_16() -> (r: Option<Vec<u8>>)
    ensures
        match r {
            Some(v) => v@.len() == 16,
            None => true,
        },
{
    let mut bytes = [0u8; 16];
    rand::RngCore::try_fill_bytes(&mut rand::rngs::OsRng, &mut bytes).ok()?;
    Some(bytes.to_vec())
}

impl Certificate {
    /// The model fields agree with the to-be-signed DER bytes, and the
    /// outer algorithm is one of the recognized pair.
    pub open spec fn wf(&self) -> bool {
        &&& tbs_parsed_of(self.tbs_der@) == Some(
            (
                self.tbs.serial@,
                self.tbs.sig_oid@,
                self.tbs.not_before,
                self.tbs.not_after,
                self.tbs.pub_key_oid@,
                self.tbs.pub_key@,
            ),
        )
        &&& (self.sig_alg_oid@ == ED25519_OID@ || self.sig_alg_oid@ == DILITHIUM5_OID@)
    }

    /// Render the certificate as PEM text; for a well-formed certificate
    /// with a signature of ordinary size this succeeds. Parsing the text
    /// back yields this certificate: see `from_pem`.
    pub fn to_pem(&self) -> (r: Result<String, CertError>)
        requires
            self.wf(),
        ensures
            match r {
                Ok(pem) => {
                    &&& pem@ == cert_pem_of(self.tbs_der@, self.sig_alg_oid@, self.signature@)
                    &&& spec_cert_from_pem(pem@) == Some(self@)
                },
                Err(e) => e == CertError::EncodeFailure,
            },
            self.signature@.len() <= X509_FIELD_MAX_LEN ==> r is Ok,
    {
        x509_cert_pem(self.tbs_der.as_slice(), self.sig_alg_oid.as_str(), self.signature.as_slice())
    }

    /// Parse a PEM certificate into the profile's model. Succeeds exactly
    /// when the text parses as a certificate whose outer algorithm is one
    /// of the recognized pair and whose to-be-signed part parses; a
    /// certificate with an unrecognized algorithm is rejected without any
    /// signature check.
    pub fn from_pem(pem: &str) -> (r: Result<Certificate, CertError>)
        ensures
            match spec_cert_from_pem(pem@) {
                Some(v) => r is Ok && r->Ok_0@ == v && r->Ok_0.wf(),
                None => r is Err,
            },
    {
        let parsed = x509_cert_parse_pem(pem)?;
        let (tbs_der, sig_alg_oid, signature) = parsed;
        if !(oid_matches(&sig_alg_oid, ED25519_OID) || oid_matches(&sig_alg_oid, DILITHIUM5_OID)) {
            return Err(CertError::UnknownAlgorithm);
        }
        let tbs = x509_tbs_parse(tbs_der.as_slice())?;
        Ok(Certificate { tbs, tbs_der, sig_alg_oid, signature })
    }
}

/// What parsing a PEM certificate into the model yields: the parsed outer
/// parts with a recognized algorithm, and the parsed to-be-signed fields.
pub open spec fn spec_cert_from_pem(pem: Seq<char>) -> Option<CertSpec> {
    match cert_parsed_of(pem) {
        Some(t) => if t.1 == ED25519_OID@ || t.1 == DILITHIUM5_OID@ {
            match tbs_parsed_of(t.0) {
                Some(f) => Some(
                    CertSpec {
                        serial: f.0,
                        sig_oid: f.1,
                        not_before: f.2,
                        not_after: f.3,
                        pk_oid: f.4,
                        pk: f.5,
                        tbs_der: t.0,
                        outer_oid: t.1,
                        sig: t.2,
                    },
                ),
                None => None,
            }
        } else {
            None
        },
        None => None,
    }
}

/// Law: a certificate of the profile survives the PEM round trip. Whatever
/// text `to_pem` rendered for a well-formed certificate, `from_pem` parses
/// it back to an equal certificate.
pub proof fn lemma_cert_pem_round_trip(c: Certificate, pem: Seq<char>)
    requires
        c.wf(),
        pem == cert_pem_of(c.tbs_der@, c.sig_alg_oid@, c.signature@),
        cert_parsed_of(pem) == Some((c.tbs_der@, c.sig_alg_oid@, c.signature@)),
    ensures
        spec_cert_from_pem(pem) == Some(c@),
{
}

/// The value of a digit sequence read in base ten.
pub open spec fn spec_digits_value(s: Seq<char>) -> int
    decreases s.len(),
{
    if s.len() == 0 {
        0
    } else {
        spec_digits_value(s.drop_last()) * 10 + (s.last() as int - '0' as int)
    }
}

/// All characters are decimal digits.
pub open spec fn spec_all_digits(s: Seq<char>) -> bool {
    forall|i: int| 0 <= i < s.len() ==> '0' <= #[trigger] s[i] <= '9'
}

/// What Rust's `str::parse::<u32>` accepts: an optional leading plus sign,
/// then one or more decimal digits whose value fits 32 bits.
pub open spec fn spec_parse_u32(s: Seq<char>) -> Option<u32> {
    let body = if s.len() > 0 && s[0] == '+' {
        s.subrange(1, s.len() as int)
    } else {
        s
    };
    if body.len() > 0 && spec_all_digits(body) && spec_digits_value(body) <= u32::MAX {
        Some(spec_digits_value(body) as u32)
    } else {
        None
    }
}

proof fn lemma_digits_value_nonneg(s: Seq<char>)
    requires
        spec_all_digits(s),
    ensures
        spec_digits_value(s) >= 0,
    decreases s.len(),
{
    if s.len() > 0 {
        assert(spec_all_digits(s.drop_last()));
        lemma_digits_value_nonneg(s.drop_last());
    }
}

/// Parse a base-ten `u32` from the characters of `s`, as Rust's
/// `str::parse::<u32>` does.
pub fn parse_u32(s: &str) -> (r: Option<u32>)
    ensures
        r == spec_parse_u32(s@),
{
    let n = s.unicode_len();
    let start: usize = if n > 0 && s.get_char(0) == '+' {
        1
    } else {
        0
    };
    proof {
        assert(s@.subrange(0, s@.len() as int) =~= s@);
    }
    let ghost body = if s@.len() > 0 && s@[0] == '+' {
        s@.subrange(1, s@.len() as int)
    } else {
        s@.subrange(0, s@.len() as int)
    };
    if n == start {
        return None;
    }
    let mut acc: u64 = 0;
    let mut i: usize = start;
    while i < n
        invariant
            start <= i <= n,
            n == s@.len(),
            start == 0 || start == 1,
            start == 1 ==> s@.len() > 0 && s@[0] == '+',
            start == 0 ==> !(s@.len() > 0 && s@[0] == '+'),
            body == s@.subrange(start as int, n as int),
            spec_all_digits(s@.subrange(start as int, i as int)),
            acc <= 0x1_0000_0000u64,
            acc == if spec_digits_value(s@.subrange(start as int, i as int)) <= u32::MAX {
                spec_digits_value(s@.subrange(start as int, i as int))
            } else {
                0x1_0000_0000int
            },
        decreases n - i,
    {
        let c = s.get_char(i);
        if c < '0' || c > '9' {
            proof {
                assert(s@.subrange(0, n as int) =~= s@);
                assert(body[i - start] == s@[i as int]);
                assert(!spec_all_digits(body));
            }
            return None;
        }
        let d: u64 = (c as u32 as u64) - 48;
        proof {
            let prefix = s@.subrange(start as int, i as int);
            let prefix2 = s@.subrange(start as int, (i + 1) as int);
            assert(prefix2.drop_last() =~= prefix);
            assert(prefix2.last() == s@[i as int]);
            lemma_digits_value_nonneg(prefix);
        }
        acc = acc * 10 + d;
        if acc > u32::MAX as u64 {
            acc = 0x1_0000_0000;
        }
        i += 1;
    }
    proof {
        assert(s@.subrange(start as int, n as int) =~= body);
    }
    if acc > u32::MAX as u64 {
        proof {
            lemma_digits_value_nonneg(body);
        }
        return None;
    }
    Some(acc as u32)
}

/// The decimal digit character of a value below ten.
pub open spec fn spec_digit_char(d: int) -> char {
    if d == 0 {
        '0'
    } else if d == 1 {
        '1'
    } else if d == 2 {
        '2'
    } else if d == 3 {
        '3'
    } else if d == 4 {
        '4'
    } else if d == 5 {
        '5'
    } else if d == 6 {
        '6'
    } else if d == 7 {
        '7'
    } else if d == 8 {
        '8'
    } else {
        '9'
    }
}

/// The base-ten digit characters of a nonnegative value, most significant
/// first, without leading zeros.
pub open spec fn spec_u32_digits(v: int) -> Seq<char>
    decreases v,
{
    if v < 10 {
        seq![spec_digit_char(v)]
    } else {
        spec_u32_digits(v / 10).push(spec_digit_char(v % 10))
    }
}

/// Append one decimal digit character.
pub(crate) fn append_digit(s: &mut String, d: u32)
    requires
        d < 10,
    ensures
        final(s)@ == old(s)@ + seq![spec_digit_char(d as int)],
{
    if d == 0 {
        s.append("0");
        proof {
            reveal_strlit("0");
            assert("0"@ =~= seq![spec_digit_char(0)]);
        }
    } else if d == 1 {
        s.append("1");
        proof {
            reveal_strlit("1");
            assert("1"@ =~= seq![spec_digit_char(1)]);
        }
    } else if d == 2 {
        s.append("2");
        proof {
            reveal_strlit("2");
            assert("2"@ =~= seq![spec_digit_char(2)]);
        }
    } else if d == 3 {
        s.append("3");
        proof {
            reveal_strlit("3");
            assert("3"@ =~= seq![spec_digit_char(3)]);
        }
    } else if d == 4 {
        s.append("4");
        proof {
            reveal_strlit("4");
            assert("4"@ =~= seq![spec_digit_char(4)]);
        }
    } else if d == 5 {
        s.append("5");
        proof {
            reveal_strlit("5");
            assert("5"@ =~= seq![spec_digit_char(5)]);
        }
    } else if d == 6 {
        s.append("6");
        proof {
            reveal_strlit("6");
            assert("6"@ =~= seq![spec_digit_char(6)]);
        }
    } else if d == 7 {
        s.append("7");
        proof {
            reveal_strlit("7");
            assert("7"@ =~= seq![spec_digit_char(7)]);
        }
    } else if d == 8 {
        s.append("8");
        proof {
            reveal_strlit("8");
            assert("8"@ =~= seq![spec_digit_char(8)]);
        }
    } else {
        s.append("9");
        proof {
            reveal_strlit("9");
            assert("9"@ =~= seq![spec_digit_char(9)]);
        }
    }
}

/// Append the base-ten digits of a value, most significant first.
fn push_u32_digits(s: &mut String, v: u32)
    ensures
        final(s)@ == old(s)@ + spec_u32_digits(v as int),
    decreases v,
{
    if v >= 10 {
        push_u32_digits(s, v / 10);
    }
    append_digit(s, v % 10);
    proof {
        if v >= 10 {
            assert(old(s)@ + spec_u32_digits(v as int / 10) + seq![
                spec_digit_char(v as int % 10),
            ] =~= old(s)@ + spec_u32_digits(v as int));
        }
    }
}

/// The base-ten text of a value, as the store writes it.
pub fn u32_to_string(v: u32) -> (r: String)
    ensures
        r@ == spec_u32_digits(v as int),
{
    let mut s = String::new();
    push_u32_digits(&mut s, v);
    proof {
        assert(Seq::<char>::empty() + spec_u32_digits(v as int) =~= spec_u32_digits(v as int));
    }
    s
}

/// Validate user input and construct the certificate fields. The country
/// must hold at least two characters and is cut to its first two; the
/// validity must be a day count that fits 32 bits.
pub fn validate_input_cert_fields(
    org_name: &String,
    org_unit: &String,
    country: &String,
    validity: &str,
) -> (r: Result<CertificateFields, CertError>)
    ensures
        match r {
            Ok(f) => {
                &&& country@.len() >= 2
                &&& f.country@ == country@.subrange(0, 2)
                &&& spec_parse_u32(validity@) == Some(f.validity)
                &&& f.org_name@ == org_name@
                &&& f.org_unit@ == org_unit@
            },
            Err(e) => {
                &&& country@.len() < 2 || spec_parse_u32(validity@) is None
                &&& (e == CertError::InvalidCountry <==> country@.len() < 2)
            },
        },
{
    let n = country.as_str().unicode_len();
    if n < 2 {
        return Err(CertError::InvalidCountry);
    }
    let val = match parse_u32(validity) {
        Some(v) => v,
        None => {
            return Err(CertError::InvalidValidity);
        },
    };
    let cn: String = country.as_str().substring_char(0, 2).to_owned();
    Ok(
        CertificateFields {
            org_name: org_name.clone(),
            org_unit: org_unit.clone(),
            country: cn,
            validity: val,
        },
    )
}

impl CertificateFields {
    /// The validity window in seconds: whole days.
    pub open spec fn spec_validity_secs(&self) -> int {
        self.validity * 86400
    }
}

/// Build the profile's to-be-signed certificate over a public key: version
/// 3, the given serial, both algorithm identifiers set to `algo_oid`, empty
/// names, and a validity window of `infos.validity` days starting at `now`.
/// Returns the model fields together with their DER bytes.
pub fn construct_tbs_certificate(
    infos: &CertificateFields,
    serial: &[u8],
    pub_value: &[u8],
    algo_oid: &str,
    now: u64,
) -> (r: Result<(TbsInfo, Vec<u8>), CertError>)
    requires
        algo_oid@ == ED25519_OID@ || algo_oid@ == DILITHIUM5_OID@,
        spec_serial_ok(serial@),
    ensures
        match r {
            Ok(p) => {
                &&& p.0.serial@ == serial@
                &&& p.0.sig_oid@ == algo_oid@
                &&& p.0.pub_key_oid@ == algo_oid@
                &&& p.0.pub_key@ == pub_value@
                &&& p.0.not_before == now
                &&& p.0.not_after == now + infos.spec_validity_secs()
                &&& tbs_parsed_of(p.1@) == Some(
                    (
                        p.0.serial@,
                        p.0.sig_oid@,
                        p.0.not_before,
                        p.0.not_after,
                        p.0.pub_key_oid@,
                        p.0.pub_key@,
                    ),
                )
            },
            Err(e) => e == CertError::EncodeFailure || e == CertError::InvalidValidity,
        },
        now + infos.spec_validity_secs() <= MAX_DER_TIME_SECS && pub_value@.len()
            <= X509_FIELD_MAX_LEN ==> r is Ok,
{
    let dur: u64 = (infos.validity as u64) * 86400;
    if now > u64::MAX - dur {
        return Err(CertError::InvalidValidity);
    }
    let not_after = now + dur;
    let vder = match x509_validity_der(now, not_after) {
        Some(v) => v,
        None => {
            return Err(CertError::InvalidValidity);
        },
    };
    proof {
        assert(vder@ == validity_der_of(now, not_after));
    }
    let der = match x509_tbs_der(serial, algo_oid, vder.as_slice(), algo_oid, pub_value) {
        Some(d) => d,
        None => {
            return Err(CertError::EncodeFailure);
        },
    };
    let tbs = TbsInfo {
        serial: vstd::slice::slice_to_vec(serial),
        sig_oid: algo_oid.to_owned(),
        not_before: now,
        not_after,
        pub_key_oid: algo_oid.to_owned(),
        pub_key: vstd::slice::slice_to_vec(pub_value),
    };
    Ok((tbs, der))
}

/// A certificate signing request: the DER-encoded request information over
/// the subject's public key, and the subject's signature on it.
#[derive(Debug, Clone)]
pub struct Csr {
    pub info_der: Vec<u8>,
    pub pub_key_oid: String,
    pub pub_key: Vec<u8>,
    pub signature: Vec<u8>,
}

impl Csr {
    /// The request information encodes the declared public key, and the
    /// declared algorithm is one of the recognized pair.
    pub open spec fn wf(&self) -> bool {
        &&& self.info_der@ == csr_info_der_of(self.pub_key_oid@, self.pub_key@)
        &&& (self.pub_key_oid@ == ED25519_OID@ || self.pub_key_oid@ == DILITHIUM5_OID@)
    }
}

impl KeysasClassicKey {
    /// Build a certificate signing request for this key pair, with an
    /// empty subject name, signed with the key itself.
    pub fn generate_csr(&self) -> (r: Result<Csr, CertError>)
        ensures
            match r {
                Ok(c) => {
                    &&& c.wf()
                    &&& c.pub_key_oid@ == ED25519_OID@
                    &&& c.pub_key@ == self.public@
                    &&& c.signature@ == ed_sign_of(self.secret@, c.info_der@)
                    &&& c.signature@.len() == crate::crypto::ED_SIGNATURE_LENGTH
                    &&& ed_verify_of(ed_pub_of(self.secret@), c.info_der@, c.signature@)
                },
                Err(_) => true,
            },
    {
        let info_der = match x509_csr_info_der(ED25519_OID, self.public.as_slice()) {
            Some(d) => d,
            None => {
                return Err(CertError::EncodeFailure);
            },
        };
        let signature = match self.message_sign(info_der.as_slice()) {
            Ok(s) => s,
            Err(_) => {
                return Err(CertError::SignFailure);
            },
        };
        Ok(
            Csr {
                info_der,
                pub_key_oid: ED25519_OID.to_owned(),
                pub_key: self.public.clone(),
                signature,
            },
        )
    }
}

impl KeysasPQKey {
    /// Build a certificate signing request for this key pair, with an
    /// empty subject name, signed with the key itself: for a bonded key
    /// pair the request's signature verifies over the request bytes under
    /// its own public key.
    pub fn generate_csr(&self) -> (r: Result<Csr, CertError>)
        ensures
            match r {
                Ok(c) => {
                    &&& c.wf()
                    &&& c.pub_key_oid@ == DILITHIUM5_OID@
                    &&& c.pub_key@ == self.public_key@
                    &&& c.signature@.len() == crate::codec::PQ_SIGNATURE_LENGTH
                    &&& (self.bonded() ==> pq_verify_of(
                        self.public_key@,
                        c.info_der@,
                        c.signature@,
                    ))
                },
                Err(_) => true,
            },
    {
        let info_der = match x509_csr_info_der(DILITHIUM5_OID, self.public_key.as_slice()) {
            Some(d) => d,
            None => {
                return Err(CertError::EncodeFailure);
            },
        };
        let signature = match self.message_sign(info_der.as_slice()) {
            Ok(s) => s,
            Err(_) => {
                return Err(CertError::SignFailure);
            },
        };
        Ok(
            Csr {
                info_der,
                pub_key_oid: DILITHIUM5_OID.to_owned(),
                pub_key: self.public_key.clone(),
                signature,
            },
        )
    }
}

/// A hybrid key pair: one classical and one post-quantum key pair, each
/// with its certificate. Both halves are always generated, stored and used
/// together; partial state is an invariant violation.
#[derive(Debug, Clone)]
pub struct HybridKeyPair {
    pub classic: KeysasClassicKey,
    pub classic_cert: Certificate,
    pub pq: KeysasPQKey,
    pub pq_cert: Certificate,
}

impl HybridKeyPair {
    /// Both key pairs are well formed and each certificate carries its
    /// key's public half under the right algorithm identifier.
    pub open spec fn wf(&self) -> bool {
        &&& self.classic.wf()
        &&& self.pq.wf()
        &&& self.classic_cert.wf()
        &&& self.pq_cert.wf()
        &&& self.classic_cert.tbs.pub_key@ == self.classic.public@
        &&& self.pq_cert.tbs.pub_key@ == self.pq.public_key@
        &&& self.classic_cert.tbs.pub_key_oid@ == ED25519_OID@
        &&& self.pq_cert.tbs.pub_key_oid@ == DILITHIUM5_OID@
    }
}

/// Generate the classical root: a fresh key pair and a self-signed
/// certificate with serial number one, labelled with the classical
/// algorithm inside and outside, valid for `infos.validity` days from
/// `now`. Its signature verifies under the key's own public half.
pub fn generate_root_ed25519(infos: &CertificateFields, now: u64) -> (r: Result<
    (KeysasClassicKey, Certificate),
    CertError,
>)
    ensures
        match r {
            Ok(p) => {
                &&& p.0.wf() && p.0.bonded()
                &&& p.1.wf()
                &&& p.1.tbs.serial@ == seq![1u8]
                &&& p.1.tbs.pub_key@ == p.0.public@
                &&& p.1.tbs.pub_key_oid@ == ED25519_OID@
                &&& p.1.sig_alg_oid@ == ED25519_OID@
                &&& p.1.tbs.not_before == now
                &&& p.1.tbs.not_after == now + infos.spec_validity_secs()
                &&& p.1.signature@ == ed_sign_of(p.0.secret@, p.1.tbs_der@)
                &&& p.1.signature@.len() == crate::crypto::ED_SIGNATURE_LENGTH
                &&& ed_verify_of(p.0.public@, p.1.tbs_der@, p.1.signature@)
            },
            Err(_) => true,
        },
{
    let key = match KeysasClassicKey::generate() {
        Ok(k) => k,
        Err(_) => {
            return Err(CertError::RandomFailure);
        },
    };
    let serial: Vec<u8> = vec![1u8];
    let (tbs, tbs_der) = construct_tbs_certificate(
        infos,
        serial.as_slice(),
        key.public.as_slice(),
        ED25519_OID,
        now,
    )?;
    let signature = match key.message_sign(tbs_der.as_slice()) {
        Ok(s) => s,
        Err(_) => {
            return Err(CertError::SignFailure);
        },
    };
    let cert = Certificate { tbs, tbs_der, sig_alg_oid: ED25519_OID.to_owned(), signature };
    Ok((key, cert))
}

/// Generate the post-quantum root: a fresh key pair and a self-signed
/// certificate with serial number one, labelled with the post-quantum
/// algorithm inside and outside, valid for `infos.validity` days from
/// `now`. Its signature verifies under the key's own public half.
pub fn generate_root_dilithium(infos: &CertificateFields, now: u64) -> (r: Result<
    (KeysasPQKey, Certificate),
    CertError,
>)
    ensures
        match r {
            Ok(p) => {
                &&& p.0.wf() && p.0.bonded()
                &&& p.1.wf()
                &&& p.1.tbs.serial@ == seq![1u8]
                &&& p.1.tbs.pub_key@ == p.0.public_key@
                &&& p.1.tbs.pub_key_oid@ == DILITHIUM5_OID@
                &&& p.1.sig_alg_oid@ == DILITHIUM5_OID@
                &&& p.1.tbs.not_before == now
                &&& p.1.tbs.not_after == now + infos.spec_validity_secs()
                &&& p.1.signature@.len() == crate::codec::PQ_SIGNATURE_LENGTH
                &&& pq_verify_of(p.0.public_key@, p.1.tbs_der@, p.1.signature@)
            },
            Err(_) => true,
        },
{
    let key = KeysasPQKey::generate();
    let serial: Vec<u8> = vec![1u8];
    let (tbs, tbs_der) = construct_tbs_certificate(
        infos,
        serial.as_slice(),
        key.public_key.as_slice(),
        DILITHIUM5_OID,
        now,
    )?;
    let signature = match key.message_sign(tbs_der.as_slice()) {
        Ok(s) => s,
        Err(_) => {
            return Err(CertError::SignFailure);
        },
    };
    let cert = Certificate { tbs, tbs_der, sig_alg_oid: DILITHIUM5_OID.to_owned(), signature };
    Ok((key, cert))
}

/// Generate the root of the public-key infrastructure: both halves, each
/// with its self-signed certificate. Persisting the pair is the caller's
/// task; see `HybridKeyPair::export`.
pub fn generate_root(infos: &CertificateFields, now: u64) -> (r: Result<HybridKeyPair, CertError>)
    ensures
        match r {
            Ok(hk) => {
                &&& hk.wf()
                &&& hk.classic.bonded() && hk.pq.bonded()
                &&& ed_verify_of(
                    hk.classic.public@,
                    hk.classic_cert.tbs_der@,
                    hk.classic_cert.signature@,
                )
                &&& pq_verify_of(hk.pq.public_key@, hk.pq_cert.tbs_der@, hk.pq_cert.signature@)
                &&& hk.classic_cert.sig_alg_oid@ == ED25519_OID@
                &&& hk.pq_cert.sig_alg_oid@ == DILITHIUM5_OID@
                &&& hk.classic_cert.tbs.serial@ == seq![1u8]
                &&& hk.pq_cert.tbs.serial@ == seq![1u8]
                &&& hk.classic_cert.tbs.not_before == now
                &&& hk.pq_cert.tbs.not_before == now
                &&& hk.classic_cert.tbs.not_after == now + infos.spec_validity_secs()
                &&& hk.pq_cert.tbs.not_after == now + infos.spec_validity_secs()
                &&& hk.classic_cert.signature@.len() == crate::crypto::ED_SIGNATURE_LENGTH
                &&& hk.pq_cert.signature@.len() == crate::codec::PQ_SIGNATURE_LENGTH
            },
            Err(_) => true,
        },
{
    let (classic, classic_cert) = generate_root_ed25519(infos, now)?;
    let (pq, pq_cert) = generate_root_dilithium(infos, now)?;
    Ok(HybridKeyPair { classic, classic_cert, pq, pq_cert })
}

/// Turn sixteen random bytes into a serial number that DER carries as
/// given: the first byte is forced into the range 64 to 127, so the number
/// is positive, nonzero and without leading zeros.
fn normalize_serial(bytes: &mut Vec<u8>)
    requires
        old(bytes)@.len() == 16,
    ensures
        final(bytes)@.len() == 16,
        spec_serial_ok(final(bytes)@),
{
    let b0 = bytes[0];
    let forced: u8 = (b0 & 0x7f) | 0x40;
    proof {
        assert(((b0 & 0x7f) | 0x40) >= 0x40 && ((b0 & 0x7f) | 0x40) < 0x80) by (bit_vector);
    }
    bytes.set(0, forced);
}

/// Issue a certificate from a signing request. The request's declared
/// algorithm must be exactly one of the recognized pair; a classical
/// request is signed with the authority's classical half and a
/// post-quantum request with its post-quantum half, never across. The
/// issued certificate's outer algorithm identifier equals the identifier
/// of the key that signed it. Issuance is owed: with a recognized request,
/// a well-formed authority half, an admissible serial and a validity
/// window that DER can carry, it returns a certificate.
pub fn generate_cert_from_csr(
    ca_keys: &HybridKeyPair,
    csr: &Csr,
    pki_info: &CertificateFields,
    serial: &[u8],
    now: u64,
) -> (r: Result<Certificate, CertError>)
    ensures
        csr.pub_key_oid@ != ED25519_OID@ && csr.pub_key_oid@ != DILITHIUM5_OID@ ==> r
            == Err::<Certificate, CertError>(CertError::UnknownAlgorithm),
        (csr.pub_key_oid@ == ED25519_OID@ || csr.pub_key_oid@ == DILITHIUM5_OID@)
            && !spec_serial_ok(serial@) ==> r == Err::<Certificate, CertError>(
            CertError::InvalidSerial,
        ),
        ({
            ||| csr.pub_key_oid@ == ED25519_OID@ && ca_keys.classic.wf()
            ||| csr.pub_key_oid@ == DILITHIUM5_OID@ && ca_keys.pq.wf()
        }) && spec_serial_ok(serial@) && csr.pub_key@.len() <= X509_FIELD_MAX_LEN && now
            + pki_info.spec_validity_secs() <= MAX_DER_TIME_SECS ==> r is Ok,
        match r {
            Ok(c) => {
                &&& c.wf()
                &&& c.tbs.serial@ == serial@
                &&& c.tbs.pub_key@ == csr.pub_key@
                &&& c.tbs.pub_key_oid@ == csr.pub_key_oid@
                &&& c.sig_alg_oid@ == csr.pub_key_oid@
                &&& c.tbs.not_before == now
                &&& c.tbs.not_after == now + pki_info.spec_validity_secs()
                &&& (csr.pub_key_oid@ == ED25519_OID@ ==> c.signature@ == ed_sign_of(
                    ca_keys.classic.secret@,
                    c.tbs_der@,
                ) && ed_verify_of(ed_pub_of(ca_keys.classic.secret@), c.tbs_der@, c.signature@)
                    && c.signature@.len() == crate::crypto::ED_SIGNATURE_LENGTH)
                &&& (csr.pub_key_oid@ == DILITHIUM5_OID@ ==> c.signature@.len()
                    == crate::codec::PQ_SIGNATURE_LENGTH)
                &&& (csr.pub_key_oid@ == DILITHIUM5_OID@ && ca_keys.pq.bonded() ==> pq_verify_of(
                    ca_keys.pq.public_key@,
                    c.tbs_der@,
                    c.signature@,
                ))
            },
            Err(_) => true,
        },
{
    proof {
        reveal_strlit("1.3.101.112");
        reveal_strlit("1.3.6.1.4.1.2.267.7.8.7");
        assert(ED25519_OID@.len() != DILITHIUM5_OID@.len());
    }
    if !(oid_matches(&csr.pub_key_oid, ED25519_OID) || oid_matches(
        &csr.pub_key_oid,
        DILITHIUM5_OID,
    )) {
        return Err(CertError::UnknownAlgorithm);
    }
    if serial.len() == 0 || serial.len() > 19 || serial[0] == 0 || serial[0] >= 0x80 {
        return Err(CertError::InvalidSerial);
    }
    if oid_matches(&csr.pub_key_oid, ED25519_OID) {
        let (tbs, tbs_der) = construct_tbs_certificate(
            pki_info,
            serial,
            csr.pub_key.as_slice(),
            ED25519_OID,
            now,
        )?;
        let signature = match ca_keys.classic.message_sign(tbs_der.as_slice()) {
            Ok(s) => s,
            Err(_) => {
                return Err(CertError::SignFailure);
            },
        };
        Ok(Certificate { tbs, tbs_der, sig_alg_oid: ED25519_OID.to_owned(), signature })
    } else {
        let (tbs, tbs_der) = construct_tbs_certificate(
            pki_info,
            serial,
            csr.pub_key.as_slice(),
            DILITHIUM5_OID,
            now,
        )?;
        let signature = match ca_keys.pq.message_sign(tbs_der.as_slice()) {
            Ok(s) => s,
            Err(_) => {
                return Err(CertError::SignFailure);
            },
        };
        Ok(Certificate { tbs, tbs_der, sig_alg_oid: DILITHIUM5_OID.to_owned(), signature })
    }
}

/// Generate a leaf key pair signed by the authority: fresh classical and
/// post-quantum keys, a signing request for each, and a certificate issued
/// from each request with a random serial number. The subject name of the
/// profile is empty; `_subject_infos` is kept for symmetry with the
/// authority's fields.
pub fn generate_signed_keypair(
    ca_keys: &HybridKeyPair,
    _subject_infos: &CertificateFields,
    pki_infos: &CertificateFields,
    now: u64,
) -> (r: Result<HybridKeyPair, CertError>)
    ensures
        match r {
            Ok(hk) => {
                &&& hk.wf()
                &&& hk.classic.bonded() && hk.pq.bonded()
                &&& hk.classic_cert.sig_alg_oid@ == ED25519_OID@
                &&& hk.pq_cert.sig_alg_oid@ == DILITHIUM5_OID@
                &&& hk.classic_cert.signature@ == ed_sign_of(
                    ca_keys.classic.secret@,
                    hk.classic_cert.tbs_der@,
                )
                &&& ed_verify_of(
                    ed_pub_of(ca_keys.classic.secret@),
                    hk.classic_cert.tbs_der@,
                    hk.classic_cert.signature@,
                )
                &&& (ca_keys.pq.bonded() ==> pq_verify_of(
                    ca_keys.pq.public_key@,
                    hk.pq_cert.tbs_der@,
                    hk.pq_cert.signature@,
                ))
                &&& hk.classic_cert.signature@.len() == crate::crypto::ED_SIGNATURE_LENGTH
                &&& hk.pq_cert.signature@.len() == crate::codec::PQ_SIGNATURE_LENGTH
            },
            Err(_) => true,
        },
{
    let classic = match KeysasClassicKey::generate() {
        Ok(k) => k,
        Err(_) => {
            return Err(CertError::RandomFailure);
        },
    };
    let csr_cl = classic.generate_csr()?;
    let mut serial_cl = match random_bytes_16() {
        Some(b) => b,
        None => {
            return Err(CertError::RandomFailure);
        },
    };
    normalize_serial(&mut serial_cl);
    let classic_cert = generate_cert_from_csr(ca_keys, &csr_cl, pki_infos, serial_cl.as_slice(), now)?;

    let pq = KeysasPQKey::generate();
    let csr_pq = pq.generate_csr()?;
    let mut serial_pq = match random_bytes_16() {
        Some(b) => b,
        None => {
            return Err(CertError::RandomFailure);
        },
    };
    normalize_serial(&mut serial_pq);
    let pq_cert = generate_cert_from_csr(ca_keys, &csr_pq, pki_infos, serial_pq.as_slice(), now)?;

    Ok(HybridKeyPair { classic, classic_cert, pq, pq_cert })
}

/// The four documents that persist a hybrid key pair on disk: the two
/// password-encrypted PKCS#8 key files and the two PEM certificates.
#[derive(Debug, Clone)]
pub struct HybridKeyBundle {
    pub classic_key_der: Vec<u8>,
    pub pq_key_der: Vec<u8>,
    pub classic_cert_pem: String,
    pub pq_cert_pem: String,
}

impl HybridKeyPair {
    /// Encode the pair for persistence: both private keys under the
    /// password, both certificates as PEM. Loading the key files with the
    /// same password yields the key material unchanged, and parsing the
    /// PEM texts yields the certificates unchanged.
    pub fn export(&self, pwd: &str) -> (r: Result<HybridKeyBundle, CertError>)
        requires
            self.wf(),
        ensures
            match r {
                Ok(b) => {
                    &&& pkcs8_parse_of(b.classic_key_der@, pwd@) == Some(
                        (ED25519_OID@, self.classic.secret@, Some(self.classic.public@)),
                    )
                    &&& pkcs8_parse_of(b.pq_key_der@, pwd@) == Some(
                        (DILITHIUM5_OID@, self.pq.private_key@, Some(self.pq.public_key@)),
                    )
                    &&& spec_cert_from_pem(b.classic_cert_pem@) == Some(self.classic_cert@)
                    &&& spec_cert_from_pem(b.pq_cert_pem@) == Some(self.pq_cert@)
                },
                Err(_) => true,
            },
    {
        self.export_with_cost(pwd, crate::keys::SCRYPT_RECOMMENDED_LOG_N)
    }

    /// As `export`, with an explicit scrypt work factor for the two key
    /// files.
    pub fn export_with_cost(&self, pwd: &str, cost: u8) -> (r: Result<HybridKeyBundle, CertError>)
        requires
            self.wf(),
        ensures
            match r {
                Ok(b) => {
                    &&& pkcs8_parse_of(b.classic_key_der@, pwd@) == Some(
                        (ED25519_OID@, self.classic.secret@, Some(self.classic.public@)),
                    )
                    &&& pkcs8_parse_of(b.pq_key_der@, pwd@) == Some(
                        (DILITHIUM5_OID@, self.pq.private_key@, Some(self.pq.public_key@)),
                    )
                    &&& spec_cert_from_pem(b.classic_cert_pem@) == Some(self.classic_cert@)
                    &&& spec_cert_from_pem(b.pq_cert_pem@) == Some(self.pq_cert@)
                },
                Err(_) => true,
            },
    {
        let classic_key_der = match self.classic.save_keys_with_cost(pwd, cost) {
            Ok(d) => d,
            Err(_) => {
                return Err(CertError::KeyStore);
            },
        };
        let pq_key_der = match self.pq.save_keys_with_cost(pwd, cost) {
            Ok(d) => d,
            Err(_) => {
                return Err(CertError::KeyStore);
            },
        };
        let classic_cert_pem = self.classic_cert.to_pem()?;
        let pq_cert_pem = self.pq_cert.to_pem()?;
        Ok(HybridKeyBundle { classic_key_der, pq_key_der, classic_cert_pem, pq_cert_pem })
    }
}

/// The four sibling files that persist a hybrid key pair: the two
/// password-encrypted key files with the `-cl.p8` and `-pq.p8` suffixes,
/// and the two PEM certificates with the `-cl.pem` and `-pq.pem`
/// suffixes. Loading one key file without its sibling is a fatal
/// asymmetry.
#[derive(Debug, Clone)]
pub struct HybridFilePaths {
    pub key_cl: String,
    pub key_pq: String,
    pub cert_cl: String,
    pub cert_pq: String,
}

/// The file paths of a named hybrid key pair under a directory: the two
/// private key files and the two certificates.
pub fn pki_file_paths(dir: &str, name: &str) -> (r: HybridFilePaths)
    ensures
        r.key_cl@ == dir@ + "/"@ + name@ + "-priv-cl.p8"@,
        r.key_pq@ == dir@ + "/"@ + name@ + "-priv-pq.p8"@,
        r.cert_cl@ == dir@ + "/"@ + name@ + "-cert-cl.pem"@,
        r.cert_pq@ == dir@ + "/"@ + name@ + "-cert-pq.pem"@,
{
    let mut base: String = dir.to_owned();
    base.append("/");
    base.append(name);
    let mut key_cl = base.clone();
    key_cl.append("-priv-cl.p8");
    let mut key_pq = base.clone();
    key_pq.append("-priv-pq.p8");
    let mut cert_cl = base.clone();
    cert_cl.append("-cert-cl.pem");
    let mut cert_pq = base.clone();
    cert_pq.append("-cert-pq.pem");
    HybridFilePaths { key_cl, key_pq, cert_cl, cert_pq }
}

/// The directory layout of the public-key infrastructure under its root:
/// the authority directories for the root, the station and the USB keys,
/// and the revocation-list and certificate directories.
pub fn pki_directory_layout(pki_dir: &String) -> (r: Vec<String>)
    ensures
        r@.len() == 6,
        r@[0]@ == pki_dir@ + "/CA"@,
        r@[1]@ == pki_dir@ + "/CA/root"@,
        r@[2]@ == pki_dir@ + "/CA/st"@,
        r@[3]@ == pki_dir@ + "/CA/usb"@,
        r@[4]@ == pki_dir@ + "/CRL"@,
        r@[5]@ == pki_dir@ + "/CERT"@,
{
    let mut out: Vec<String> = Vec::new();
    let mut p = pki_dir.clone();
    p.append("/CA");
    out.push(p);
    let mut p = pki_dir.clone();
    p.append("/CA/root");
    out.push(p);
    let mut p = pki_dir.clone();
    p.append("/CA/st");
    out.push(p);
    let mut p = pki_dir.clone();
    p.append("/CA/usb");
    out.push(p);
    let mut p = pki_dir.clone();
    p.append("/CRL");
    out.push(p);
    let mut p = pki_dir.clone();
    p.append("/CERT");
    out.push(p);
    out
}

} // verus!
