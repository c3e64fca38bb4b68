//! Device signature verifier.
//!
//! Given the two authority certificates and a device's identity, decide
//! whether the hybrid signature found in the device's reserved region
//! attests the device as an egress medium. The signed message is the
//! canonical byte string `vendor/model/revision/serial/out`: binding the
//! signature to the identity prevents replaying it from another device,
//! and the trailing direction tag prevents reading an egress authorization
//! as anything else.
//!
//! Reading the certificate files and the device region is the caller's
//! task; a decode failure of the region is treated as "unsigned", never as
//! an error that stops the event loop.

use vstd::prelude::*;

use crate::cert::spec_cert_from_pem;
use crate::cert::Certificate;
use crate::codec::decode_signature_payload;
use crate::codec::push_bytes;
use crate::codec::payload_decodes_to;
use crate::codec::HybridSignature;
use crate::codec::CL_SIGNATURE_LENGTH;
use crate::codec::PQ_SIGNATURE_LENGTH;
use crate::crypto::ed_verify_of;
use crate::crypto::ed_verify_raw;
use crate::crypto::pq_verify_of;
use crate::crypto::pq_verify_raw;
use crate::keys::DILITHIUM5_OID;
use crate::keys::ED25519_OID;

verus! {

/// Errors of the verifier. A false verdict carries one of these.
#[derive(Debug, Clone, Copy, PartialEq, Eq, Structural)]
pub enum VerifierError {
    /// The classical authority certificate does not parse or does not
    /// carry a classical public key.
    BadClassicCert,
    /// The post-quantum authority certificate does not parse or does not
    /// carry a post-quantum public key.
    BadPqCert,
    /// Both signature halves were rejected.
    BothRejected,
    /// Exactly one signature half verified: a tampered or mismatched
    /// hybrid signature.
    HybridMismatch,
}

/// The public halves of the two authority keys.
#[derive(Debug, Clone)]
pub struct KeysasHybridPubKeys {
    pub classic: Vec<u8>,
    pub pq: Vec<u8>,
}

/// The identity tuple of a block device, as udev reports it.
#[derive(Debug, Clone)]
pub struct DeviceIdentity {
    pub vendor_id: Vec<u8>,
    pub model_id: Vec<u8>,
    pub revision: Vec<u8>,
    pub serial: Vec<u8>,
}

/// Whether the two authority certificates yield a usable pair of public
/// keys: both parse, the classical one declares the classical algorithm,
/// the post-quantum one the post-quantum algorithm.
pub open spec fn spec_pubkeys_from_certs(cl_pem: Seq<char>, pq_pem: Seq<char>) -> Option<
    (Seq<u8>, Seq<u8>),
> {
    match spec_cert_from_pem(cl_pem) {
        Some(cl) => if cl.pk_oid == ED25519_OID@ {
            match spec_cert_from_pem(pq_pem) {
                Some(pq) => if pq.pk_oid == DILITHIUM5_OID@ {
                    Some((cl.pk, pq.pk))
                } else {
                    None
                },
                None => None,
            }
        } else {
            None
        },
        None => None,
    }
}

/// Extract the two authority public keys from the PEM texts of the
/// authority certificates. Succeeds exactly when both certificates parse
/// under the recognized algorithms and each declares the algorithm of its
/// half.
pub fn get_pubkeys_from_certs(cert_cl: &str, cert_pq: &str) -> (r: Result<
    KeysasHybridPubKeys,
    VerifierError,
>)
    ensures
        match spec_pubkeys_from_certs(cert_cl@, cert_pq@) {
            Some(p) => r is Ok && r->Ok_0.classic@ == p.0 && r->Ok_0.pq@ == p.1,
            None => r is Err,
        },
{
    let cl = match Certificate::from_pem(cert_cl) {
        Ok(c) => c,
        Err(_) => {
            return Err(VerifierError::BadClassicCert);
        },
    };
    if !crate::keys::oid_matches(&cl.tbs.pub_key_oid, ED25519_OID) {
        return Err(VerifierError::BadClassicCert);
    }
    let pq = match Certificate::from_pem(cert_pq) {
        Ok(c) => c,
        Err(_) => {
            return Err(VerifierError::BadPqCert);
        },
    };
    if !crate::keys::oid_matches(&pq.tbs.pub_key_oid, DILITHIUM5_OID) {
        return Err(VerifierError::BadPqCert);
    }
    Ok(KeysasHybridPubKeys { classic: cl.tbs.pub_key, pq: pq.tbs.pub_key })
}

/// The canonical message signed for a device: the identity fields joined
/// with `'/'` and terminated with `"/out"`.
pub open spec fn spec_out_message(v: Seq<u8>, m: Seq<u8>, r: Seq<u8>, s: Seq<u8>) -> Seq<u8> {
    v + seq![47u8] + m + seq![47u8] + r + seq![47u8] + s + seq![47u8, 111u8, 117u8, 116u8]
}

impl DeviceIdentity {
    /// The canonical byte string that a device signature signs:
    /// `vendor/model/revision/serial/out`.
    pub fn out_message(&self) -> (r: Vec<u8>)
        ensures
            r@ == spec_out_message(self.vendor_id@, self.model_id@, self.revision@, self.serial@),
    {
        let mut msg: Vec<u8> = Vec::new();
        push_bytes(&mut msg, self.vendor_id.as_slice());
        msg.push(47);
        push_bytes(&mut msg, self.model_id.as_slice());
        msg.push(47);
        push_bytes(&mut msg, self.revision.as_slice());
        msg.push(47);
        push_bytes(&mut msg, self.serial.as_slice());
        msg.push(47);
        msg.push(111);
        msg.push(117);
        msg.push(116);
        proof {
            assert(msg@ =~= spec_out_message(
                self.vendor_id@,
                self.model_id@,
                self.revision@,
                self.serial@,
            ));
        }
        msg
    }
}

/// Verify both halves of a hybrid signature over a message. Succeeds
/// exactly when both halves verify; when exactly one verifies, the error
/// is a hybrid mismatch.
pub fn verify_key_signatures(
    message: &[u8],
    signatures: &HybridSignature,
    pubkeys: &KeysasHybridPubKeys,
) -> (r: Result<(), VerifierError>)
    ensures
        r is Ok <==> ed_verify_of(pubkeys.classic@, message@, signatures.classic@) && pq_verify_of(
            pubkeys.pq@,
            message@,
            signatures.pq@,
        ),
        r == Err::<(), VerifierError>(VerifierError::HybridMismatch) <==> (ed_verify_of(
            pubkeys.classic@,
            message@,
            signatures.classic@,
        ) != pq_verify_of(pubkeys.pq@, message@, signatures.pq@)),
        r == Err::<(), VerifierError>(VerifierError::BothRejected) <==> !ed_verify_of(
            pubkeys.classic@,
            message@,
            signatures.classic@,
        ) && !pq_verify_of(pubkeys.pq@, message@, signatures.pq@),
{
    let cl_ok = ed_verify_raw(pubkeys.classic.as_slice(), message, signatures.classic.as_slice());
    let pq_ok = pq_verify_raw(pubkeys.pq.as_slice(), message, signatures.pq.as_slice());
    if cl_ok && pq_ok {
        Ok(())
    } else if cl_ok || pq_ok {
        Err(VerifierError::HybridMismatch)
    } else {
        Err(VerifierError::BothRejected)
    }
}

/// Whether a device signature payload attests the message: it decodes into
/// two halves of the schemes' exact lengths, and both halves verify under
/// the respective authority public key.
pub open spec fn spec_device_signed(
    pk_cl: Seq<u8>,
    pk_pq: Seq<u8>,
    msg: Seq<u8>,
    payload: Seq<u8>,
) -> bool {
    exists|cl: Seq<u8>, pq: Seq<u8>|
        {
            &&& #[trigger] payload_decodes_to(payload, cl, pq)
            &&& cl.len() == CL_SIGNATURE_LENGTH
            &&& pq.len() == PQ_SIGNATURE_LENGTH
            &&& ed_verify_of(pk_cl, msg, cl)
            &&& pq_verify_of(pk_pq, msg, pq)
        }
}

/// Decide whether the device carrying `payload` in its reserved region is
/// signed for egress under the given authority keys and identity. Any
/// decode failure means "unsigned"; a verdict of `true` means exactly that
/// the payload decodes and both signature halves verify over the canonical
/// message of this identity.
pub fn is_signed(pubkeys: &KeysasHybridPubKeys, id: &DeviceIdentity, payload: &[u8]) -> (r: bool)
    ensures
        r == spec_device_signed(
            pubkeys.classic@,
            pubkeys.pq@,
            spec_out_message(id.vendor_id@, id.model_id@, id.revision@, id.serial@),
            payload@,
        ),
{
    let ghost msg_spec = spec_out_message(id.vendor_id@, id.model_id@, id.revision@, id.serial@);
    let halves = match decode_signature_payload(payload) {
        Ok(h) => h,
        Err(_) => {
            proof {
                assert forall|cl: Seq<u8>, pq: Seq<u8>| !payload_decodes_to(
                    payload@,
                    cl,
                    pq,
                ) by {
                    if payload_decodes_to(payload@, cl, pq) {
                        assert(false);
                    }
                }
            }
            return false;
        },
    };
    let (cl, pq) = halves;
    if cl.len() != CL_SIGNATURE_LENGTH || pq.len() != PQ_SIGNATURE_LENGTH {
        proof {
            assert forall|c2: Seq<u8>, p2: Seq<u8>|
                payload_decodes_to(payload@, c2, p2) implies !(c2.len() == CL_SIGNATURE_LENGTH
                && p2.len() == PQ_SIGNATURE_LENGTH) by {}
        }
        return false;
    }
    let msg = id.out_message();
    let cl_ok = ed_verify_raw(pubkeys.classic.as_slice(), msg.as_slice(), cl.as_slice());
    let pq_ok = pq_verify_raw(pubkeys.pq.as_slice(), msg.as_slice(), pq.as_slice());
    if cl_ok && pq_ok {
        proof {
            assert(payload_decodes_to(payload@, cl@, pq@));
        }
        true
    } else {
        proof {
            assert forall|c2: Seq<u8>, p2: Seq<u8>|
                payload_decodes_to(payload@, c2, p2) implies !(ed_verify_of(
                pubkeys.classic@,
                msg_spec,
                c2,
            ) && pq_verify_of(pubkeys.pq@, msg_spec, p2)) by {}
        }
        false
    }
}

} // verus!
