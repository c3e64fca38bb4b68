//! Device signature codec.
//!
//! A trusted egress device carries a hybrid signature in the reserved region
//! between byte offsets 512 and 8192 of the raw disk. The layout is a 4-byte
//! big-endian length `L` at offset 512, with `1 <= L <= 7684`, followed by
//! `L` bytes of ASCII payload of the form
//! `base64(classical signature) '|' base64(post-quantum signature)`.
//!
//! This module validates the length prefix, splits the payload at its first
//! `'|'`, and encodes or decodes the two base64 halves. Reading the raw bytes
//! off the device is the caller's task; every function here works on plain
//! byte slices.

use base64::Engine;
use vstd::prelude::*;

verus! {

/// Byte value of the ASCII separator `'|'` between the two signature halves.
pub const PIPE_BYTE: u8 = 124;

/// Largest admissible payload length: the signature must fit in the gap
/// between the master boot record and the first partition.
pub const SIGNATURE_MAX_LEN: u32 = 7684;

/// Byte length of a classical (Ed25519) signature.
pub const CL_SIGNATURE_LENGTH: usize = 64;

/// Byte length of a post-quantum (Dilithium 5) signature.
pub const PQ_SIGNATURE_LENGTH: usize = 4627;

/// Errors of the signature codec. Every variant is a parse failure: the
/// caller treats the device as unsigned.
#[derive(Debug, Clone, Copy, PartialEq, Eq, Structural)]
pub enum CodecError {
    /// The length prefix is zero or larger than `SIGNATURE_MAX_LEN`.
    InvalidLength,
    /// The payload holds no `'|'` separator.
    MissingSeparator,
    /// The classical half is not canonical base64.
    BadClassicEncoding,
    /// The post-quantum half is not canonical base64.
    BadPqEncoding,
    /// The classical half does not decode to exactly 64 bytes.
    BadClassicSignature,
    /// The post-quantum half does not decode to a Dilithium 5 signature.
    BadPqSignature,
}

/// A decoded hybrid signature: one classical and one post-quantum half over
/// the same message.
#[derive(Debug, Clone, PartialEq, Eq)]
pub struct HybridSignature {
    pub classic: Vec<u8>,
    pub pq: Vec<u8>,
}

impl HybridSignature {
    /// Both halves have the exact length of their scheme.
    pub open spec fn wf(&self) -> bool {
        self.classic@.len() == CL_SIGNATURE_LENGTH && self.pq@.len() == PQ_SIGNATURE_LENGTH
    }
}

/// The base64 text (standard alphabet, with padding) of a byte sequence, as
/// ASCII bytes. Named after the encoder of the base64 crate.
pub uninterp spec fn b64_of(data: Seq<u8>) -> Seq<u8>;

/// Relies on base64's `Engine::encode` with the `STANDARD` engine: the text
/// is a function of the input bytes alone, four characters for each three
/// bytes, drawn from an alphabet that holds no `'|'`, and no two inputs
/// share an encoding.
#[verifier::external_body]
fn b64_encode(data: &[u8]) -> (r: Vec<u8>)
    ensures
        r@ == b64_of(data@),
        !r@.contains(PIPE_BYTE),
        forall|y: Seq<u8>| b64_of(y) == r@ ==> y == data@,
{
    base64::engine::general_purpose::STANDARD.encode(data).into_bytes()
}

/// Relies on base64's `Engine::decode` with the `STANDARD` engine, which
/// requires canonical padding and rejects trailing bits: it accepts exactly
/// the outputs of the encoder, and inverts it.
#[verifier::external_body]
fn b64_decode(data: &[u8]) -> (r: Option<Vec<u8>>)
    ensures
        match r {
            Some(d) => {
                &&& data@ == b64_of(d@)
                &&& forall|y: Seq<u8>| data@ == b64_of(y) ==> y == d@
            },
            None => forall|y: Seq<u8>| data@ != b64_of(y),
        },
{
    match base64::engine::general_purpose::STANDARD.decode(data) {
        Ok(d) => Some(d),
        Err(_) => None,
    }
}

/// The big-endian 32-bit integer held by the first four bytes of `b`.
pub open spec fn spec_be_u32(b: Seq<u8>) -> u32
    recommends
        b.len() == 4,
{
    (((b[0] as int) * 0x1000000) + ((b[1] as int) * 0x10000) + ((b[2] as int) * 0x100) + (
    b[3] as int)) as u32
}

/// A length prefix is admissible when it lies in `[1, SIGNATURE_MAX_LEN]`.
pub open spec fn spec_length_ok(l: u32) -> bool {
    1 <= l <= SIGNATURE_MAX_LEN
}

/// Parse and validate the 4-byte big-endian length prefix read at offset
/// 512. The caller must consult this before reading or allocating payload
/// bytes: an out-of-range length is rejected here, so no buffer of that
/// size is ever allocated.
pub fn parse_signature_length(prefix: &[u8]) -> (r: Result<u32, CodecError>)
    requires
        prefix@.len() == 4,
    ensures
        match r {
            Ok(l) => l == spec_be_u32(prefix@) && spec_length_ok(l),
            Err(e) => e == CodecError::InvalidLength && !spec_length_ok(spec_be_u32(prefix@)),
        },
{
    let l: u32 = (prefix[0] as u32) * 0x1000000 + (prefix[1] as u32) * 0x10000 + (prefix[2] as u32)
        * 0x100 + (prefix[3] as u32);
    if 1 <= l && l <= SIGNATURE_MAX_LEN {
        Ok(l)
    } else {
        Err(CodecError::InvalidLength)
    }
}

/// `a` and `b` are the two halves of `blob` around its first `'|'`, which
/// stands at index `i`.
pub open spec fn splits_at_first_pipe(blob: Seq<u8>, i: int, a: Seq<u8>, b: Seq<u8>) -> bool {
    &&& 0 <= i < blob.len()
    &&& blob[i] == PIPE_BYTE
    &&& (forall|j: int| 0 <= j < i ==> blob[j] != PIPE_BYTE)
    &&& a == blob.subrange(0, i)
    &&& b == blob.subrange(i + 1, blob.len() as int)
}

/// `blob` is the encoded payload of the halves `cl` and `pq`: the part
/// before its first `'|'` is the base64 text of `cl`, the part after it the
/// base64 text of `pq`.
pub open spec fn payload_decodes_to(blob: Seq<u8>, cl: Seq<u8>, pq: Seq<u8>) -> bool {
    exists|i: int| #![auto] splits_at_first_pipe(blob, i, b64_of(cl), b64_of(pq))
}

/// Index of the first `'|'` in `blob`, if any.
fn find_pipe(blob: &[u8]) -> (r: Option<usize>)
    ensures
        match r {
            Some(i) => i < blob@.len() && blob@[i as int] == PIPE_BYTE && (forall|j: int|
                0 <= j < i ==> blob@[j] != PIPE_BYTE),
            None => forall|j: int| 0 <= j < blob@.len() ==> blob@[j] != PIPE_BYTE,
        },
{
    let mut i: usize = 0;
    while i < blob.len()
        invariant
            i <= blob@.len(),
            forall|j: int| 0 <= j < i ==> blob@[j] != PIPE_BYTE,
        decreases blob@.len() - i,
    {
        if blob[i] == PIPE_BYTE {
            return Some(i);
        }
        i += 1;
    }
    None
}

/// The bytes of `data` from `start` (inclusive) to `end` (exclusive), as an
/// owned vector.
fn copy_range(data: &[u8], start: usize, end: usize) -> (r: Vec<u8>)
    requires
        start <= end <= data@.len(),
    ensures
        r@ == data@.subrange(start as int, end as int),
{
    let mut v: Vec<u8> = Vec::new();
    let mut i: usize = start;
    while i < end
        invariant
            start <= i <= end <= data@.len(),
            v@ == data@.subrange(start as int, i as int),
        decreases end - i,
    {
        v.push(data[i]);
        proof {
            assert(data@.subrange(start as int, (i + 1) as int) =~= data@.subrange(
                start as int,
                i as int,
            ) + seq![data@[i as int]]);
        }
        i += 1;
    }
    v
}

/// Decode a signature payload into its two raw halves: split at the first
/// `'|'` and base64-decode both sides.
///
/// The final `ensures` clause is the decoding direction of the round trip:
/// whatever `encode_signature_payload` produced comes back unchanged.
pub fn decode_signature_payload(blob: &[u8]) -> (r: Result<(Vec<u8>, Vec<u8>), CodecError>)
    ensures
        match r {
            Ok(p) => payload_decodes_to(blob@, p.0@, p.1@),
            Err(e) => {
                &&& (e == CodecError::MissingSeparator || e == CodecError::BadClassicEncoding
                    || e == CodecError::BadPqEncoding)
                &&& (e == CodecError::MissingSeparator <==> (forall|j: int|
                    0 <= j < blob@.len() ==> blob@[j] != PIPE_BYTE))
            },
        },
        forall|cl: Seq<u8>, pq: Seq<u8>|
            payload_decodes_to(blob@, cl, pq) ==> (r is Ok && r->Ok_0.0@ == cl && r->Ok_0.1@ == pq),
{
    let i = match find_pipe(blob) {
        Some(i) => i,
        None => {
            proof {
                assert(forall|cl: Seq<u8>, pq: Seq<u8>|
                    payload_decodes_to(blob@, cl, pq) ==> false) by {
                    assert forall|cl: Seq<u8>, pq: Seq<u8>|
                        payload_decodes_to(blob@, cl, pq) implies false by {
                        let k = choose|k: int|
                            splits_at_first_pipe(blob@, k, b64_of(cl), b64_of(pq));
                        assert(blob@[k] == PIPE_BYTE);
                    }
                }
            }
            return Err(CodecError::MissingSeparator);
        },
    };
    let n = blob.len();
    assert(i < n);
    let first = copy_range(blob, 0, i);
    let second = copy_range(blob, i + 1, n);
    let cl = match b64_decode(first.as_slice()) {
        Some(c) => c,
        None => {
            proof {
                lemma_no_witness_when_half_undecodable(blob@, i as int, true);
            }
            return Err(CodecError::BadClassicEncoding);
        },
    };
    let pq = match b64_decode(second.as_slice()) {
        Some(p) => p,
        None => {
            proof {
                lemma_no_witness_when_half_undecodable(blob@, i as int, false);
            }
            return Err(CodecError::BadPqEncoding);
        },
    };
    proof {
        assert(splits_at_first_pipe(blob@, i as int, b64_of(cl@), b64_of(pq@)));
        assert forall|c2: Seq<u8>, p2: Seq<u8>| payload_decodes_to(blob@, c2, p2) implies c2 == cl@
            && p2 == pq@ by {
            let k = choose|k: int| splits_at_first_pipe(blob@, k, b64_of(c2), b64_of(p2));
            lemma_first_pipe_unique(blob@, i as int, k);
        }
    }
    Ok((cl, pq))
}

/// Two indices that both mark the first `'|'` of `blob` are equal.
proof fn lemma_first_pipe_unique(blob: Seq<u8>, i: int, k: int)
    requires
        0 <= i < blob.len(),
        0 <= k < blob.len(),
        blob[i] == PIPE_BYTE,
        blob[k] == PIPE_BYTE,
        forall|j: int| 0 <= j < i ==> blob[j] != PIPE_BYTE,
        forall|j: int| 0 <= j < k ==> blob[j] != PIPE_BYTE,
    ensures
        i == k,
{
}

/// When one half around the first `'|'` is not a base64 text of any byte
/// sequence, no pair of halves decodes the payload.
proof fn lemma_no_witness_when_half_undecodable(blob: Seq<u8>, i: int, classic: bool)
    requires
        0 <= i < blob.len(),
        blob[i] == PIPE_BYTE,
        forall|j: int| 0 <= j < i ==> blob[j] != PIPE_BYTE,
        classic ==> (forall|y: Seq<u8>| blob.subrange(0, i) != b64_of(y)),
        !classic ==> (forall|y: Seq<u8>| blob.subrange(i + 1, blob.len() as int) != b64_of(y)),
    ensures
        forall|cl: Seq<u8>, pq: Seq<u8>| !payload_decodes_to(blob, cl, pq),
{
    assert forall|cl: Seq<u8>, pq: Seq<u8>| !payload_decodes_to(blob, cl, pq) by {
        if payload_decodes_to(blob, cl, pq) {
            let k = choose|k: int| splits_at_first_pipe(blob, k, b64_of(cl), b64_of(pq));
            lemma_first_pipe_unique(blob, i, k);
            assert(blob.subrange(0, i) == b64_of(cl));
            assert(blob.subrange(i + 1, blob.len() as int) == b64_of(pq));
        }
    }
}

/// Encode two raw signature halves into the payload written on a device:
/// the base64 text of the classical half, one `'|'`, and the base64 text of
/// the post-quantum half.
pub fn encode_signature_payload(cl: &[u8], pq: &[u8]) -> (r: Vec<u8>)
    ensures
        payload_decodes_to(r@, cl@, pq@),
        forall|c2: Seq<u8>, p2: Seq<u8>| payload_decodes_to(r@, c2, p2) ==> c2 == cl@ && p2 == pq@,
{
    let mut out = b64_encode(cl);
    let ghost first = out@;
    out.push(PIPE_BYTE);
    let second = b64_encode(pq);
    let mut k: usize = 0;
    while k < second.len()
        invariant
            k <= second@.len(),
            out@ == first + seq![PIPE_BYTE] + second@.subrange(0, k as int),
        decreases second@.len() - k,
    {
        out.push(second[k]);
        proof {
            assert(second@.subrange(0, (k + 1) as int) =~= second@.subrange(0, k as int) + seq![
                second@[k as int],
            ]);
        }
        k += 1;
    }
    proof {
        assert(second@.subrange(0, second@.len() as int) =~= second@);
        assert(out@ == first + seq![PIPE_BYTE] + second@);
        assert(out@.subrange(0, first.len() as int) =~= first);
        assert(out@.subrange(first.len() as int + 1, out@.len() as int) =~= second@);
        assert(splits_at_first_pipe(out@, first.len() as int, b64_of(cl@), b64_of(pq@)));
        assert forall|c2: Seq<u8>, p2: Seq<u8>| payload_decodes_to(out@, c2, p2) implies c2 == cl@
            && p2 == pq@ by {
            let k2 = choose|k2: int| splits_at_first_pipe(out@, k2, b64_of(c2), b64_of(p2));
            lemma_first_pipe_unique(out@, first.len() as int, k2);
        }
    }
    out
}

/// Check the decoded halves against the fixed signature sizes of the two
/// schemes and assemble them into a hybrid signature.
pub fn parse_hybrid_signature(cl: Vec<u8>, pq: Vec<u8>) -> (r: Result<
    HybridSignature,
    CodecError,
>)
    ensures
        match r {
            Ok(s) => s.classic@ == cl@ && s.pq@ == pq@ && s.wf(),
            Err(e) => {
                &&& cl@.len() != CL_SIGNATURE_LENGTH || pq@.len() != PQ_SIGNATURE_LENGTH
                &&& e == CodecError::BadClassicSignature <==> cl@.len() != CL_SIGNATURE_LENGTH
            },
        },
{
    if cl.len() != CL_SIGNATURE_LENGTH {
        return Err(CodecError::BadClassicSignature);
    }
    if pq.len() != PQ_SIGNATURE_LENGTH {
        return Err(CodecError::BadPqSignature);
    }
    Ok(HybridSignature { classic: cl, pq: pq })
}

/// The framed form of a payload: 4-byte big-endian length, then the payload.
pub open spec fn spec_framed(payload: Seq<u8>) -> Seq<u8> {
    seq![
        ((payload.len() as int / 0x1000000) % 0x100) as u8,
        ((payload.len() as int / 0x10000) % 0x100) as u8,
        ((payload.len() as int / 0x100) % 0x100) as u8,
        ((payload.len() as int) % 0x100) as u8,
    ] + payload
}

/// Frame a signature payload for writing at offset 512 of the device: the
/// 4-byte big-endian length prefix followed by the payload itself. Payloads
/// outside `[1, SIGNATURE_MAX_LEN]` are refused.
pub fn frame_signature_payload(payload: &[u8]) -> (r: Result<Vec<u8>, CodecError>)
    ensures
        match r {
            Ok(framed) => framed@ == spec_framed(payload@) && spec_length_ok(
                payload@.len() as u32,
            ) && spec_be_u32(framed@) == payload@.len(),
            Err(e) => e == CodecError::InvalidLength && (payload@.len() == 0 || payload@.len()
                > SIGNATURE_MAX_LEN),
        },
{
    if payload.len() == 0 || payload.len() > SIGNATURE_MAX_LEN as usize {
        return Err(CodecError::InvalidLength);
    }
    let l: u32 = payload.len() as u32;
    let mut framed: Vec<u8> = Vec::new();
    framed.push((l / 0x1000000) as u8);
    framed.push(((l / 0x10000) % 0x100) as u8);
    framed.push(((l / 0x100) % 0x100) as u8);
    framed.push((l % 0x100) as u8);
    let mut k: usize = 0;
    while k < payload.len()
        invariant
            k <= payload@.len(),
            payload@.len() <= SIGNATURE_MAX_LEN,
            framed@.len() == k + 4,
            framed@.subrange(4, framed@.len() as int) == payload@.subrange(0, k as int),
            framed@.subrange(0, 4) == spec_framed(payload@).subrange(0, 4),
        decreases payload@.len() - k,
    {
        framed.push(payload[k]);
        proof {
            assert(framed@.subrange(4, framed@.len() as int) =~= framed@.subrange(
                4,
                framed@.len() - 1,
            ) + seq![payload@[k as int]]);
            assert(payload@.subrange(0, (k + 1) as int) =~= payload@.subrange(0, k as int) + seq![
                payload@[k as int],
            ]);
            assert(framed@.subrange(0, 4) =~= framed@.subrange(0, framed@.len() - 1).subrange(
                0,
                4,
            ));
        }
        k += 1;
    }
    proof {
        assert(payload@.subrange(0, payload@.len() as int) =~= payload@);
        assert(framed@ =~= framed@.subrange(0, 4) + framed@.subrange(4, framed@.len() as int));
        assert(spec_framed(payload@) =~= spec_framed(payload@).subrange(0, 4) + payload@);
    }
    Ok(framed)
}

/// Decode the device signature region read at offset 512 into a hybrid
/// signature: validate the 4-byte big-endian length prefix, take that many
/// payload bytes, split the payload at its first `'|'`, base64-decode both
/// halves, and check them against the schemes' signature sizes. A length
/// prefix of zero or above `SIGNATURE_MAX_LEN` is a hard parse failure, as
/// is a region shorter than the prefix announces. Succeeds exactly when
/// the announced payload is the encoding of two halves of the schemes'
/// sizes.
pub fn get_signature(region: &[u8]) -> (r: Result<HybridSignature, CodecError>)
    ensures
        region@.len() >= 4 && !spec_length_ok(spec_be_u32(region@.subrange(0, 4))) ==> r
            == Err::<HybridSignature, CodecError>(CodecError::InvalidLength),
        match r {
            Ok(s) => {
                let l = spec_be_u32(region@.subrange(0, 4)) as int;
                &&& region@.len() >= 4
                &&& spec_length_ok(spec_be_u32(region@.subrange(0, 4)))
                &&& 4 + l <= region@.len()
                &&& s.wf()
                &&& payload_decodes_to(region@.subrange(4, 4 + l), s.classic@, s.pq@)
            },
            Err(_) => {
                let l = spec_be_u32(region@.subrange(0, 4)) as int;
                ||| region@.len() < 4
                ||| !spec_length_ok(spec_be_u32(region@.subrange(0, 4)))
                ||| 4 + l > region@.len()
                ||| (forall|cl: Seq<u8>, pq: Seq<u8>|
                    #[trigger] payload_decodes_to(region@.subrange(4, 4 + l), cl, pq) ==> !(
                    cl.len() == CL_SIGNATURE_LENGTH && pq.len() == PQ_SIGNATURE_LENGTH))
            },
        },
{
    if region.len() < 4 {
        return Err(CodecError::InvalidLength);
    }
    let prefix = vstd::slice::slice_subrange(region, 0, 4);
    let l = parse_signature_length(prefix)?;
    let len: usize = l as usize;
    if region.len() - 4 < len {
        return Err(CodecError::InvalidLength);
    }
    let payload = vstd::slice::slice_subrange(region, 4, 4 + len);
    let halves = decode_signature_payload(payload)?;
    let (cl, pq) = halves;
    parse_hybrid_signature(cl, pq)
}

/// Append all bytes of `src` to `dst`.
pub(crate) fn push_bytes(dst: &mut Vec<u8>, src: &[u8])
    ensures
        final(dst)@ == old(dst)@ + src@,
{
    let mut i: usize = 0;
    while i < src.len()
        invariant
            i <= src@.len(),
            dst@ == old(dst)@ + src@.subrange(0, i as int),
        decreases src@.len() - i,
    {
        dst.push(src[i]);
        proof {
            assert(src@.subrange(0, (i + 1) as int) =~= src@.subrange(0, i as int) + seq![
                src@[i as int],
            ]);
        }
        i += 1;
    }
    proof {
        assert(src@.subrange(0, src@.len() as int) =~= src@);
    }
}

} // verus!
