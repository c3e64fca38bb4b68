//! Tests of the device signature codec.

use keysas::codec::{
    decode_signature_payload, encode_signature_payload, frame_signature_payload, get_signature,
    parse_signature_length, CodecError, CL_SIGNATURE_LENGTH, PQ_SIGNATURE_LENGTH,
    SIGNATURE_MAX_LEN,
};

fn be_bytes(l: u32) -> [u8; 4] {
    [(l >> 24) as u8, (l >> 16) as u8, (l >> 8) as u8, l as u8]
}

#[test]
fn length_prefix_accepts_range() {
    assert_eq!(parse_signature_length(&be_bytes(1)), Ok(1));
    assert_eq!(parse_signature_length(&be_bytes(7684)), Ok(7684));
    assert_eq!(parse_signature_length(&be_bytes(4242)), Ok(4242));
}

#[test]
fn length_prefix_rejects_zero() {
    assert_eq!(parse_signature_length(&be_bytes(0)), Err(CodecError::InvalidLength));
}

#[test]
fn length_prefix_rejects_oversize() {
    assert_eq!(parse_signature_length(&be_bytes(7685)), Err(CodecError::InvalidLength));
    assert_eq!(parse_signature_length(&be_bytes(9000)), Err(CodecError::InvalidLength));
    assert_eq!(parse_signature_length(&be_bytes(u32::MAX)), Err(CodecError::InvalidLength));
}

#[test]
fn payload_round_trip() {
    let cl: Vec<u8> = (0u8..255).collect();
    let pq: Vec<u8> = (0u8..255).rev().cycle().take(1000).collect();
    let blob = encode_signature_payload(&cl, &pq);
    let (c, p) = decode_signature_payload(&blob).expect("decode of an encoded payload");
    assert_eq!(c, cl);
    assert_eq!(p, pq);
}

#[test]
fn payload_round_trip_empty_halves() {
    let blob = encode_signature_payload(&[], &[]);
    assert_eq!(blob, b"|".to_vec());
    let (c, p) = decode_signature_payload(&blob).expect("decode");
    assert!(c.is_empty());
    assert!(p.is_empty());
}

#[test]
fn payload_without_separator_is_rejected() {
    assert_eq!(
        decode_signature_payload(b"YWJjZA=="),
        Err(CodecError::MissingSeparator)
    );
}

#[test]
fn payload_with_bad_classic_base64_is_rejected() {
    assert_eq!(
        decode_signature_payload(b"<<<<|YWJjZA=="),
        Err(CodecError::BadClassicEncoding)
    );
}

#[test]
fn payload_with_bad_pq_base64_is_rejected() {
    assert_eq!(
        decode_signature_payload(b"YWJjZA==|<<<<"),
        Err(CodecError::BadPqEncoding)
    );
}

#[test]
fn payload_with_non_canonical_base64_is_rejected() {
    // Missing padding: the strict engine refuses it.
    assert!(decode_signature_payload(b"YWJjZA|YWJjZA==").is_err());
}

#[test]
fn signature_sizes_are_checked() {
    let cl = vec![7u8; CL_SIGNATURE_LENGTH];
    let pq = vec![9u8; PQ_SIGNATURE_LENGTH];
    let region = frame_signature_payload(&encode_signature_payload(&cl, &pq)).expect("frame");
    let sig = get_signature(&region).expect("well-sized halves");
    assert_eq!(sig.classic, cl);
    assert_eq!(sig.pq, pq);

    let short =
        frame_signature_payload(&encode_signature_payload(&cl[..63], &pq)).expect("frame");
    assert_eq!(get_signature(&short), Err(CodecError::BadClassicSignature));
    let long =
        frame_signature_payload(&encode_signature_payload(&cl, &[1u8; 10])).expect("frame");
    assert_eq!(get_signature(&long), Err(CodecError::BadPqSignature));
}

#[test]
fn signature_region_length_rule() {
    // A zero or oversize length prefix is a hard parse failure of the
    // decoder itself, whatever follows it.
    let mut region = vec![0u8; 16384];
    assert_eq!(get_signature(&region[..3]), Err(CodecError::InvalidLength));
    assert_eq!(get_signature(&region), Err(CodecError::InvalidLength));
    region[..4].copy_from_slice(&be_bytes(9000));
    assert_eq!(get_signature(&region), Err(CodecError::InvalidLength));
    // A length that announces more bytes than the region holds fails too.
    let truncated = [0u8, 0, 0, 100, 65, 66];
    assert_eq!(get_signature(&truncated), Err(CodecError::InvalidLength));
}

#[test]
fn framing_round_trip() {
    let payload = b"YWJjZA==|ZWZnaA==".to_vec();
    let framed = frame_signature_payload(&payload).expect("frame");
    assert_eq!(framed.len(), payload.len() + 4);
    let l = parse_signature_length(&framed[..4]).expect("length");
    assert_eq!(l as usize, payload.len());
    assert_eq!(&framed[4..], payload.as_slice());
}

#[test]
fn framing_rejects_empty_and_oversize() {
    assert_eq!(frame_signature_payload(&[]), Err(CodecError::InvalidLength));
    let big = vec![65u8; SIGNATURE_MAX_LEN as usize + 1];
    assert_eq!(frame_signature_payload(&big), Err(CodecError::InvalidLength));
    let just = vec![65u8; SIGNATURE_MAX_LEN as usize];
    assert!(frame_signature_payload(&just).is_ok());
}
