use rta_server::byteorder::{bytes_eq, u64_from_be_bytes, u64_to_be_bytes};
use rta_server::crypto::{generate_key_material, Signer};
use rta_server::hexcode::session_id_hex;
use rta_server::token::{DecodeError, RTAToken, ValidateError};

const NOW: u64 = 1_700_000_000;
const MAX_AGE: u64 = 3600;

fn test_signer() -> Signer {
    let pkcs8 = generate_key_material().expect("key generation");
    Signer::from_pkcs8(pkcs8).expect("key material accepted")
}

fn sample_session_id() -> Vec<u8> {
    (0u8..16u8).collect()
}

#[test]
fn be_bytes_round_trip() {
    let v = u64_to_be_bytes(0x0102_0304_0506_0708);
    assert_eq!(v, vec![1, 2, 3, 4, 5, 6, 7, 8]);
    assert_eq!(u64_from_be_bytes(&v), 0x0102_0304_0506_0708);
    assert_eq!(u64_to_be_bytes(u64::MAX), vec![0xff; 8]);
}

#[test]
fn bytes_eq_cases() {
    assert!(bytes_eq(&[1, 2, 3], &[1, 2, 3]));
    assert!(!bytes_eq(&[1, 2, 3], &[1, 2, 4]));
    assert!(!bytes_eq(&[1, 2], &[1, 2, 3]));
    assert!(bytes_eq(&[], &[]));
}

#[test]
fn issued_token_has_magic_header_and_fields() {
    let signer = test_signer();
    let token = RTAToken::issue(&signer, sample_session_id(), b"ctx", NOW);
    assert_eq!(token.header, b"RTA1TOKN".to_vec());
    assert_eq!(token.session_id, sample_session_id());
    assert_eq!(token.timestamp, NOW);
    assert_eq!(token.signature.len(), 64);
    let digest = ring::digest::digest(&ring::digest::SHA256, b"ctx");
    assert_eq!(token.context_hash, digest.as_ref().to_vec());
}

#[test]
fn encode_decode_round_trip() {
    let signer = test_signer();
    let token = RTAToken::issue(&signer, sample_session_id(), b"ctx", NOW);
    let bytes = token.serialize();
    assert_eq!(bytes.len(), 72 + token.signature.len());
    assert_eq!(&bytes[0..8], b"RTA1TOKN");
    let back = RTAToken::deserialize(&bytes).expect("round trip decodes");
    assert_eq!(back.header, token.header);
    assert_eq!(back.session_id, token.session_id);
    assert_eq!(back.context_hash, token.context_hash);
    assert_eq!(back.timestamp, token.timestamp);
    assert_eq!(back.signature, token.signature);
}

#[test]
fn encoding_is_deterministic() {
    let signer = test_signer();
    let token = RTAToken::issue(&signer, sample_session_id(), b"ctx", NOW);
    assert_eq!(token.serialize(), token.serialize());
}

#[test]
fn decode_rejects_short_input() {
    match RTAToken::deserialize(&[]) {
        Err(DecodeError::TooShort) => {},
        _ => panic!("expected TooShort"),
    }
    match RTAToken::deserialize(&[0u8; 71]) {
        Err(DecodeError::TooShort) => {},
        _ => panic!("expected TooShort"),
    }
}

#[test]
fn decode_rejects_bad_length_prefix() {
    let signer = test_signer();
    let token = RTAToken::issue(&signer, sample_session_id(), b"ctx", NOW);
    let mut bytes = token.serialize();
    bytes[64] = bytes[64].wrapping_add(1);
    match RTAToken::deserialize(&bytes) {
        Err(DecodeError::LengthMismatch) => {},
        _ => panic!("expected LengthMismatch"),
    }
}

#[test]
fn issued_token_validates_within_window() {
    let signer = test_signer();
    let token = RTAToken::issue(&signer, sample_session_id(), b"ctx", NOW);
    let pk = signer.public_key();
    assert_eq!(token.validate(pk, b"ctx", MAX_AGE, NOW), Ok(()));
    assert_eq!(token.validate(pk, b"ctx", MAX_AGE, NOW + MAX_AGE), Ok(()));
}

#[test]
fn tampered_header_is_bad_header() {
    let signer = test_signer();
    let token = RTAToken::issue(&signer, sample_session_id(), b"ctx", NOW);
    let mut bytes = token.serialize();
    bytes[0] ^= 0x01;
    let bad = RTAToken::deserialize(&bytes).expect("still decodes");
    assert_eq!(bad.validate(signer.public_key(), b"ctx", MAX_AGE, NOW), Err(ValidateError::BadHeader));
}

#[test]
fn tampered_fields_are_bad_signature() {
    let signer = test_signer();
    let token = RTAToken::issue(&signer, sample_session_id(), b"ctx", NOW);
    let bytes = token.serialize();
    // One flipped bit in the session id, the context hash, the timestamp
    // or the signature must make verification reject.
    for &pos in &[8usize, 24, 56, 72] {
        let mut mutated = bytes.clone();
        mutated[pos] ^= 0x80;
        let bad = RTAToken::deserialize(&mutated).expect("still decodes");
        assert_eq!(
            bad.validate(signer.public_key(), b"ctx", MAX_AGE, NOW),
            Err(ValidateError::BadSignature),
            "flipping a bit at byte {} must invalidate the signature",
            pos
        );
    }
}

#[test]
fn mismatched_context_is_context_mismatch() {
    let signer = test_signer();
    let token = RTAToken::issue(&signer, sample_session_id(), b"introspection_based_context", NOW);
    assert_eq!(
        token.validate(signer.public_key(), b"other", MAX_AGE, NOW),
        Err(ValidateError::ContextMismatch)
    );
}

#[test]
fn expiry_boundary() {
    let signer = test_signer();
    let token = RTAToken::issue(&signer, sample_session_id(), b"ctx", NOW);
    let pk = signer.public_key();
    assert_eq!(token.validate(pk, b"ctx", MAX_AGE, NOW + MAX_AGE), Ok(()));
    assert_eq!(token.validate(pk, b"ctx", MAX_AGE, NOW + MAX_AGE + 1), Err(ValidateError::Expired));
}

#[test]
fn future_dated_beyond_skew_is_rejected() {
    let signer = test_signer();
    let token = RTAToken::issue(&signer, sample_session_id(), b"ctx", NOW);
    let pk = signer.public_key();
    assert_eq!(token.validate(pk, b"ctx", MAX_AGE, NOW - 60), Ok(()));
    assert_eq!(token.validate(pk, b"ctx", MAX_AGE, NOW - 61), Err(ValidateError::FutureDated));
}

#[test]
fn wrong_public_key_is_bad_signature() {
    let signer = test_signer();
    let other = test_signer();
    let token = RTAToken::issue(&signer, sample_session_id(), b"ctx", NOW);
    assert_eq!(
        token.validate(other.public_key(), b"ctx", MAX_AGE, NOW),
        Err(ValidateError::BadSignature)
    );
}

#[test]
fn session_id_hex_matches_reference_encoding() {
    let id: Vec<u8> = vec![0x00, 0x01, 0x0a, 0x10, 0xab, 0xcd, 0xef, 0xff, 0, 0, 0, 0, 0, 0, 0, 0];
    let hex_str = session_id_hex(&id);
    assert_eq!(hex_str, "00010a10abcdefff0000000000000000");
    assert_eq!(hex_str, hex::encode(&id));
    assert_eq!(hex_str.len(), 32);
}

#[test]
fn rejected_key_material_is_reported() {
    assert!(Signer::from_pkcs8(vec![1, 2, 3]).is_err());
}
