//! Tests of the authenticator: envelope layout, exact-offset
//! comparison, mutation rejection, and the byte encodings.

use voting_system::encoding::bytes_eq;
use voting_system::encoding::copy_bytes;
use voting_system::encoding::u64_le_bytes;
use voting_system::encoding::u64_to_dec;
use voting_system::verify_certificate;
use voting_system::verify_signature;
use voting_system::verify_voter_signature;
use voting_system::ErrorCode;
use voting_system::SignatureAlgorithm;
use voting_system::SignatureRecord;

fn va_key() -> Vec<u8> {
    vec![2u8; 32]
}

fn voter_key() -> Vec<u8> {
    vec![7u8; 32]
}

/// An authorization envelope: 16 header bytes, the 32-byte signer, a
/// 64-byte signature placeholder, then the signed message to the end.
fn envelope(signer: &[u8], msg: &[u8]) -> Vec<u8> {
    let mut v = vec![0xAAu8; 16];
    v.extend_from_slice(signer);
    v.extend_from_slice(&[0xBBu8; 64]);
    v.extend_from_slice(msg);
    v
}

fn ed25519_record(signer: &[u8], msg: &[u8]) -> SignatureRecord {
    SignatureRecord { algorithm: SignatureAlgorithm::Ed25519, payload: envelope(signer, msg) }
}

fn canonical(identity: &[u8], stake: u64, election_id: &[u8]) -> Vec<u8> {
    let mut m = bs58::encode(identity).into_string().into_bytes();
    m.push(b'-');
    m.extend_from_slice(stake.to_string().as_bytes());
    m.push(b'-');
    m.extend_from_slice(election_id);
    m
}

#[test]
fn certificate_accepts_exact_fields() {
    let msg = canonical(&voter_key(), 20, b"election-1");
    let cert = envelope(&va_key(), &msg);
    assert_eq!(verify_certificate(&va_key(), &msg, &cert), Ok(()));
}

#[test]
fn certificate_rejects_too_short() {
    let cert = vec![0u8; 111];
    let msg = b"anything".to_vec();
    assert_eq!(
        verify_certificate(&va_key(), &msg, &cert),
        Err(ErrorCode::InvalidCertificate)
    );
}

#[test]
fn certificate_rejects_wrong_signer() {
    let msg = canonical(&voter_key(), 20, b"election-1");
    let cert = envelope(&voter_key(), &msg);
    assert_eq!(
        verify_certificate(&va_key(), &msg, &cert),
        Err(ErrorCode::InvalidCertificate)
    );
}

#[test]
fn certificate_rejects_trailing_garbage() {
    let msg = canonical(&voter_key(), 20, b"election-1");
    let mut cert = envelope(&va_key(), &msg);
    cert.push(0);
    assert_eq!(
        verify_certificate(&va_key(), &msg, &cert),
        Err(ErrorCode::InvalidCertificate)
    );
}

#[test]
fn certificate_rejects_message_prefix_match() {
    let full = canonical(&voter_key(), 20, b"election-1");
    let cert = envelope(&va_key(), &full);
    let mut prefix = full.clone();
    prefix.truncate(full.len() - 3);
    assert_eq!(
        verify_certificate(&va_key(), &prefix, &cert),
        Err(ErrorCode::InvalidCertificate)
    );
}

#[test]
fn certificate_rejects_every_mutated_message_byte() {
    let msg = canonical(&voter_key(), 20, b"election-1");
    let cert = envelope(&va_key(), &msg);
    let mut mutations = 0usize;
    for pos in 0..msg.len() {
        for delta in 1..=255u8 {
            let mut bad = cert.clone();
            bad[112 + pos] = bad[112 + pos].wrapping_add(delta);
            assert_eq!(
                verify_certificate(&va_key(), &msg, &bad),
                Err(ErrorCode::InvalidCertificate)
            );
            mutations += 1;
        }
    }
    assert!(mutations >= 10000);
}

#[test]
fn signature_log_accepts_matching_record() {
    let msg = canonical(&voter_key(), 10, b"election-1");
    let log = vec![ed25519_record(&va_key(), &msg)];
    assert_eq!(verify_signature(&log, &va_key(), &msg), Ok(()));
}

#[test]
fn signature_log_skips_bad_records_and_finds_match_anywhere() {
    let msg = canonical(&voter_key(), 10, b"election-1");
    let log = vec![
        SignatureRecord { algorithm: SignatureAlgorithm::Secp256k1, payload: envelope(&va_key(), &msg) },
        SignatureRecord { algorithm: SignatureAlgorithm::Ed25519, payload: vec![1, 2, 3] },
        ed25519_record(&voter_key(), &msg),
        ed25519_record(&va_key(), &msg),
    ];
    assert_eq!(verify_signature(&log, &va_key(), &msg), Ok(()));
}

#[test]
fn signature_log_empty_fails() {
    let log: Vec<SignatureRecord> = Vec::new();
    let msg = b"m".to_vec();
    assert_eq!(
        verify_signature(&log, &va_key(), &msg),
        Err(ErrorCode::InvalidSignature)
    );
}

#[test]
fn signature_log_rejects_wrong_algorithm_only_record() {
    let msg = canonical(&voter_key(), 10, b"election-1");
    let log = vec![SignatureRecord {
        algorithm: SignatureAlgorithm::Secp256k1,
        payload: envelope(&va_key(), &msg),
    }];
    assert_eq!(
        verify_signature(&log, &va_key(), &msg),
        Err(ErrorCode::InvalidSignature)
    );
}

#[test]
fn signature_log_rejects_every_mutated_message_byte() {
    let msg = canonical(&voter_key(), 10, b"election-1");
    let good = envelope(&va_key(), &msg);
    let mut mutations = 0usize;
    for pos in 0..msg.len() {
        for delta in 1..=255u8 {
            let mut bad = good.clone();
            bad[112 + pos] = bad[112 + pos].wrapping_add(delta);
            let log = vec![SignatureRecord {
                algorithm: SignatureAlgorithm::Ed25519,
                payload: bad,
            }];
            assert_eq!(
                verify_signature(&log, &va_key(), &msg),
                Err(ErrorCode::InvalidSignature)
            );
            mutations += 1;
        }
    }
    assert!(mutations >= 10000);
}

#[test]
fn voter_signature_uses_same_layout() {
    let commitment = vec![9u8; 32];
    let log = vec![ed25519_record(&voter_key(), &commitment)];
    assert_eq!(verify_voter_signature(&log, &voter_key(), &commitment), Ok(()));
    assert_eq!(
        verify_voter_signature(&log, &va_key(), &commitment),
        Err(ErrorCode::InvalidSignature)
    );
}

#[test]
fn decimal_rendering_exact() {
    assert_eq!(u64_to_dec(0), b"0".to_vec());
    assert_eq!(u64_to_dec(7), b"7".to_vec());
    assert_eq!(u64_to_dec(1234567890), b"1234567890".to_vec());
    assert_eq!(u64_to_dec(u64::MAX), b"18446744073709551615".to_vec());
}

#[test]
fn little_endian_rendering_exact() {
    assert_eq!(u64_le_bytes(0), vec![0u8; 8]);
    assert_eq!(u64_le_bytes(1), vec![1, 0, 0, 0, 0, 0, 0, 0]);
    assert_eq!(
        u64_le_bytes(0x0102030405060708),
        vec![8, 7, 6, 5, 4, 3, 2, 1]
    );
    assert_eq!(u64_le_bytes(u64::MAX), vec![255u8; 8]);
}

#[test]
fn byte_helpers_behave() {
    let a = vec![1u8, 2, 3];
    let b = vec![1u8, 2, 3];
    let c = vec![1u8, 2, 4];
    let d = vec![1u8, 2];
    assert!(bytes_eq(&a, &b));
    assert!(!bytes_eq(&a, &c));
    assert!(!bytes_eq(&a, &d));
    assert_eq!(copy_bytes(&a), a);
    let empty: Vec<u8> = Vec::new();
    assert!(bytes_eq(&empty, &Vec::new()));
}

#[test]
fn canonical_message_matches_builder() {
    let built = voting_system::build_canonical_message(&voter_key(), 10, &b"election-1".to_vec());
    assert_eq!(built, canonical(&voter_key(), 10, b"election-1"));
}
