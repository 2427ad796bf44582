use privacy_transfer::crypto_primitives::{
    constant_time_eq, hash_to_scalar, is_nonzero_point, is_valid_commitment_format,
};
use privacy_transfer::merlin_transcript::{rangeproof_domain_sep, MerlinTranscript};
use sha3::Digest;

fn append_encoded(log: &mut Vec<u8>, label: &[u8], message: &[u8]) {
    log.extend_from_slice(&(label.len() as u64).to_le_bytes());
    log.extend_from_slice(label);
    log.extend_from_slice(&(message.len() as u64).to_le_bytes());
    log.extend_from_slice(message);
}

fn keccak256(input: &[u8]) -> [u8; 32] {
    let mut hasher = sha3::Keccak256::new();
    hasher.update(input);
    hasher.finalize().into()
}

#[test]
fn nonzero_point_detection() {
    assert!(!is_nonzero_point(&[0; 64]));
    let mut point = [0u8; 64];
    point[63] = 1;
    assert!(is_nonzero_point(&point));
    assert!(is_valid_commitment_format(&point));
    assert!(!is_valid_commitment_format(&[0; 64]));
}

#[test]
fn constant_time_eq_basic() {
    assert!(constant_time_eq(b"abc", b"abc"));
    assert!(!constant_time_eq(b"abc", b"abd"));
    assert!(!constant_time_eq(b"abc", b"abcd"));
    assert!(constant_time_eq(b"", b""));
}

#[test]
fn hash_to_scalar_known_vector() {
    // First half of the SHA-512 digest of "abc" (FIPS 180 test vector).
    let expected: [u8; 32] = [
        0xdd, 0xaf, 0x35, 0xa1, 0x93, 0x61, 0x7a, 0xba, 0xcc, 0x41, 0x73, 0x49, 0xae, 0x20, 0x41,
        0x31, 0x12, 0xe6, 0xfa, 0x4e, 0x89, 0xa9, 0x7e, 0xa2, 0x0a, 0x9e, 0xee, 0xe6, 0x4b, 0x55,
        0xd3, 0x9a,
    ];
    assert_eq!(hash_to_scalar(b"abc"), expected);
}

#[test]
fn hash_to_scalar_matches_direct_sha512() {
    let input = b"transfer proof bytes";
    let digest = <sha2::Sha512 as sha2::Digest>::digest(input);
    assert_eq!(hash_to_scalar(input).as_slice(), &digest[..32]);
}

#[test]
fn domain_separator_layout() {
    let domain = rangeproof_domain_sep(64, 1);
    let mut expected = b"rangeproof".to_vec();
    expected.push(64);
    expected.push(1);
    assert_eq!(domain, expected);
}

#[test]
fn challenges_are_deterministic() {
    // Two independently constructed engines that see the identical append
    // sequence yield identical challenges.
    let domain = rangeproof_domain_sep(64, 1);
    let mut first = MerlinTranscript::new(&domain);
    let mut second = MerlinTranscript::new(&domain);
    first.append_point(b"V", &[0x11; 64]);
    second.append_point(b"V", &[0x11; 64]);
    first.append_scalar(b"x", &[0x22; 32]);
    second.append_scalar(b"x", &[0x22; 32]);
    assert_eq!(first.challenge_scalar(b"y"), second.challenge_scalar(b"y"));
    // The digest is folded back into both logs, so they stay in step.
    assert_eq!(first.challenge_scalar(b"z"), second.challenge_scalar(b"z"));
}

#[test]
fn challenges_depend_on_appended_messages() {
    let domain = rangeproof_domain_sep(64, 1);
    let mut first = MerlinTranscript::new(&domain);
    let mut second = MerlinTranscript::new(&domain);
    first.append_point(b"V", &[0x11; 64]);
    second.append_point(b"V", &[0x12; 64]);
    assert_ne!(first.challenge_scalar(b"y"), second.challenge_scalar(b"y"));
}

#[test]
fn challenge_chains_through_the_log() {
    // The digest of the first challenge enters the log, so repeating the same
    // label yields a different challenge.
    let mut transcript = MerlinTranscript::new(b"chain");
    let first = transcript.challenge_scalar(b"y");
    let second = transcript.challenge_scalar(b"y");
    assert_ne!(first, second);
}

#[test]
fn challenge_matches_direct_keccak() {
    // Rebuild the exact log bytes and hash them with sha3 directly: the
    // transcript must return that digest, not any function of the raw log.
    let domain = rangeproof_domain_sep(64, 1);
    let mut transcript = MerlinTranscript::new(&domain);
    transcript.append_point(b"V", &[0x11; 64]);
    let challenge = transcript.challenge_scalar(b"y");

    let mut log = b"Merlin v1.0".to_vec();
    log.extend_from_slice(&domain);
    append_encoded(&mut log, b"V", &[0x11; 64]);
    let mut input = log.clone();
    input.extend_from_slice(&(1u64).to_le_bytes());
    input.extend_from_slice(b"y");
    assert_eq!(challenge, keccak256(&input));
    // And the next challenge sees the first digest at the end of the log.
    let mut next_input = log;
    next_input.extend_from_slice(&challenge);
    next_input.extend_from_slice(&(1u64).to_le_bytes());
    next_input.extend_from_slice(b"z");
    assert_eq!(transcript.challenge_scalar(b"z"), keccak256(&next_input));
}

#[test]
fn challenge_bytes_prefix_of_digest() {
    let domain = rangeproof_domain_sep(64, 1);
    let mut first = MerlinTranscript::new(&domain);
    let mut second = MerlinTranscript::new(&domain);
    let scalar = first.challenge_scalar(b"y");
    let bytes = second.challenge_bytes(b"y", 16);
    assert_eq!(bytes.as_slice(), &scalar[..16]);
    let mut third = MerlinTranscript::new(&domain);
    let full = third.challenge_bytes(b"y", 32);
    assert_eq!(full.as_slice(), &scalar[..]);
}
