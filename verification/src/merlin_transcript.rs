//! Fiat-Shamir transcript: deterministic challenge derivation from an
//! append-only message log.

use vstd::bytes::spec_u64_to_le_bytes;
use vstd::bytes::u64_to_le_bytes;
use vstd::prelude::*;

verus! {

/// Bytes of the fixed protocol label that seeds every transcript log.
pub open spec fn protocol_label() -> Seq<u8> {
    seq![77u8, 101u8, 114u8, 108u8, 105u8, 110u8, 32u8, 118u8, 49u8, 46u8, 48u8]
}

/// A chunk as it enters the log: the 8-byte little-endian length of `bytes`,
/// then `bytes` itself.
pub open spec fn length_prefixed(bytes: Seq<u8>) -> Seq<u8> {
    spec_u64_to_le_bytes(bytes.len() as u64) + bytes
}

/// What one `append_message` call adds to the log: the length-prefixed label,
/// then the length-prefixed message.
pub open spec fn message_encoding(label: Seq<u8>, message: Seq<u8>) -> Seq<u8> {
    length_prefixed(label) + length_prefixed(message)
}

/// The bytes hashed to derive a challenge: the whole log so far, followed by
/// the length-prefixed label.
pub open spec fn challenge_input(log: Seq<u8>, label: Seq<u8>) -> Seq<u8> {
    log + length_prefixed(label)
}

/// The Keccak-256 digest of a byte sequence, named but left uninterpreted:
/// the digest is a function of the input bytes alone.
pub uninterp spec fn keccak256_of(input: Seq<u8>) -> Seq<u8>;

/// The 32-byte challenge derived from a log and a label.
pub open spec fn spec_challenge(log: Seq<u8>, label: Seq<u8>) -> Seq<u8> {
    keccak256_of(challenge_input(log, label))
}

/// Relies on sha3::Keccak256 through the digest traits: the digest is
/// deterministic in the input bytes and is 32 bytes long.
#[verifier::external_body]
fn keccak256_digest(input: &[u8]) -> (r: Vec<u8>)
    ensures
        r@ == keccak256_of(input@),
        r@.len() == 32,
{
    let mut hasher = <sha3::Keccak256 as sha3::Digest>::new();
    sha3::Digest::update(&mut hasher, input);
    sha3::Digest::finalize(hasher).to_vec()
}

/// Append the bytes of `s` to `v`.
fn extend_bytes(v: &mut Vec<u8>, s: &[u8])
    ensures
        final(v)@ == old(v)@ + s@,
{
    let mut i: usize = 0;
    while i < s.len()
        invariant
            i <= s@.len(),
            v@ == old(v)@ + s@.subrange(0, i as int),
        decreases s@.len() - i,
    {
        v.push(s[i]);
        proof {
            assert(v@ =~= old(v)@ + s@.subrange(0, i + 1 as int));
        }
        i += 1;
    }
    proof {
        assert(v@ =~= old(v)@ + s@);
    }
}

/// A Fiat-Shamir transcript: an append-only byte log from which verifier
/// challenges are derived deterministically. Identical append sequences on
/// two independently built transcripts yield identical challenges.
pub struct MerlinTranscript {
    messages: Vec<u8>,
}

impl View for MerlinTranscript {
    type V = Seq<u8>;

    closed spec fn view(&self) -> Seq<u8> {
        self.messages@
    }
}

impl MerlinTranscript {
    /// Create a transcript seeded with the protocol label followed by the
    /// domain separator.
    pub fn new(domain_separator: &[u8]) -> (r: Self)
        ensures
            r@ == protocol_label() + domain_separator@,
    {
        let mut messages: Vec<u8> = Vec::new();
        messages.push(77);
        messages.push(101);
        messages.push(114);
        messages.push(108);
        messages.push(105);
        messages.push(110);
        messages.push(32);
        messages.push(118);
        messages.push(49);
        messages.push(46);
        messages.push(48);
        proof {
            assert(messages@ =~= protocol_label());
        }
        extend_bytes(&mut messages, domain_separator);
        Self { messages }
    }

    /// Append a labelled message: both the label and the payload enter the
    /// log length-prefixed, so order and lengths are part of the hash input.
    pub fn append_message(&mut self, label: &[u8], message: &[u8])
        ensures
            final(self)@ == old(self)@ + message_encoding(label@, message@),
    {
        let label_len = u64_to_le_bytes(label.len() as u64);
        extend_bytes(&mut self.messages, label_len.as_slice());
        extend_bytes(&mut self.messages, label);
        let message_len = u64_to_le_bytes(message.len() as u64);
        extend_bytes(&mut self.messages, message_len.as_slice());
        extend_bytes(&mut self.messages, message);
        proof {
            assert(self@ =~= old(self)@ + message_encoding(label@, message@));
        }
    }

    /// Append a 64-byte point encoding under a label.
    pub fn append_point(&mut self, label: &[u8], point_bytes: &[u8; 64])
        ensures
            final(self)@ == old(self)@ + message_encoding(label@, point_bytes@),
    {
        self.append_message(label, point_bytes.as_slice());
    }

    /// Append a 32-byte scalar encoding under a label.
    pub fn append_scalar(&mut self, label: &[u8], scalar_bytes: &[u8; 32])
        ensures
            final(self)@ == old(self)@ + message_encoding(label@, scalar_bytes@),
    {
        self.append_message(label, scalar_bytes.as_slice());
    }

    /// Derive a 32-byte challenge scalar for `label`. The digest is folded
    /// back into the log, so the next challenge depends on this one.
    pub fn challenge_scalar(&mut self, label: &[u8]) -> (r: [u8; 32])
        ensures
            r@ == spec_challenge(old(self)@, label@),
            final(self)@ == old(self)@ + spec_challenge(old(self)@, label@),
    {
        let mut input: Vec<u8> = Vec::new();
        extend_bytes(&mut input, self.messages.as_slice());
        let label_len = u64_to_le_bytes(label.len() as u64);
        extend_bytes(&mut input, label_len.as_slice());
        extend_bytes(&mut input, label);
        proof {
            assert(input@ =~= challenge_input(old(self)@, label@));
        }
        let digest = keccak256_digest(input.as_slice());
        extend_bytes(&mut self.messages, digest.as_slice());
        let ghost challenge = spec_challenge(old(self)@, label@);
        let mut out: [u8; 32] = [0u8; 32];
        let mut i: usize = 0;
        while i < 32
            invariant
                i <= 32,
                digest@ == challenge,
                digest@.len() == 32,
                forall|j: int| 0 <= j < i ==> out@[j] == digest@[j],
            decreases 32 - i,
        {
            out[i] = digest[i];
            i += 1;
        }
        proof {
            assert(out@ =~= challenge);
        }
        out
    }

    /// Derive a challenge of `len` bytes (at most the digest length) for
    /// `label`, by the same mechanism as `challenge_scalar`.
    pub fn challenge_bytes(&mut self, label: &[u8], len: usize) -> (r: Vec<u8>)
        requires
            len <= 32,
        ensures
            r@ == spec_challenge(old(self)@, label@).take(len as int),
            final(self)@ == old(self)@ + spec_challenge(old(self)@, label@),
    {
        let mut input: Vec<u8> = Vec::new();
        extend_bytes(&mut input, self.messages.as_slice());
        let label_len = u64_to_le_bytes(label.len() as u64);
        extend_bytes(&mut input, label_len.as_slice());
        extend_bytes(&mut input, label);
        proof {
            assert(input@ =~= challenge_input(old(self)@, label@));
        }
        let digest = keccak256_digest(input.as_slice());
        extend_bytes(&mut self.messages, digest.as_slice());
        let part = vstd::slice::slice_subrange(digest.as_slice(), 0, len);
        let out = vstd::slice::slice_to_vec(part);
        proof {
            assert(out@ =~= spec_challenge(old(self)@, label@).take(len as int));
        }
        out
    }
}

/// Challenge derivation is deterministic: two transcripts whose logs hold the
/// same bytes — in particular, two independently constructed engines that saw
/// the identical append sequence — yield the identical challenge for a label,
/// and their logs agree again after the digest is folded back in.
pub proof fn lemma_challenge_deterministic(log1: Seq<u8>, log2: Seq<u8>, label: Seq<u8>)
    requires
        log1 == log2,
    ensures
        spec_challenge(log1, label) == spec_challenge(log2, label),
        log1 + spec_challenge(log1, label) == log2 + spec_challenge(log2, label),
{
}

/// Bytes of the range-proof domain label.
pub open spec fn rangeproof_label() -> Seq<u8> {
    seq![114u8, 97u8, 110u8, 103u8, 101u8, 112u8, 114u8, 111u8, 111u8, 102u8]
}

/// Domain separator for a range proof: the range-proof label followed by the
/// bit length `n` and the party count `m`.
pub fn rangeproof_domain_sep(n: u8, m: u8) -> (r: Vec<u8>)
    ensures
        r@ == rangeproof_label() + seq![n, m],
{
    let mut domain: Vec<u8> = Vec::new();
    domain.push(114);
    domain.push(97);
    domain.push(110);
    domain.push(103);
    domain.push(101);
    domain.push(112);
    domain.push(114);
    domain.push(111);
    domain.push(111);
    domain.push(102);
    domain.push(n);
    domain.push(m);
    proof {
        assert(domain@ =~= rangeproof_label() + seq![n, m]);
    }
    domain
}

} // verus!
