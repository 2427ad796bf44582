//! Byte-level cryptographic primitives: zero tests, constant-time comparison,
//! and hashing to a scalar.

use vstd::prelude::*;

verus! {

/// True when every byte of `s` is zero.
pub open spec fn all_zero(s: Seq<u8>) -> bool {
    forall|i: int| 0 <= i < s.len() ==> s[i] == 0
}

/// The SHA-512 digest of a byte sequence, named but left uninterpreted: the
/// digest is a function of the input bytes alone.
pub uninterp spec fn sha512_of(input: Seq<u8>) -> Seq<u8>;

/// Relies on sha2::Sha512 through the digest traits: the digest is
/// deterministic in the input bytes and is 64 bytes long.
#[verifier::external_body]
fn sha512_digest(input: &[u8]) -> (r: Vec<u8>)
    ensures
        r@ == sha512_of(input@),
        r@.len() == 64,
{
    let mut hasher = <sha2::Sha512 as sha2::Digest>::new();
    sha2::Digest::update(&mut hasher, input);
    sha2::Digest::finalize(hasher).to_vec()
}

/// Hash arbitrary bytes to a 32-byte scalar: the first half of the SHA-512
/// digest of the input.
pub fn hash_to_scalar(input: &[u8]) -> (r: [u8; 32])
    ensures
        r@ == sha512_of(input@).take(32),
{
    let digest = sha512_digest(input);
    let mut out: [u8; 32] = [0u8; 32];
    let mut i: usize = 0;
    while i < 32
        invariant
            i <= 32,
            digest@ == sha512_of(input@),
            digest@.len() == 64,
            forall|j: int| 0 <= j < i ==> out@[j] == digest@[j],
        decreases 32 - i,
    {
        out[i] = digest[i];
        i += 1;
    }
    proof {
        assert(out@ =~= sha512_of(input@).take(32));
    }
    out
}

/// True iff every byte of the slice is zero.
pub fn bytes_all_zero(b: &[u8]) -> (r: bool)
    ensures
        r <==> all_zero(b@),
{
    let mut i: usize = 0;
    while i < b.len()
        invariant
            i <= b@.len(),
            forall|j: int| 0 <= j < i ==> b@[j] == 0,
        decreases b@.len() - i,
    {
        if b[i] != 0 {
            proof {
                assert(!all_zero(b@)) by {
                    assert(b@[i as int] != 0);
                }
            }
            return false;
        }
        i += 1;
    }
    true
}

/// A point encoding is acceptable when it is not the all-zero pattern.
pub fn is_nonzero_point(bytes: &[u8; 64]) -> (r: bool)
    ensures
        r <==> !all_zero(bytes@),
{
    !bytes_all_zero(bytes.as_slice())
}

/// A commitment is well-formed when its 64 bytes are not all zero.
pub fn is_valid_commitment_format(bytes: &[u8; 64]) -> (r: bool)
    ensures
        r <==> !all_zero(bytes@),
{
    is_nonzero_point(bytes)
}

/// Compare two byte strings in time depending only on their lengths.
pub fn constant_time_eq(a: &[u8], b: &[u8]) -> (r: bool)
    ensures
        r <==> a@ == b@,
{
    if a.len() != b.len() {
        return false;
    }
    let mut result: u8 = 0;
    let mut i: usize = 0;
    while i < a.len()
        invariant
            a@.len() == b@.len(),
            i <= a@.len(),
            (result == 0) <==> (forall|j: int| 0 <= j < i ==> a@[j] == b@[j]),
        decreases a@.len() - i,
    {
        let x: u8 = a[i];
        let y: u8 = b[i];
        proof {
            assert((x ^ y == 0) <==> x == y) by (bit_vector);
            assert((result | (x ^ y) == 0) <==> (result == 0 && x ^ y == 0)) by (bit_vector);
        }
        result = result | (x ^ y);
        i += 1;
    }
    proof {
        if result == 0 {
            assert(a@ =~= b@);
        }
    }
    result == 0
}

} // verus!
