//! Proof codec and structural validators for transfer proofs.
//!
//! A transfer proof travels as one byte blob with a fixed layout: two range
//! proof records, then two equality proof records forming the validity proof.
//! The codec enforces size and non-triviality bounds; the validators perform
//! the structural and consistency checks. Curve algebra is delegated to an
//! off-path full verifier and never evaluated here.

use crate::crypto_primitives::all_zero;
use crate::crypto_primitives::bytes_all_zero;
use crate::crypto_primitives::constant_time_eq;
use crate::crypto_primitives::is_nonzero_point;
use crate::crypto_primitives::is_valid_commitment_format;
use crate::merlin_transcript::MerlinTranscript;
use crate::merlin_transcript::rangeproof_domain_sep;
use vstd::prelude::*;

verus! {

/// Minimum blob size in bytes: enough for one commitment.
pub const MIN_PROOF_DATA_SIZE: usize = 64;

/// Maximum blob size in bytes (resource-exhaustion protection).
pub const MAX_PROOF_DATA_SIZE: usize = 10000;

/// Floor below which the fixed layout cannot hold a valid proof structure.
pub const MIN_STRUCTURE_SIZE: usize = 512;

/// How many leading bytes the all-zero heuristic scans.
pub const ZERO_PREFIX_SCAN: usize = 256;

/// Size of one serialized range proof record: five 64-byte points, three
/// 32-byte scalars, and the trailing bit-length byte.
pub const RANGE_RECORD_SIZE: usize = 417;

/// Size of the point and scalar fields of a range proof record, without the
/// trailing bit-length byte.
pub const RANGE_FIELDS_SIZE: usize = 416;

/// Size of one serialized equality proof record: a 64-byte point and a
/// 32-byte scalar.
pub const EQUALITY_RECORD_SIZE: usize = 96;

/// Size of the full fixed layout: two range proof records and two equality
/// proof records.
pub const FULL_LAYOUT_SIZE: usize = 1026;

/// Error taxonomy of the verification pipeline. `BalanceEquationFailed` and
/// `InvalidProofStructure` are reserved for a future full algebraic verifier
/// and never raised by this structural core.
#[derive(Debug, Clone, Copy, PartialEq, Eq, Structural)]
pub enum ProofVerificationError {
    DeserializationFailed,
    InvalidRangeProof,
    InvalidEqualityProof,
    InvalidValidityProof,
    BalanceEquationFailed,
    CommitmentMismatch,
    InvalidPoint,
    InvalidProofStructure,
    InvalidCommitment,
}

impl From<&str> for ProofVerificationError {
    /// Any point-decoding failure message collapses to `InvalidPoint`.
    fn from(_message: &str) -> (r: Self) {
        ProofVerificationError::InvalidPoint
    }
}

impl vstd::std_specs::convert::FromSpecImpl<&str> for ProofVerificationError {
    open spec fn obeys_from_spec() -> bool {
        true
    }

    open spec fn from_spec(_message: &str) -> Self {
        ProofVerificationError::InvalidPoint
    }
}

/// Model of an inner-product sub-proof: sequences of point encodings and two
/// scalar encodings.
#[verifier::ext_equal]
pub ghost struct InnerProductProofView {
    pub l: Seq<Seq<u8>>,
    pub r: Seq<Seq<u8>>,
    pub a: Seq<u8>,
    pub b: Seq<u8>,
}

/// Model of a parsed range proof record.
#[verifier::ext_equal]
pub ghost struct BulletproofRangeProofView {
    pub commitment: Seq<u8>,
    pub a: Seq<u8>,
    pub s: Seq<u8>,
    pub t1: Seq<u8>,
    pub t2: Seq<u8>,
    pub taux: Seq<u8>,
    pub mu: Seq<u8>,
    pub t: Seq<u8>,
    pub inner_product_proof: InnerProductProofView,
    pub n: u8,
}

/// Model of a parsed equality proof record.
#[verifier::ext_equal]
pub ghost struct EqualityProofView {
    pub r: Seq<u8>,
    pub s: Seq<u8>,
}

/// Model of a parsed validity proof.
#[verifier::ext_equal]
pub ghost struct ValidityProofView {
    pub sender_equality_proof: EqualityProofView,
    pub recipient_equality_proof: EqualityProofView,
}

/// Model of a parsed transfer proof.
#[verifier::ext_equal]
pub ghost struct TransferProofView {
    pub amount_range_proof: BulletproofRangeProofView,
    pub sender_after_range_proof: BulletproofRangeProofView,
    pub validity_proof: ValidityProofView,
}

/// Inner product proof: unverified placeholder substructure, deliberately out
/// of the structural core's algebraic scope.
#[derive(Debug, Clone)]
pub struct InnerProductProof {
    pub l: Vec<[u8; 64]>,
    pub r: Vec<[u8; 64]>,
    pub a: [u8; 32],
    pub b: [u8; 32],
}

impl View for InnerProductProof {
    type V = InnerProductProofView;

    open spec fn view(&self) -> InnerProductProofView {
        InnerProductProofView {
            l: self.l.deep_view(),
            r: self.r.deep_view(),
            a: self.a@,
            b: self.b@,
        }
    }
}

/// Bulletproof range proof record: commitment, four auxiliary points, three
/// scalars, the unverified inner-product placeholder, and the bit length.
#[derive(Debug, Clone)]
pub struct BulletproofRangeProof {
    pub commitment: [u8; 64],
    pub a: [u8; 64],
    pub s: [u8; 64],
    pub t1: [u8; 64],
    pub t2: [u8; 64],
    pub taux: [u8; 32],
    pub mu: [u8; 32],
    pub t: [u8; 32],
    pub inner_product_proof: InnerProductProof,
    pub n: u8,
}

impl View for BulletproofRangeProof {
    type V = BulletproofRangeProofView;

    open spec fn view(&self) -> BulletproofRangeProofView {
        BulletproofRangeProofView {
            commitment: self.commitment@,
            a: self.a@,
            s: self.s@,
            t1: self.t1@,
            t2: self.t2@,
            taux: self.taux@,
            mu: self.mu@,
            t: self.t@,
            inner_product_proof: self.inner_product_proof@,
            n: self.n,
        }
    }
}

/// Schnorr-style equality proof record: a 64-byte point and a 32-byte scalar.
#[derive(Debug, Clone)]
pub struct EqualityProof {
    pub r: [u8; 64],
    pub s: [u8; 32],
}

impl View for EqualityProof {
    type V = EqualityProofView;

    open spec fn view(&self) -> EqualityProofView {
        EqualityProofView { r: self.r@, s: self.s@ }
    }
}

/// Validity proof: one equality proof for the sender balance equation and one
/// for the recipient balance equation.
#[derive(Debug, Clone)]
pub struct ValidityProof {
    pub sender_equality_proof: EqualityProof,
    pub recipient_equality_proof: EqualityProof,
}

impl View for ValidityProof {
    type V = ValidityProofView;

    open spec fn view(&self) -> ValidityProofView {
        ValidityProofView {
            sender_equality_proof: self.sender_equality_proof@,
            recipient_equality_proof: self.recipient_equality_proof@,
        }
    }
}

/// Complete proof for one transfer.
#[derive(Debug, Clone)]
pub struct TransferProof {
    pub amount_range_proof: BulletproofRangeProof,
    pub sender_after_range_proof: BulletproofRangeProof,
    pub validity_proof: ValidityProof,
}

impl View for TransferProof {
    type V = TransferProofView;

    open spec fn view(&self) -> TransferProofView {
        TransferProofView {
            amount_range_proof: self.amount_range_proof@,
            sender_after_range_proof: self.sender_after_range_proof@,
            validity_proof: self.validity_proof@,
        }
    }
}

/// A sequence of `n` zero bytes.
pub open spec fn zero_bytes(n: int) -> Seq<u8> {
    Seq::new(n as nat, |i: int| 0u8)
}

/// The placeholder value of the inner-product substructure: empty point lists
/// and zero scalars, never structurally checked.
pub open spec fn placeholder_inner_product() -> InnerProductProofView {
    InnerProductProofView {
        l: Seq::empty(),
        r: Seq::empty(),
        a: zero_bytes(32),
        b: zero_bytes(32),
    }
}

/// The `len` bytes of `d` starting at `off`.
pub open spec fn bytes_at(d: Seq<u8>, off: int, len: int) -> Seq<u8> {
    d.subrange(off, off + len)
}

/// The range proof record laid out at `base` in `d`.
pub open spec fn spec_range_record(d: Seq<u8>, base: int) -> BulletproofRangeProofView {
    BulletproofRangeProofView {
        commitment: bytes_at(d, base, 64),
        a: bytes_at(d, base + 64, 64),
        s: bytes_at(d, base + 128, 64),
        t1: bytes_at(d, base + 192, 64),
        t2: bytes_at(d, base + 256, 64),
        taux: bytes_at(d, base + 320, 32),
        mu: bytes_at(d, base + 352, 32),
        t: bytes_at(d, base + 384, 32),
        inner_product_proof: placeholder_inner_product(),
        n: d[base + 416],
    }
}

/// The equality proof record laid out at `base` in `d`.
pub open spec fn spec_equality_record(d: Seq<u8>, base: int) -> EqualityProofView {
    EqualityProofView { r: bytes_at(d, base, 64), s: bytes_at(d, base + 64, 32) }
}

/// True when some required field of the range proof record at `base` is
/// all-zero: its commitment, `A`, `S`, `taux`, `mu`, or `t`. `T1` and `T2`
/// are not zero-checked at parse time.
pub open spec fn range_record_fields_zero(d: Seq<u8>, base: int) -> bool {
    ||| all_zero(bytes_at(d, base, 64))
    ||| all_zero(bytes_at(d, base + 64, 64))
    ||| all_zero(bytes_at(d, base + 128, 64))
    ||| all_zero(bytes_at(d, base + 320, 32))
    ||| all_zero(bytes_at(d, base + 352, 32))
    ||| all_zero(bytes_at(d, base + 384, 32))
}

/// True when a field of the equality proof record at `base` is all-zero.
pub open spec fn equality_record_fields_zero(d: Seq<u8>, base: int) -> bool {
    all_zero(bytes_at(d, base, 64)) || all_zero(bytes_at(d, base + 64, 32))
}

/// What `deserialize_proof_data` returns, checks in parse order: size bounds,
/// the all-zero-prefix heuristic, then each record's reads and zero checks at
/// fixed offsets.
pub open spec fn spec_deserialize(d: Seq<u8>) -> Result<
    TransferProofView,
    ProofVerificationError,
> {
    if d.len() < MIN_PROOF_DATA_SIZE || d.len() > MAX_PROOF_DATA_SIZE || d.len()
        < MIN_STRUCTURE_SIZE {
        Err(ProofVerificationError::DeserializationFailed)
    } else if all_zero(d.take(ZERO_PREFIX_SCAN as int)) {
        Err(ProofVerificationError::DeserializationFailed)
    } else if range_record_fields_zero(d, 0) {
        Err(ProofVerificationError::InvalidRangeProof)
    } else if d.len() < RANGE_RECORD_SIZE + RANGE_FIELDS_SIZE {
        Err(ProofVerificationError::DeserializationFailed)
    } else if range_record_fields_zero(d, RANGE_RECORD_SIZE as int) {
        Err(ProofVerificationError::InvalidRangeProof)
    } else if d.len() < 2 * RANGE_RECORD_SIZE + EQUALITY_RECORD_SIZE {
        Err(ProofVerificationError::DeserializationFailed)
    } else if equality_record_fields_zero(d, 2 * RANGE_RECORD_SIZE as int) {
        Err(ProofVerificationError::InvalidEqualityProof)
    } else if d.len() < FULL_LAYOUT_SIZE {
        Err(ProofVerificationError::DeserializationFailed)
    } else if equality_record_fields_zero(d, (2 * RANGE_RECORD_SIZE + EQUALITY_RECORD_SIZE) as int) {
        Err(ProofVerificationError::InvalidEqualityProof)
    } else {
        Ok(
            TransferProofView {
                amount_range_proof: spec_range_record(d, 0),
                sender_after_range_proof: spec_range_record(d, RANGE_RECORD_SIZE as int),
                validity_proof: ValidityProofView {
                    sender_equality_proof: spec_equality_record(d, 2 * RANGE_RECORD_SIZE as int),
                    recipient_equality_proof: spec_equality_record(
                        d,
                        (2 * RANGE_RECORD_SIZE + EQUALITY_RECORD_SIZE) as int,
                    ),
                },
            },
        )
    }
}

/// What `extract_amount_commitment` returns: the first 64 bytes, rejected
/// when the blob is too short or those bytes are all zero.
pub open spec fn spec_extract_amount_commitment(d: Seq<u8>) -> Result<
    Seq<u8>,
    ProofVerificationError,
> {
    if d.len() < MIN_PROOF_DATA_SIZE {
        Err(ProofVerificationError::DeserializationFailed)
    } else if all_zero(d.subrange(0, 64)) {
        Err(ProofVerificationError::InvalidCommitment)
    } else {
        Ok(d.subrange(0, 64))
    }
}

/// Read `N` bytes at `*offset` into a fixed-size array, advancing the offset;
/// a short read fails without moving it.
fn read_array<const N: usize>(data: &[u8], offset: &mut usize) -> (r: Result<
    [u8; N],
    ProofVerificationError,
>)
    ensures
        *old(offset) + N <= data@.len() ==> (r matches Ok(arr) && arr@ == data@.subrange(
            *old(offset) as int,
            *old(offset) + N,
        ) && *final(offset) == *old(offset) + N),
        *old(offset) + N > data@.len() ==> r == Err::<[u8; N], ProofVerificationError>(
            ProofVerificationError::DeserializationFailed,
        ) && *final(offset) == *old(offset),
{
    if N > data.len() || *offset > data.len() - N {
        return Err(ProofVerificationError::DeserializationFailed);
    }
    let start: usize = *offset;
    let mut arr: [u8; N] = [0u8; N];
    let mut i: usize = 0;
    while i < N
        invariant
            i <= N,
            start + N <= data@.len(),
            data@.len() <= usize::MAX,
            forall|j: int| 0 <= j < i ==> arr@[j] == data@[start + j],
        decreases N - i,
    {
        arr[i] = data[start + i];
        i += 1;
    }
    *offset = start + N;
    proof {
        assert(arr@ =~= data@.subrange(start as int, start as int + N));
    }
    Ok(arr)
}

/// The placeholder inner-product substructure as an executable value.
fn empty_inner_product() -> (r: InnerProductProof)
    ensures
        r@ == placeholder_inner_product(),
{
    let ip = InnerProductProof { l: Vec::new(), r: Vec::new(), a: [0u8; 32], b: [0u8; 32] };
    proof {
        assert(ip@.l =~= placeholder_inner_product().l);
        assert(ip@.r =~= placeholder_inner_product().r);
        assert(ip@.a =~= zero_bytes(32));
        assert(ip@.b =~= zero_bytes(32));
        assert(ip@ =~~= placeholder_inner_product());
    }
    ip
}

/// Read one range proof record at `*offset`: eight fixed-size fields, a zero
/// check over the required ones, then the bit-length byte (defaulted to 64
/// when the blob ends exactly at the fields).
fn read_range_record(proof_data: &[u8], offset: &mut usize) -> (r: Result<
    BulletproofRangeProof,
    ProofVerificationError,
>)
    requires
        *old(offset) + RANGE_RECORD_SIZE <= usize::MAX,
        MIN_STRUCTURE_SIZE <= proof_data@.len() <= MAX_PROOF_DATA_SIZE,
    ensures
        *old(offset) + RANGE_FIELDS_SIZE > proof_data@.len() ==> r == Err::<
            BulletproofRangeProof,
            ProofVerificationError,
        >(ProofVerificationError::DeserializationFailed),
        *old(offset) + RANGE_FIELDS_SIZE <= proof_data@.len() && range_record_fields_zero(
            proof_data@,
            *old(offset) as int,
        ) ==> r == Err::<BulletproofRangeProof, ProofVerificationError>(
            ProofVerificationError::InvalidRangeProof,
        ),
        *old(offset) + RANGE_FIELDS_SIZE <= proof_data@.len() && !range_record_fields_zero(
            proof_data@,
            *old(offset) as int,
        ) ==> (r matches Ok(p) && *final(offset) == *old(offset) + RANGE_RECORD_SIZE && p@
            == (if *old(offset) + RANGE_RECORD_SIZE <= proof_data@.len() {
            spec_range_record(proof_data@, *old(offset) as int)
        } else {
            BulletproofRangeProofView { n: 64u8, ..spec_range_record(proof_data@, *old(offset) as int) }
        })),
{
    let commitment = match read_array::<64>(proof_data, offset) {
        Ok(a) => a,
        Err(e) => {
            return Err(e);
        },
    };
    let a = match read_array::<64>(proof_data, offset) {
        Ok(a) => a,
        Err(e) => {
            return Err(e);
        },
    };
    let s = match read_array::<64>(proof_data, offset) {
        Ok(a) => a,
        Err(e) => {
            return Err(e);
        },
    };
    let t1 = match read_array::<64>(proof_data, offset) {
        Ok(a) => a,
        Err(e) => {
            return Err(e);
        },
    };
    let t2 = match read_array::<64>(proof_data, offset) {
        Ok(a) => a,
        Err(e) => {
            return Err(e);
        },
    };
    let taux = match read_array::<32>(proof_data, offset) {
        Ok(a) => a,
        Err(e) => {
            return Err(e);
        },
    };
    let mu = match read_array::<32>(proof_data, offset) {
        Ok(a) => a,
        Err(e) => {
            return Err(e);
        },
    };
    let t = match read_array::<32>(proof_data, offset) {
        Ok(a) => a,
        Err(e) => {
            return Err(e);
        },
    };
    if !is_nonzero_point(&commitment) || !is_nonzero_point(&a) || !is_nonzero_point(&s)
        || bytes_all_zero(taux.as_slice()) || bytes_all_zero(mu.as_slice()) || bytes_all_zero(
        t.as_slice(),
    ) {
        return Err(ProofVerificationError::InvalidRangeProof);
    }
    let n: u8 = if *offset < proof_data.len() {
        proof_data[*offset]
    } else {
        64
    };
    *offset = *offset + 1;
    let record = BulletproofRangeProof {
        commitment,
        a,
        s,
        t1,
        t2,
        taux,
        mu,
        t,
        inner_product_proof: empty_inner_product(),
        n,
    };
    proof {
        assert(record@ =~~= (if *old(offset) + RANGE_RECORD_SIZE <= proof_data@.len() {
            spec_range_record(proof_data@, *old(offset) as int)
        } else {
            BulletproofRangeProofView {
                n: 64u8,
                ..spec_range_record(proof_data@, *old(offset) as int)
            }
        }));
    }
    Ok(record)
}

/// Deserialize a transfer proof blob laid out at fixed offsets: two range
/// proof records, then the two equality proof records of the validity proof.
pub fn deserialize_proof_data(proof_data: &[u8]) -> (r: Result<
    TransferProof,
    ProofVerificationError,
>)
    ensures
        r matches Ok(p) ==> spec_deserialize(proof_data@) == Ok::<
            TransferProofView,
            ProofVerificationError,
        >(p@),
        r matches Err(e) ==> spec_deserialize(proof_data@) == Err::<
            TransferProofView,
            ProofVerificationError,
        >(e),
{
    if proof_data.len() < MIN_PROOF_DATA_SIZE {
        return Err(ProofVerificationError::DeserializationFailed);
    }
    if proof_data.len() > MAX_PROOF_DATA_SIZE {
        return Err(ProofVerificationError::DeserializationFailed);
    }
    if proof_data.len() < MIN_STRUCTURE_SIZE {
        return Err(ProofVerificationError::DeserializationFailed);
    }
    let prefix = vstd::slice::slice_subrange(proof_data, 0, ZERO_PREFIX_SCAN);
    if bytes_all_zero(prefix) {
        proof {
            assert(proof_data@.take(ZERO_PREFIX_SCAN as int) =~= prefix@);
        }
        return Err(ProofVerificationError::DeserializationFailed);
    }
    proof {
        assert(proof_data@.take(ZERO_PREFIX_SCAN as int) =~= prefix@);
    }
    let mut offset: usize = 0;
    let amount_range_proof = match read_range_record(proof_data, &mut offset) {
        Ok(p) => p,
        Err(e) => {
            return Err(e);
        },
    };
    let sender_after_range_proof = match read_range_record(proof_data, &mut offset) {
        Ok(p) => p,
        Err(e) => {
            return Err(e);
        },
    };
    let sender_equality_r = match read_array::<64>(proof_data, &mut offset) {
        Ok(a) => a,
        Err(e) => {
            return Err(e);
        },
    };
    let sender_equality_s = match read_array::<32>(proof_data, &mut offset) {
        Ok(a) => a,
        Err(e) => {
            return Err(e);
        },
    };
    if !is_nonzero_point(&sender_equality_r) || bytes_all_zero(sender_equality_s.as_slice()) {
        return Err(ProofVerificationError::InvalidEqualityProof);
    }
    let recipient_equality_r = match read_array::<64>(proof_data, &mut offset) {
        Ok(a) => a,
        Err(e) => {
            return Err(e);
        },
    };
    let recipient_equality_s = match read_array::<32>(proof_data, &mut offset) {
        Ok(a) => a,
        Err(e) => {
            return Err(e);
        },
    };
    if !is_nonzero_point(&recipient_equality_r) || bytes_all_zero(recipient_equality_s.as_slice()) {
        return Err(ProofVerificationError::InvalidEqualityProof);
    }
    let result = TransferProof {
        amount_range_proof,
        sender_after_range_proof,
        validity_proof: ValidityProof {
            sender_equality_proof: EqualityProof { r: sender_equality_r, s: sender_equality_s },
            recipient_equality_proof: EqualityProof {
                r: recipient_equality_r,
                s: recipient_equality_s,
            },
        },
    };
    proof {
        assert(spec_deserialize(proof_data@) is Ok);
        assert(result@ =~~= spec_deserialize(proof_data@)->Ok_0);
    }
    Ok(result)
}

/// Fast path for the caller to bind the hidden-amount commitment before full
/// verification: extract bytes `[0, 64)` without parsing the rest.
pub fn extract_amount_commitment(proof_data: &[u8]) -> (r: Result<
    [u8; 64],
    ProofVerificationError,
>)
    ensures
        r matches Ok(c) ==> spec_extract_amount_commitment(proof_data@) == Ok::<
            Seq<u8>,
            ProofVerificationError,
        >(c@),
        r matches Err(e) ==> spec_extract_amount_commitment(proof_data@) == Err::<
            Seq<u8>,
            ProofVerificationError,
        >(e),
{
    if proof_data.len() < MIN_PROOF_DATA_SIZE {
        return Err(ProofVerificationError::DeserializationFailed);
    }
    let mut offset: usize = 0;
    let commitment = match read_array::<64>(proof_data, &mut offset) {
        Ok(c) => c,
        Err(e) => {
            return Err(e);
        },
    };
    if bytes_all_zero(commitment.as_slice()) {
        return Err(ProofVerificationError::InvalidCommitment);
    }
    Ok(commitment)
}

/// What `verify_range_proof` returns, checks in order: commitment format,
/// commitment binding, non-zero points, non-zero scalars, pairwise
/// distinctness, commitment reuse, and the bit-length bound.
pub open spec fn spec_verify_range_proof(p: BulletproofRangeProofView, commitment: Seq<u8>) -> Result<
    (),
    ProofVerificationError,
> {
    if all_zero(commitment) {
        Err(ProofVerificationError::InvalidRangeProof)
    } else if p.commitment != commitment {
        Err(ProofVerificationError::CommitmentMismatch)
    } else if all_zero(p.a) || all_zero(p.s) || all_zero(p.t1) || all_zero(p.t2) {
        Err(ProofVerificationError::InvalidRangeProof)
    } else if all_zero(p.taux) || all_zero(p.mu) || all_zero(p.t) {
        Err(ProofVerificationError::InvalidRangeProof)
    } else if p.a == p.s || p.t1 == p.t2 || p.taux == p.mu {
        Err(ProofVerificationError::InvalidRangeProof)
    } else if commitment == p.a || commitment == p.s || commitment == p.t1 || commitment == p.t2 {
        Err(ProofVerificationError::InvalidRangeProof)
    } else if p.n == 0 || p.n > 64 {
        Err(ProofVerificationError::InvalidRangeProof)
    } else {
        Ok(())
    }
}

/// Structurally validate one range proof record against the expected
/// commitment. The transcript challenges `y`, `z`, `x` are derived to
/// exercise the deterministic Fiat-Shamir path; a full verifier would consume
/// them in a polynomial identity check, this structural core discards them.
pub fn verify_range_proof(proof: &BulletproofRangeProof, commitment: &[u8; 64]) -> (r: Result<
    (),
    ProofVerificationError,
>)
    ensures
        r == spec_verify_range_proof(proof@, commitment@),
{
    if !is_valid_commitment_format(commitment) {
        return Err(ProofVerificationError::InvalidRangeProof);
    }
    if !constant_time_eq(proof.commitment.as_slice(), commitment.as_slice()) {
        return Err(ProofVerificationError::CommitmentMismatch);
    }
    if !is_nonzero_point(&proof.a) || !is_nonzero_point(&proof.s) || !is_nonzero_point(&proof.t1)
        || !is_nonzero_point(&proof.t2) {
        return Err(ProofVerificationError::InvalidRangeProof);
    }
    if bytes_all_zero(proof.taux.as_slice()) || bytes_all_zero(proof.mu.as_slice())
        || bytes_all_zero(proof.t.as_slice()) {
        return Err(ProofVerificationError::InvalidRangeProof);
    }
    let domain_sep = rangeproof_domain_sep(proof.n, 1);
    let mut transcript = MerlinTranscript::new(domain_sep.as_slice());
    let label_v: [u8; 1] = [86];
    let label_a: [u8; 1] = [65];
    let label_s: [u8; 1] = [83];
    transcript.append_point(label_v.as_slice(), &proof.commitment);
    transcript.append_point(label_a.as_slice(), &proof.a);
    transcript.append_point(label_s.as_slice(), &proof.s);
    let label_y: [u8; 1] = [121];
    let label_z: [u8; 1] = [122];
    let _y = transcript.challenge_scalar(label_y.as_slice());
    let _z = transcript.challenge_scalar(label_z.as_slice());
    let label_t1: [u8; 2] = [84, 49];
    let label_t2: [u8; 2] = [84, 50];
    transcript.append_point(label_t1.as_slice(), &proof.t1);
    transcript.append_point(label_t2.as_slice(), &proof.t2);
    let label_x: [u8; 1] = [120];
    let _x = transcript.challenge_scalar(label_x.as_slice());
    if constant_time_eq(proof.a.as_slice(), proof.s.as_slice()) || constant_time_eq(
        proof.t1.as_slice(),
        proof.t2.as_slice(),
    ) || constant_time_eq(proof.taux.as_slice(), proof.mu.as_slice()) {
        return Err(ProofVerificationError::InvalidRangeProof);
    }
    if constant_time_eq(commitment.as_slice(), proof.a.as_slice()) || constant_time_eq(
        commitment.as_slice(),
        proof.s.as_slice(),
    ) || constant_time_eq(commitment.as_slice(), proof.t1.as_slice()) || constant_time_eq(
        commitment.as_slice(),
        proof.t2.as_slice(),
    ) {
        return Err(ProofVerificationError::InvalidRangeProof);
    }
    if proof.n == 0 || proof.n > 64 {
        return Err(ProofVerificationError::InvalidRangeProof);
    }
    Ok(())
}

/// What `verify_equality_proof` returns: both commitments non-zero, both
/// proof fields non-zero, and the first 32 bytes of `R` distinct from `s`.
pub open spec fn spec_verify_equality_proof(
    p: EqualityProofView,
    commitment1: Seq<u8>,
    commitment2: Seq<u8>,
) -> Result<(), ProofVerificationError> {
    if all_zero(commitment1) || all_zero(commitment2) {
        Err(ProofVerificationError::InvalidEqualityProof)
    } else if all_zero(p.r) || all_zero(p.s) {
        Err(ProofVerificationError::InvalidEqualityProof)
    } else if p.r.subrange(0, 32) == p.s {
        Err(ProofVerificationError::InvalidEqualityProof)
    } else {
        Ok(())
    }
}

/// Structurally validate one Schnorr-style equality proof between two
/// commitments. The algebraic relation between `R`, `s` and the commitment
/// difference is delegated to the off-path full verifier.
pub fn verify_equality_proof(
    proof: &EqualityProof,
    commitment1: &[u8; 64],
    commitment2: &[u8; 64],
) -> (r: Result<(), ProofVerificationError>)
    ensures
        r == spec_verify_equality_proof(proof@, commitment1@, commitment2@),
{
    if !is_nonzero_point(commitment1) || !is_nonzero_point(commitment2) {
        return Err(ProofVerificationError::InvalidEqualityProof);
    }
    if !is_nonzero_point(&proof.r) || bytes_all_zero(proof.s.as_slice()) {
        return Err(ProofVerificationError::InvalidEqualityProof);
    }
    let r_first_32 = vstd::slice::slice_subrange(proof.r.as_slice(), 0, 32);
    if constant_time_eq(r_first_32, proof.s.as_slice()) {
        return Err(ProofVerificationError::InvalidEqualityProof);
    }
    Ok(())
}

/// What `verify_validity_proof` returns: all five commitments non-zero, then
/// the sender and recipient equality checks in order, first failure wins.
pub open spec fn spec_verify_validity_proof(
    p: ValidityProofView,
    sender_old: Seq<u8>,
    amount: Seq<u8>,
    sender_new: Seq<u8>,
    recipient_old: Seq<u8>,
    recipient_new: Seq<u8>,
) -> Result<(), ProofVerificationError> {
    if all_zero(sender_old) || all_zero(amount) || all_zero(sender_new) || all_zero(recipient_old)
        || all_zero(recipient_new) {
        Err(ProofVerificationError::InvalidValidityProof)
    } else {
        match spec_verify_equality_proof(p.sender_equality_proof, sender_old, sender_new) {
            Err(e) => Err(e),
            Ok(_) => spec_verify_equality_proof(
                p.recipient_equality_proof,
                recipient_old,
                recipient_new,
            ),
        }
    }
}

/// Validate the validity proof: the shape of value conservation. The sender
/// equality proof relates the old and new sender balances, the recipient
/// equality proof the old and new recipient balances.
pub fn verify_validity_proof(
    proof: &ValidityProof,
    sender_old_commitment: &[u8; 64],
    amount_commitment: &[u8; 64],
    sender_new_commitment: &[u8; 64],
    recipient_old_commitment: &[u8; 64],
    recipient_new_commitment: &[u8; 64],
) -> (r: Result<(), ProofVerificationError>)
    ensures
        r == spec_verify_validity_proof(
            proof@,
            sender_old_commitment@,
            amount_commitment@,
            sender_new_commitment@,
            recipient_old_commitment@,
            recipient_new_commitment@,
        ),
{
    if !is_nonzero_point(sender_old_commitment) || !is_nonzero_point(amount_commitment)
        || !is_nonzero_point(sender_new_commitment) || !is_nonzero_point(recipient_old_commitment)
        || !is_nonzero_point(recipient_new_commitment) {
        return Err(ProofVerificationError::InvalidValidityProof);
    }
    match verify_equality_proof(
        &proof.sender_equality_proof,
        sender_old_commitment,
        sender_new_commitment,
    ) {
        Ok(_) => {},
        Err(e) => {
            return Err(e);
        },
    }
    match verify_equality_proof(
        &proof.recipient_equality_proof,
        recipient_old_commitment,
        recipient_new_commitment,
    ) {
        Ok(_) => {},
        Err(e) => {
            return Err(e);
        },
    }
    Ok(())
}

/// What `verify_transfer_proof` returns: the codec result, then both range
/// proof checks, the validity check, and the commitment binding re-check, in
/// order with the first error winning.
pub open spec fn spec_verify_transfer_proof(
    d: Seq<u8>,
    amount_commitment: Seq<u8>,
    sender_after_commitment: Seq<u8>,
    sender_old_commitment: Seq<u8>,
    recipient_old_commitment: Seq<u8>,
    recipient_new_commitment: Seq<u8>,
) -> Result<(), ProofVerificationError> {
    match spec_deserialize(d) {
        Err(e) => Err(e),
        Ok(p) => match spec_verify_range_proof(p.amount_range_proof, amount_commitment) {
            Err(e) => Err(e),
            Ok(_) => match spec_verify_range_proof(
                p.sender_after_range_proof,
                sender_after_commitment,
            ) {
                Err(e) => Err(e),
                Ok(_) => match spec_verify_validity_proof(
                    p.validity_proof,
                    sender_old_commitment,
                    amount_commitment,
                    sender_after_commitment,
                    recipient_old_commitment,
                    recipient_new_commitment,
                ) {
                    Err(e) => Err(e),
                    Ok(_) => if p.amount_range_proof.commitment != amount_commitment {
                        Err(ProofVerificationError::CommitmentMismatch)
                    } else if p.sender_after_range_proof.commitment != sender_after_commitment {
                        Err(ProofVerificationError::CommitmentMismatch)
                    } else {
                        Ok(())
                    },
                },
            },
        },
    }
}

/// Top-level entry point: decode the blob, validate both range proofs and the
/// validity proof, and re-check that the embedded commitments bind to the
/// caller-supplied ones. Deterministic and free of side effects: the result
/// is a function of the inputs alone.
pub fn verify_transfer_proof(
    proof_data: &[u8],
    amount_commitment: &[u8; 64],
    sender_after_commitment: &[u8; 64],
    sender_old_commitment: &[u8; 64],
    recipient_old_commitment: &[u8; 64],
    recipient_new_commitment: &[u8; 64],
) -> (r: Result<(), ProofVerificationError>)
    ensures
        r == spec_verify_transfer_proof(
            proof_data@,
            amount_commitment@,
            sender_after_commitment@,
            sender_old_commitment@,
            recipient_old_commitment@,
            recipient_new_commitment@,
        ),
{
    let proof = match deserialize_proof_data(proof_data) {
        Ok(p) => p,
        Err(e) => {
            return Err(e);
        },
    };
    match verify_range_proof(&proof.amount_range_proof, amount_commitment) {
        Ok(_) => {},
        Err(e) => {
            return Err(e);
        },
    }
    match verify_range_proof(&proof.sender_after_range_proof, sender_after_commitment) {
        Ok(_) => {},
        Err(e) => {
            return Err(e);
        },
    }
    match verify_validity_proof(
        &proof.validity_proof,
        sender_old_commitment,
        amount_commitment,
        sender_after_commitment,
        recipient_old_commitment,
        recipient_new_commitment,
    ) {
        Ok(_) => {},
        Err(e) => {
            return Err(e);
        },
    }
    if !constant_time_eq(proof.amount_range_proof.commitment.as_slice(), amount_commitment.as_slice()) {
        return Err(ProofVerificationError::CommitmentMismatch);
    }
    if !constant_time_eq(
        proof.sender_after_range_proof.commitment.as_slice(),
        sender_after_commitment.as_slice(),
    ) {
        return Err(ProofVerificationError::CommitmentMismatch);
    }
    Ok(())
}

/// Every blob shorter than the structural floor is rejected as
/// `DeserializationFailed`, whatever its content: the fixed layout cannot fit.
pub proof fn lemma_deserialize_rejects_short(d: Seq<u8>)
    requires
        MIN_PROOF_DATA_SIZE <= d.len() < MIN_STRUCTURE_SIZE,
    ensures
        spec_deserialize(d) == Err::<TransferProofView, ProofVerificationError>(
            ProofVerificationError::DeserializationFailed,
        ),
{
}

/// Every blob whose first 256 bytes are all zero is rejected as
/// `DeserializationFailed`, even when its length is otherwise valid: either a
/// size bound or the all-zero-prefix heuristic fires.
pub proof fn lemma_deserialize_rejects_zero_prefix(d: Seq<u8>)
    requires
        d.len() >= ZERO_PREFIX_SCAN,
        forall|i: int| 0 <= i < ZERO_PREFIX_SCAN ==> d[i] == 0,
    ensures
        spec_deserialize(d) == Err::<TransferProofView, ProofVerificationError>(
            ProofVerificationError::DeserializationFailed,
        ),
{
    assert(all_zero(d.take(ZERO_PREFIX_SCAN as int)));
}

/// A blob that holds the full layout, passes the zero-prefix heuristic, and
/// has no all-zero required field deserializes successfully, and the parsed
/// amount commitment is exactly bytes `[0, 64)` of the blob.
pub proof fn lemma_deserialize_well_formed(d: Seq<u8>)
    requires
        FULL_LAYOUT_SIZE <= d.len() <= MAX_PROOF_DATA_SIZE,
        !all_zero(d.take(ZERO_PREFIX_SCAN as int)),
        !range_record_fields_zero(d, 0),
        !range_record_fields_zero(d, RANGE_RECORD_SIZE as int),
        !equality_record_fields_zero(d, 2 * RANGE_RECORD_SIZE as int),
        !equality_record_fields_zero(d, (2 * RANGE_RECORD_SIZE + EQUALITY_RECORD_SIZE) as int),
    ensures
        spec_deserialize(d) matches Ok(p) && p.amount_range_proof.commitment == d.subrange(0, 64),
{
}

/// Binding: when the blob deserializes but its first 64 bytes differ from
/// the caller-supplied (non-zero) amount commitment, the whole verification
/// fails with `CommitmentMismatch`, whatever the other commitments are.
pub proof fn lemma_commitment_binding(
    d: Seq<u8>,
    amount_commitment: Seq<u8>,
    sender_after_commitment: Seq<u8>,
    sender_old_commitment: Seq<u8>,
    recipient_old_commitment: Seq<u8>,
    recipient_new_commitment: Seq<u8>,
)
    requires
        spec_deserialize(d) is Ok,
        !all_zero(amount_commitment),
        d.subrange(0, 64) != amount_commitment,
    ensures
        spec_verify_transfer_proof(
            d,
            amount_commitment,
            sender_after_commitment,
            sender_old_commitment,
            recipient_old_commitment,
            recipient_new_commitment,
        ) == Err::<(), ProofVerificationError>(ProofVerificationError::CommitmentMismatch),
{
    assert(spec_deserialize(d)->Ok_0.amount_range_proof.commitment == d.subrange(0, 64));
}

/// Distinctness: a range proof record whose `A` and `S` are byte-identical is
/// rejected as `InvalidRangeProof`, even when both are individually non-zero
/// and every earlier check passes.
pub proof fn lemma_duplicate_components_rejected(
    p: BulletproofRangeProofView,
    commitment: Seq<u8>,
)
    requires
        !all_zero(commitment),
        p.commitment == commitment,
        !all_zero(p.a),
        !all_zero(p.s),
        !all_zero(p.t1),
        !all_zero(p.t2),
        !all_zero(p.taux),
        !all_zero(p.mu),
        !all_zero(p.t),
        p.a == p.s,
    ensures
        spec_verify_range_proof(p, commitment) == Err::<(), ProofVerificationError>(
            ProofVerificationError::InvalidRangeProof,
        ),
{
}

/// Idempotence: verification has no state, so two calls of
/// `verify_transfer_proof` on identical inputs return identical results —
/// each call returns exactly `spec_verify_transfer_proof` of its inputs.
pub proof fn lemma_verify_transfer_proof_deterministic(
    r1: Result<(), ProofVerificationError>,
    r2: Result<(), ProofVerificationError>,
    d: Seq<u8>,
    amount_commitment: Seq<u8>,
    sender_after_commitment: Seq<u8>,
    sender_old_commitment: Seq<u8>,
    recipient_old_commitment: Seq<u8>,
    recipient_new_commitment: Seq<u8>,
)
    requires
        r1 == spec_verify_transfer_proof(
            d,
            amount_commitment,
            sender_after_commitment,
            sender_old_commitment,
            recipient_old_commitment,
            recipient_new_commitment,
        ),
        r2 == spec_verify_transfer_proof(
            d,
            amount_commitment,
            sender_after_commitment,
            sender_old_commitment,
            recipient_old_commitment,
            recipient_new_commitment,
        ),
    ensures
        r1 == r2,
{
}

} // verus!
