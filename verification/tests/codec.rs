use privacy_transfer::proof_verification::{
    deserialize_proof_data, extract_amount_commitment, verify_equality_proof, verify_range_proof,
    verify_transfer_proof, verify_validity_proof, BulletproofRangeProof, EqualityProof,
    InnerProductProof, ProofVerificationError, ValidityProof,
};

fn fill(blob: &mut [u8], start: usize, len: usize, value: u8) {
    for i in start..start + len {
        blob[i] = value;
    }
}

/// A 1600-byte blob where every field slot holds a distinct non-zero pattern
/// and both range records carry n = 64.
fn well_formed_blob() -> Vec<u8> {
    let mut blob = vec![0xEEu8; 1600];
    // amount range proof record at offset 0
    fill(&mut blob, 0, 64, 0x11); // commitment
    fill(&mut blob, 64, 64, 0x12); // A
    fill(&mut blob, 128, 64, 0x13); // S
    fill(&mut blob, 192, 64, 0x14); // T1
    fill(&mut blob, 256, 64, 0x15); // T2
    fill(&mut blob, 320, 32, 0x16); // taux
    fill(&mut blob, 352, 32, 0x17); // mu
    fill(&mut blob, 384, 32, 0x18); // t
    blob[416] = 64; // n
    // sender-after range proof record at offset 417
    fill(&mut blob, 417, 64, 0x21);
    fill(&mut blob, 481, 64, 0x22);
    fill(&mut blob, 545, 64, 0x23);
    fill(&mut blob, 609, 64, 0x24);
    fill(&mut blob, 673, 64, 0x25);
    fill(&mut blob, 737, 32, 0x26);
    fill(&mut blob, 769, 32, 0x27);
    fill(&mut blob, 801, 32, 0x28);
    blob[833] = 64;
    // sender equality proof record at offset 834
    fill(&mut blob, 834, 64, 0x31); // R
    fill(&mut blob, 898, 32, 0x32); // s
    // recipient equality proof record at offset 930
    fill(&mut blob, 930, 64, 0x33);
    fill(&mut blob, 994, 32, 0x34);
    blob
}

fn range_proof_record() -> BulletproofRangeProof {
    BulletproofRangeProof {
        commitment: [0x11; 64],
        a: [0x12; 64],
        s: [0x13; 64],
        t1: [0x14; 64],
        t2: [0x15; 64],
        taux: [0x16; 32],
        mu: [0x17; 32],
        t: [0x18; 32],
        inner_product_proof: InnerProductProof {
            l: Vec::new(),
            r: Vec::new(),
            a: [0; 32],
            b: [0; 32],
        },
        n: 64,
    }
}

#[test]
fn extract_short_blob_fails() {
    for len in [0usize, 1, 32, 63] {
        let blob = vec![0x55u8; len];
        assert_eq!(
            extract_amount_commitment(&blob),
            Err(ProofVerificationError::DeserializationFailed)
        );
    }
}

#[test]
fn extract_zero_commitment_fails() {
    let mut blob = vec![0u8; 128];
    blob[100] = 7; // only bytes outside [0, 64) are non-zero
    assert_eq!(
        extract_amount_commitment(&blob),
        Err(ProofVerificationError::InvalidCommitment)
    );
}

#[test]
fn extract_returns_first_64_bytes() {
    let blob = well_formed_blob();
    let commitment = extract_amount_commitment(&blob).unwrap();
    assert_eq!(commitment.as_slice(), &blob[0..64]);
    assert_eq!(commitment, [0x11u8; 64]);
}

#[test]
fn deserialize_short_blob_fails() {
    for len in [64usize, 100, 300, 511] {
        let blob = vec![0x55u8; len];
        assert_eq!(
            deserialize_proof_data(&blob).unwrap_err(),
            ProofVerificationError::DeserializationFailed
        );
    }
}

#[test]
fn deserialize_oversized_blob_fails() {
    let blob = vec![0x55u8; 10001];
    assert_eq!(
        deserialize_proof_data(&blob).unwrap_err(),
        ProofVerificationError::DeserializationFailed
    );
}

#[test]
fn deserialize_zero_prefix_fails() {
    let mut blob = vec![0xABu8; 1600];
    fill(&mut blob, 0, 256, 0);
    assert_eq!(
        deserialize_proof_data(&blob).unwrap_err(),
        ProofVerificationError::DeserializationFailed
    );
}

#[test]
fn deserialize_truncated_layout_fails() {
    // Long enough for both range records but not for the equality records.
    let mut blob = well_formed_blob();
    blob.truncate(900);
    assert_eq!(
        deserialize_proof_data(&blob).unwrap_err(),
        ProofVerificationError::DeserializationFailed
    );
}

#[test]
fn deserialize_well_formed_blob() {
    let blob = well_formed_blob();
    let proof = deserialize_proof_data(&blob).unwrap();
    assert_eq!(proof.amount_range_proof.commitment.as_slice(), &blob[0..64]);
    assert_eq!(proof.amount_range_proof.a, [0x12u8; 64]);
    assert_eq!(proof.amount_range_proof.taux, [0x16u8; 32]);
    assert_eq!(proof.amount_range_proof.n, 64);
    assert_eq!(proof.sender_after_range_proof.commitment, [0x21u8; 64]);
    assert_eq!(proof.sender_after_range_proof.n, 64);
    assert_eq!(proof.validity_proof.sender_equality_proof.r, [0x31u8; 64]);
    assert_eq!(proof.validity_proof.sender_equality_proof.s, [0x32u8; 32]);
    assert_eq!(proof.validity_proof.recipient_equality_proof.r, [0x33u8; 64]);
    assert_eq!(proof.validity_proof.recipient_equality_proof.s, [0x34u8; 32]);
}

#[test]
fn deserialize_minimal_layout() {
    // 1026 bytes is the exact size of the fixed layout; one byte less cuts
    // the recipient equality record short.
    let mut blob = well_formed_blob();
    blob.truncate(1026);
    assert!(deserialize_proof_data(&blob).is_ok());
    blob.truncate(1025);
    assert_eq!(
        deserialize_proof_data(&blob).unwrap_err(),
        ProofVerificationError::DeserializationFailed
    );
}

#[test]
fn extract_works_below_parse_floor() {
    // The fast path needs only 64 bytes, well below the full-parse floor.
    let mut blob = vec![0u8; 100];
    blob[0] = 0x09;
    let commitment = extract_amount_commitment(&blob).unwrap();
    assert_eq!(commitment.as_slice(), &blob[0..64]);
}

#[test]
fn deserialize_zero_range_field_fails() {
    let mut blob = well_formed_blob();
    fill(&mut blob, 320, 32, 0); // zero the amount record's taux
    assert_eq!(
        deserialize_proof_data(&blob).unwrap_err(),
        ProofVerificationError::InvalidRangeProof
    );
}

#[test]
fn deserialize_zero_equality_field_fails() {
    let mut blob = well_formed_blob();
    fill(&mut blob, 898, 32, 0); // zero the sender equality proof's s
    assert_eq!(
        deserialize_proof_data(&blob).unwrap_err(),
        ProofVerificationError::InvalidEqualityProof
    );
}

#[test]
fn range_proof_accepts_well_formed_record() {
    let record = range_proof_record();
    assert_eq!(verify_range_proof(&record, &[0x11; 64]), Ok(()));
}

#[test]
fn range_proof_rejects_zero_expected_commitment() {
    let record = range_proof_record();
    assert_eq!(
        verify_range_proof(&record, &[0; 64]),
        Err(ProofVerificationError::InvalidRangeProof)
    );
}

#[test]
fn range_proof_rejects_commitment_mismatch() {
    let record = range_proof_record();
    assert_eq!(
        verify_range_proof(&record, &[0x77; 64]),
        Err(ProofVerificationError::CommitmentMismatch)
    );
}

#[test]
fn range_proof_rejects_identical_a_and_s() {
    let mut record = range_proof_record();
    record.s = record.a; // both stay individually non-zero
    assert_eq!(
        verify_range_proof(&record, &[0x11; 64]),
        Err(ProofVerificationError::InvalidRangeProof)
    );
}

#[test]
fn range_proof_rejects_commitment_reused_as_component() {
    let mut record = range_proof_record();
    record.t1 = [0x11; 64]; // equal to the expected commitment
    assert_eq!(
        verify_range_proof(&record, &[0x11; 64]),
        Err(ProofVerificationError::InvalidRangeProof)
    );
}

#[test]
fn range_proof_rejects_bad_bit_length() {
    let mut record = range_proof_record();
    record.n = 0;
    assert_eq!(
        verify_range_proof(&record, &[0x11; 64]),
        Err(ProofVerificationError::InvalidRangeProof)
    );
    record.n = 65;
    assert_eq!(
        verify_range_proof(&record, &[0x11; 64]),
        Err(ProofVerificationError::InvalidRangeProof)
    );
}

#[test]
fn equality_proof_accepts_well_formed_record() {
    let proof = EqualityProof {
        r: [0x31; 64],
        s: [0x32; 32],
    };
    assert_eq!(
        verify_equality_proof(&proof, &[0x41; 64], &[0x42; 64]),
        Ok(())
    );
}

#[test]
fn equality_proof_rejects_zero_commitment() {
    let proof = EqualityProof {
        r: [0x31; 64],
        s: [0x32; 32],
    };
    assert_eq!(
        verify_equality_proof(&proof, &[0; 64], &[0x42; 64]),
        Err(ProofVerificationError::InvalidEqualityProof)
    );
}

#[test]
fn equality_proof_rejects_degenerate_record() {
    // The first 32 bytes of R equal s.
    let proof = EqualityProof {
        r: [0x32; 64],
        s: [0x32; 32],
    };
    assert_eq!(
        verify_equality_proof(&proof, &[0x41; 64], &[0x42; 64]),
        Err(ProofVerificationError::InvalidEqualityProof)
    );
}

#[test]
fn validity_proof_accepts_well_formed_records() {
    let proof = ValidityProof {
        sender_equality_proof: EqualityProof {
            r: [0x31; 64],
            s: [0x32; 32],
        },
        recipient_equality_proof: EqualityProof {
            r: [0x33; 64],
            s: [0x34; 32],
        },
    };
    assert_eq!(
        verify_validity_proof(
            &proof,
            &[0x41; 64],
            &[0x11; 64],
            &[0x21; 64],
            &[0x43; 64],
            &[0x44; 64]
        ),
        Ok(())
    );
}

#[test]
fn validity_proof_rejects_zero_commitment() {
    let proof = ValidityProof {
        sender_equality_proof: EqualityProof {
            r: [0x31; 64],
            s: [0x32; 32],
        },
        recipient_equality_proof: EqualityProof {
            r: [0x33; 64],
            s: [0x34; 32],
        },
    };
    assert_eq!(
        verify_validity_proof(
            &proof,
            &[0x41; 64],
            &[0x11; 64],
            &[0; 64],
            &[0x43; 64],
            &[0x44; 64]
        ),
        Err(ProofVerificationError::InvalidValidityProof)
    );
}

#[test]
fn transfer_proof_accepts_well_formed_inputs() {
    // Every field slot distinct and non-zero, n = 64 in both records, and the
    // caller-supplied commitments equal to the embedded ones.
    let blob = well_formed_blob();
    let amount = extract_amount_commitment(&blob).unwrap();
    let result = verify_transfer_proof(
        &blob,
        &amount,
        &[0x21; 64], // embedded sender-after commitment
        &[0x41; 64],
        &[0x43; 64],
        &[0x44; 64],
    );
    assert_eq!(result, Ok(()));
}

#[test]
fn transfer_proof_rejects_unbound_amount_commitment() {
    let blob = well_formed_blob();
    let result = verify_transfer_proof(
        &blob,
        &[0x77; 64], // differs from bytes [0, 64) of the blob
        &[0x21; 64],
        &[0x41; 64],
        &[0x43; 64],
        &[0x44; 64],
    );
    assert_eq!(result, Err(ProofVerificationError::CommitmentMismatch));
}

#[test]
fn transfer_proof_is_idempotent() {
    let blob = well_formed_blob();
    let first = verify_transfer_proof(
        &blob,
        &[0x11; 64],
        &[0x21; 64],
        &[0x41; 64],
        &[0x43; 64],
        &[0x44; 64],
    );
    let second = verify_transfer_proof(
        &blob,
        &[0x11; 64],
        &[0x21; 64],
        &[0x41; 64],
        &[0x43; 64],
        &[0x44; 64],
    );
    assert_eq!(first, second);
    assert_eq!(first, Ok(()));
    let bad_first = verify_transfer_proof(
        &blob,
        &[0x77; 64],
        &[0x21; 64],
        &[0x41; 64],
        &[0x43; 64],
        &[0x44; 64],
    );
    let bad_second = verify_transfer_proof(
        &blob,
        &[0x77; 64],
        &[0x21; 64],
        &[0x41; 64],
        &[0x43; 64],
        &[0x44; 64],
    );
    assert_eq!(bad_first, bad_second);
}

#[test]
fn scenario_ones_prefix_blob() {
    // 1600 zero bytes except bytes [0, 64) set to 0x01: the commitment
    // extracts, but the record's A field is all-zero, so the codec rejects
    // the blob before any validator runs.
    let mut blob = vec![0u8; 1600];
    fill(&mut blob, 0, 64, 0x01);
    assert_eq!(extract_amount_commitment(&blob), Ok([0x01u8; 64]));
    let result = verify_transfer_proof(
        &blob,
        &[0x01; 64],
        &[0x21; 64],
        &[0x41; 64],
        &[0x43; 64],
        &[0x44; 64],
    );
    assert_eq!(result, Err(ProofVerificationError::InvalidRangeProof));
}

#[test]
fn scenario_zero_bit_length() {
    let mut blob = well_formed_blob();
    blob[416] = 0; // n = 0 in the amount record
    let result = verify_transfer_proof(
        &blob,
        &[0x11; 64],
        &[0x21; 64],
        &[0x41; 64],
        &[0x43; 64],
        &[0x44; 64],
    );
    assert_eq!(result, Err(ProofVerificationError::InvalidRangeProof));
}

#[test]
fn scenario_zeroed_sender_equality_scalar() {
    // The codec's parse-time zero check fires before the equality validator.
    let mut blob = well_formed_blob();
    fill(&mut blob, 898, 32, 0);
    let result = verify_transfer_proof(
        &blob,
        &[0x11; 64],
        &[0x21; 64],
        &[0x41; 64],
        &[0x43; 64],
        &[0x44; 64],
    );
    assert_eq!(result, Err(ProofVerificationError::InvalidEqualityProof));
}

#[test]
fn error_from_str_is_invalid_point() {
    assert_eq!(
        ProofVerificationError::from("bad point encoding"),
        ProofVerificationError::InvalidPoint
    );
}
