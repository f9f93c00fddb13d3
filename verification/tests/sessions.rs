use bulletproof_tx::encoding::{Commitment, DecodeError, Proof};
use bulletproof_tx::proving::{prove, prove_with_blinding};
use bulletproof_tx::statement::{domain_label, CONSTRAINED_VALUE, GENS_CAPACITY, PARTY_CAPACITY};
use bulletproof_tx::verification::{is_accepted, verify, verify_encoded, VerifyError};
use bulletproof_tx::{create_bulletproof, verify_bulletproof};
use bulletproofs::r1cs::{ConstraintSystem, Prover, Variable};
use curve25519_dalek::constants::RISTRETTO_BASEPOINT_COMPRESSED;

#[test]
fn statement_is_the_fixed_one() {
    assert_eq!(CONSTRAINED_VALUE, 1);
    assert_eq!(GENS_CAPACITY, 64);
    assert_eq!(PARTY_CAPACITY, 1);
    assert_eq!(domain_label(), "example");
}

#[test]
fn commitment_to_one_without_blinding_is_the_base_point() {
    let (commitment, _) = prove_with_blinding(1, &[0u8; 32]);
    assert_eq!(commitment.to_bytes(), RISTRETTO_BASEPOINT_COMPRESSED.as_bytes().to_vec());
}

#[test]
fn commitment_to_zero_without_blinding_is_the_identity() {
    let (commitment, _) = prove_with_blinding(0, &[0u8; 32]);
    assert_eq!(commitment.to_bytes(), vec![0u8; 32]);
}

#[test]
fn commitment_is_the_pedersen_commitment() {
    let gens = bulletproofs::PedersenGens::default();
    for (value, fill) in [(1u64, 1u8), (42, 7), (u64::MAX, 0xff), (0, 0x80)] {
        let blinding = [fill; 32];
        let expected = gens
            .commit(
                curve25519_dalek_ng::scalar::Scalar::from(value),
                curve25519_dalek_ng::scalar::Scalar::from_bytes_mod_order(blinding),
            )
            .compress();
        let (commitment, _) = prove_with_blinding(value, &blinding);
        assert_eq!(commitment.to_bytes(), expected.as_bytes().to_vec(), "value {}", value);
    }
}

#[test]
fn opening_determines_the_commitment() {
    let (first, _) = prove_with_blinding(1, &[5u8; 32]);
    let (second, _) = prove_with_blinding(1, &[5u8; 32]);
    assert_eq!(first, second);
}

#[test]
fn commitment_changes_with_the_blinding_and_with_the_value() {
    let (base, _) = prove_with_blinding(1, &[5u8; 32]);
    let (other_blinding, _) = prove_with_blinding(1, &[6u8; 32]);
    let (other_value, _) = prove_with_blinding(2, &[5u8; 32]);
    assert_ne!(base, other_blinding);
    assert_ne!(base, other_value);
}

#[test]
fn proof_about_one_is_accepted() {
    let (commitment, proof) = prove_with_blinding(1, &[11u8; 32]);
    assert_eq!(verify(&commitment, &proof), Ok(()));
    let (commitment, proof) = prove(1);
    assert_eq!(verify(&commitment, &proof), Ok(()));
}

#[test]
fn proof_about_another_value_is_rejected() {
    for value in [0u64, 2, 42, u64::MAX] {
        let (commitment, proof) = prove_with_blinding(value, &[11u8; 32]);
        assert_eq!(verify(&commitment, &proof), Err(VerifyError::Rejected), "value {}", value);
    }
    let (commitment, proof) = prove(42);
    assert_eq!(verify(&commitment, &proof), Err(VerifyError::Rejected));
}

#[test]
fn proof_without_blinding_is_still_checked() {
    let (commitment, proof) = prove_with_blinding(1, &[0u8; 32]);
    assert_eq!(verify(&commitment, &proof), Ok(()));
    let (commitment, proof) = prove_with_blinding(0, &[0u8; 32]);
    assert_eq!(verify(&commitment, &proof), Err(VerifyError::Rejected));
}

#[test]
fn fresh_blinding_gives_fresh_commitments() {
    let (first, _) = prove(1);
    let (second, _) = prove(1);
    assert_ne!(first, second);
}

#[test]
fn decode_errors_are_reported_in_order() {
    let (com, proof) = create_bulletproof(1);
    assert_eq!(verify_encoded(&com, &proof), Ok(()));
    assert_eq!(
        verify_encoded(&com[..31], &proof),
        Err(VerifyError::Decode(DecodeError::CommitmentLength))
    );
    assert_eq!(
        verify_encoded(&[0xffu8; 32], &proof),
        Err(VerifyError::Decode(DecodeError::InvalidPoint))
    );
    assert_eq!(
        verify_encoded(&com, &proof[..416]),
        Err(VerifyError::Decode(DecodeError::MalformedProof))
    );
    // The commitment is decoded first.
    assert_eq!(
        verify_encoded(&[], &[]),
        Err(VerifyError::Decode(DecodeError::CommitmentLength))
    );
    assert_eq!(
        verify_encoded(&[0xffu8; 32], &[]),
        Err(VerifyError::Decode(DecodeError::InvalidPoint))
    );
}

#[test]
fn well_formed_proof_can_still_be_rejected() {
    let (com, proof) = create_bulletproof(42);
    assert!(Commitment::from_bytes(&com).is_ok());
    assert!(Proof::from_bytes(&proof).is_ok());
    assert_eq!(verify_encoded(&com, &proof), Err(VerifyError::Rejected));
    // A proof with one round too many for the statement decodes and is rejected.
    let (com, mut proof) = create_bulletproof(1);
    proof.extend_from_slice(&[0u8; 64]);
    assert!(Proof::from_bytes(&proof).is_ok());
    assert_eq!(verify_encoded(&com, &proof), Err(VerifyError::Rejected));
}

#[test]
fn identity_commitment_is_not_accepted() {
    let (_, proof) = create_bulletproof(1);
    assert_eq!(verify_encoded(&[0u8; 32], &proof), Err(VerifyError::Rejected));
}

#[test]
fn outcome_is_reduced_to_one_bit() {
    assert!(is_accepted(&Ok(())));
    assert!(!is_accepted(&Err(VerifyError::Rejected)));
    assert!(!is_accepted(&Err(VerifyError::Decode(DecodeError::CommitmentLength))));
    assert!(!is_accepted(&Err(VerifyError::Decode(DecodeError::InvalidPoint))));
    assert!(!is_accepted(&Err(VerifyError::Decode(DecodeError::MalformedProof))));
}

#[test]
fn byte_interface_agrees_with_the_typed_one() {
    for value in [1u64, 42] {
        let (commitment, proof) = prove(value);
        let typed = verify(&commitment, &proof).is_ok();
        assert_eq!(verify_bulletproof(&commitment.to_bytes(), &proof.to_bytes()), typed);
        assert_eq!(typed, value == 1);
    }
}

#[test]
fn proof_made_by_the_proof_library_is_accepted() {
    let pc_gens = bulletproofs::PedersenGens::default();
    let bp_gens = bulletproofs::BulletproofGens::new(64, 1);
    let mut transcript = merlin::Transcript::new(b"example");
    let mut prover = Prover::new(&pc_gens, &mut transcript);
    let (com, var) = prover.commit(
        curve25519_dalek_ng::scalar::Scalar::from(1u64),
        curve25519_dalek_ng::scalar::Scalar::from(77u64),
    );
    prover.constrain(var - Variable::One());
    let proof = prover.prove(&bp_gens).unwrap();
    assert!(verify_bulletproof(com.as_bytes(), &proof.to_bytes()));
}

#[test]
fn proof_under_another_label_is_rejected() {
    let pc_gens = bulletproofs::PedersenGens::default();
    let bp_gens = bulletproofs::BulletproofGens::new(64, 1);
    let mut transcript = merlin::Transcript::new(b"another");
    let mut prover = Prover::new(&pc_gens, &mut transcript);
    let (com, var) = prover.commit(
        curve25519_dalek_ng::scalar::Scalar::from(1u64),
        curve25519_dalek_ng::scalar::Scalar::from(77u64),
    );
    prover.constrain(var - Variable::One());
    let proof = prover.prove(&bp_gens).unwrap();
    assert!(!verify_bulletproof(com.as_bytes(), &proof.to_bytes()));
}

#[test]
fn proof_has_the_same_length_for_every_value() {
    for value in [0u64, 1, 42, u64::MAX] {
        let (com, proof) = create_bulletproof(value);
        assert_eq!(com.len(), 32, "value {}", value);
        assert_eq!(proof.len(), 417, "value {}", value);
        assert_eq!(proof[0], 0, "value {}", value);
    }
}

#[test]
fn label_is_short() {
    assert_eq!(domain_label().len(), 7);
    assert_eq!(domain_label().chars().count(), 7);
}
