//! Zero-knowledge proofs that a hidden 64-bit value equals a public constant.
//!
//! The prover commits to the value with a Pedersen commitment and proves, in a
//! rank-1 constraint system made non-interactive by a transcript, that the
//! committed value meets the one constraint of `statement`. Commitment and
//! proof travel as bytes; the verifier decodes them and checks the proof
//! without learning the value.

use vstd::prelude::*;

pub mod backend;
pub mod encoding;
pub mod proving;
pub mod statement;
pub mod verification;

use crate::backend::spec_pedersen_commitment;
use crate::encoding::{
    spec_commitment_decodes, spec_decode_failure, spec_proof_decodes, COMMITMENT_LEN,
    MIN_PROOF_LEN,
};
use crate::proving::{prove, spec_is_proof_about, spec_proving_may_return};
use crate::verification::{is_accepted, spec_verification_may_return, verify_encoded, VerifyError};

verus! {

/// Whether the pair is what one session about `value` under `blinding` makes:
/// the commitment of this opening and a proof about the same opening.
pub open spec fn spec_is_pair_about(
    value: u64,
    blinding: Seq<u8>,
    commitment: Seq<u8>,
    proof: Seq<u8>,
) -> bool {
    &&& blinding.len() == 32
    &&& commitment == spec_pedersen_commitment(value, blinding)
    &&& spec_is_proof_about(value, blinding, proof)
}

/// What `create_bulletproof` may hand out for `value`: the encoding of a
/// commitment to `value` under some 32-byte blinding factor, and the encoding
/// of a proof of the fixed statement about the same opening. Both decode; the
/// proof has the shortest length and the version byte 0, whatever the value.
pub open spec fn spec_creation_may_return(value: u64, commitment: Seq<u8>, proof: Seq<u8>) -> bool {
    &&& spec_commitment_decodes(commitment)
    &&& spec_proof_decodes(proof)
    &&& proof.len() == MIN_PROOF_LEN
    &&& proof[0] == 0
    &&& exists|blinding: Seq<u8>| #[trigger] spec_is_pair_about(value, blinding, commitment, proof)
}

/// Commits to `value` under a fresh blinding factor, proves that the committed
/// value equals the constrained constant, and returns the encoded commitment
/// and the encoded proof, in this order.
pub fn create_bulletproof(value: u64) -> (res: (Vec<u8>, Vec<u8>))
    ensures
        spec_creation_may_return(value, res.0@, res.1@),
{
    let (commitment, proof) = prove(value);
    proof {
        let blinding = choose|blinding: Seq<u8>|
            blinding.len() == 32 && #[trigger] spec_proving_may_return(
                value,
                blinding,
                commitment,
                proof,
            );
        assert(spec_is_pair_about(value, blinding, commitment@, proof@));
    }
    (commitment.to_bytes(), proof.to_bytes())
}

/// Decodes the pair and verifies the proof against the commitment. Every
/// failure, of decoding or of the proof, gives `false`.
pub fn verify_bulletproof(com: &[u8], proof: &[u8]) -> (res: bool)
    ensures
        spec_decode_failure(com@, proof@) is Some ==> !res,
{
    let outcome = verify_encoded(com, proof);
    is_accepted(&outcome)
}

/// What the prover hands out is never turned away as malformed: verifying it
/// ends in acceptance or in the rejection of the proof.
pub proof fn lemma_created_pair_decodes(
    value: u64,
    commitment: Seq<u8>,
    proof: Seq<u8>,
    outcome: Result<(), VerifyError>,
)
    requires
        spec_creation_may_return(value, commitment, proof),
        spec_verification_may_return(commitment, proof, outcome),
    ensures
        outcome is Ok || outcome == Err::<(), VerifyError>(VerifyError::Rejected),
{
}

/// The lengths of what is handed out are fixed: they depend neither on the
/// value nor on anything drawn.
pub proof fn lemma_created_lengths_are_fixed(
    first_value: u64,
    first: (Seq<u8>, Seq<u8>),
    second_value: u64,
    second: (Seq<u8>, Seq<u8>),
)
    requires
        spec_creation_may_return(first_value, first.0, first.1),
        spec_creation_may_return(second_value, second.0, second.1),
    ensures
        first.0.len() == COMMITMENT_LEN && second.0.len() == COMMITMENT_LEN,
        first.1.len() == MIN_PROOF_LEN && second.1.len() == MIN_PROOF_LEN,
{
}

} // verus!
