//! The verifying side: decode what was received and check the proof against
//! the statement, without ever learning the value.

use crate::backend::{proof_from_bytes, verify_equal};
use crate::encoding::{spec_decode_failure, Commitment, DecodeError, Proof};
use crate::statement::{domain_label, CONSTRAINED_VALUE, GENS_CAPACITY, PARTY_CAPACITY};
use vstd::prelude::*;

verus! {

/// Why a pair of commitment and proof was not accepted.
#[derive(Clone, Copy, Debug, PartialEq, Eq)]
pub enum VerifyError {
    /// The bytes were turned away before verification.
    Decode(DecodeError),
    /// Commitment and proof decode, but the proof does not hold of the
    /// commitment.
    Rejected,
}

/// What one verification of the encoded pair may return. A pair that does not
/// decode has one outcome, the reason for turning it away; for a pair that
/// decodes the proof system decides between acceptance and rejection.
pub open spec fn spec_verification_may_return(
    commitment: Seq<u8>,
    proof: Seq<u8>,
    res: Result<(), VerifyError>,
) -> bool {
    match spec_decode_failure(commitment, proof) {
        Some(e) => res == Err::<(), VerifyError>(VerifyError::Decode(e)),
        None => res is Ok || res == Err::<(), VerifyError>(VerifyError::Rejected),
    }
}

/// The single bit that the outcome of a verification is reduced to, so that
/// the reason for a rejection does not show.
pub fn is_accepted(outcome: &Result<(), VerifyError>) -> (res: bool)
    ensures
        res == (outcome is Ok),
{
    match outcome {
        Ok(_) => true,
        Err(_) => false,
    }
}

/// Checks `proof` against `commitment` and the statement. A rejection is an
/// ordinary return value.
pub fn verify(commitment: &Commitment, proof: &Proof) -> (res: Result<(), VerifyError>)
    ensures
        res is Ok || res == Err::<(), VerifyError>(VerifyError::Rejected),
{
    match proof_from_bytes(proof.as_slice()) {
        Ok(decoded) => {
            let checked = verify_equal(
                domain_label(),
                GENS_CAPACITY,
                PARTY_CAPACITY,
                commitment.as_array(),
                CONSTRAINED_VALUE,
                &decoded,
            );
            match checked {
                Ok(_) => Ok(()),
                Err(_) => Err(VerifyError::Rejected),
            }
        },
        Err(_) => Err(VerifyError::Rejected),
    }
}

/// Decodes the commitment, then the proof, and verifies the proof. Nothing is
/// verified unless both decode.
pub fn verify_encoded(commitment: &[u8], proof: &[u8]) -> (res: Result<(), VerifyError>)
    ensures
        spec_verification_may_return(commitment@, proof@, res),
{
    match Commitment::from_bytes(commitment) {
        Err(e) => Err(VerifyError::Decode(e)),
        Ok(c) => match Proof::from_bytes(proof) {
            Err(e) => Err(VerifyError::Decode(e)),
            Ok(p) => verify(&c, &p),
        },
    }
}

/// Two verifications of a pair that does not decode end alike.
pub proof fn lemma_malformed_input_has_one_outcome(
    commitment: Seq<u8>,
    proof: Seq<u8>,
    first: Result<(), VerifyError>,
    second: Result<(), VerifyError>,
)
    requires
        spec_decode_failure(commitment, proof) is Some,
        spec_verification_may_return(commitment, proof, first),
        spec_verification_may_return(commitment, proof, second),
    ensures
        first == second,
        first is Err,
{
}

} // verus!
