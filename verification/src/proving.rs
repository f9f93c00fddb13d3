//! The proving side: commit to a value and prove the statement about it.

use crate::backend::{prove_equal, random_scalar, spec_pedersen_commitment, spec_r1cs_proof};
use crate::encoding::{Commitment, Proof, MIN_PROOF_LEN};
use crate::statement::{
    domain_label, spec_domain_label, CONSTRAINED_VALUE, GENS_CAPACITY, PARTY_CAPACITY,
};
use vstd::pervasive::unreached;
use vstd::prelude::*;

verus! {

/// Whether `proof` is one that a session about `value` under the opening
/// `blinding` makes: the proof of the fixed statement for some 32 bytes that
/// the prover drew.
pub open spec fn spec_is_proof_about(value: u64, blinding: Seq<u8>, proof: Seq<u8>) -> bool {
    exists|drawn: Seq<u8>|
        drawn.len() == 32 && proof == #[trigger] spec_r1cs_proof(
            spec_domain_label(),
            value,
            blinding,
            CONSTRAINED_VALUE,
            drawn,
        )
}

/// What proving about `value` under the opening `blinding` may hand out: the
/// one commitment that the opening determines, and with it a proof of the
/// fixed statement about this opening. The proof decodes and has the shortest
/// length, with the version byte 0, whatever the value.
pub open spec fn spec_proving_may_return(
    value: u64,
    blinding: Seq<u8>,
    commitment: Commitment,
    proof: Proof,
) -> bool {
    &&& commitment@ == spec_pedersen_commitment(value, blinding)
    &&& commitment.wf()
    &&& proof.wf()
    &&& proof@.len() == MIN_PROOF_LEN
    &&& proof@[0] == 0
    &&& spec_is_proof_about(value, blinding, proof@)
}

/// Commits to `value` under the blinding factor `blinding` (32 bytes, read as
/// a little-endian integer modulo the group order) and proves that the value
/// equals `CONSTRAINED_VALUE`.
///
/// A proof is made for every value: whether the value meets the constraint is
/// not tested here, and a proof about one that does not will be rejected by
/// the verifier. The blinding factor must come from a cryptographically secure
/// source and be used once.
pub fn prove_with_blinding(value: u64, blinding: &[u8; 32]) -> (res: (Commitment, Proof))
    ensures
        spec_proving_may_return(value, blinding@, res.0, res.1),
{
    let made = prove_equal(
        domain_label(),
        GENS_CAPACITY,
        PARTY_CAPACITY,
        value,
        blinding,
        CONSTRAINED_VALUE,
    );
    match made {
        Ok((commitment, proof)) => (Commitment::from_valid(commitment), Proof::from_valid(proof)),
        Err(_) => unreached(),
    }
}

/// Commits to `value` under a freshly drawn blinding factor and proves that
/// the value equals `CONSTRAINED_VALUE`.
pub fn prove(value: u64) -> (res: (Commitment, Proof))
    ensures
        exists|blinding: Seq<u8>|
            blinding.len() == 32 && #[trigger] spec_proving_may_return(
                value,
                blinding,
                res.0,
                res.1,
            ),
{
    let blinding = random_scalar();
    let res = prove_with_blinding(value, &blinding);
    assert(spec_proving_may_return(value, blinding@, res.0, res.1));
    res
}

/// The opening determines the commitment: proving twice about one value under
/// one blinding factor hands out the same commitment, whatever the proofs.
pub proof fn lemma_opening_determines_commitment(
    value: u64,
    blinding: Seq<u8>,
    first: (Commitment, Proof),
    second: (Commitment, Proof),
)
    requires
        spec_proving_may_return(value, blinding, first.0, first.1),
        spec_proving_may_return(value, blinding, second.0, second.1),
    ensures
        first.0@ == second.0@,
{
}

} // verus!
