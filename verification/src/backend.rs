//! The boundary to the cryptographic crates.
//!
//! Everything in this file is believed, not proved: each function below makes
//! one call sequence into `bulletproofs`, `curve25519-dalek`, `merlin` or
//! `rand`, on plain bytes and integers, and its contract states what the
//! source of those crates shows of the call. The curve types never leave this
//! file: group elements and scalars cross as their canonical 32-byte
//! encodings, which is also how `bulletproofs` (built on the
//! `curve25519-dalek-ng` line of the curve library) and `curve25519-dalek`
//! agree on a value.

use bulletproofs::r1cs::{ConstraintSystem, Prover, R1CSError, R1CSProof, Verifier};
use bulletproofs::{BulletproofGens, PedersenGens};
use curve25519_dalek::ristretto::CompressedRistretto;
use curve25519_dalek::scalar::Scalar;
use merlin::Transcript;
use rand::thread_rng;
use vstd::prelude::*;

verus! {

/// `bulletproofs::r1cs::R1CSProof`, a decoded proof. Opaque here: it is only
/// carried from `proof_from_bytes` to `verify_equal`.
#[verifier::external_type_specification]
#[verifier::external_body]
pub struct ExR1CSProof(R1CSProof);

/// `bulletproofs::r1cs::R1CSError`, the error of the constraint-system calls.
#[verifier::external_type_specification]
#[verifier::external_body]
pub struct ExR1CSError(R1CSError);

/// Most generators per party that a session may ask for. `BulletproofGens::new`
/// derives and stores all of them on every call, and fails where their storage
/// cannot be had.
pub const MAX_GENS_CAPACITY: usize = 4096;

/// Most parties that a session may ask generators for.
pub const MAX_PARTY_CAPACITY: usize = 64;

/// Most characters of a domain label. `Transcript::new` frames the label by
/// its length in bytes and panics on one that does not fit 32 bits; a
/// character takes at most four bytes.
pub const MAX_LABEL_CHARS: usize = 0x3fff_ffff;

/// Whether 32 bytes are the canonical encoding of a group element: the
/// answer of `CompressedRistretto::decompress`, which depends on the bytes
/// alone.
pub uninterp spec fn spec_point_decompresses(encoding: Seq<u8>) -> bool;

/// The compressed Pedersen commitment `value * B + blinding * B_blinding`
/// that `Prover::commit` forms under the default generators, the blinding
/// bytes read as a little-endian integer modulo the group order.
pub uninterp spec fn spec_pedersen_commitment(value: u64, blinding: Seq<u8>) -> Seq<u8>;

/// The proof that one prover session hands out, in the encoding of
/// `R1CSProof::to_bytes`: it is determined by the label of the transcript, the
/// opening, the constant of the constraint, and the 32 bytes that
/// `Prover::prove` draws from `rand::thread_rng` to key its nonces.
pub uninterp spec fn spec_r1cs_proof(
    label: Seq<char>,
    value: u64,
    blinding: Seq<u8>,
    target: u64,
    drawn: Seq<u8>,
) -> Seq<u8>;

/// The order of the group, `2^252 + 27742317777372353535851937790883648493`.
pub open spec fn spec_group_order() -> nat {
    0x1000000000000000000000000000000014def9dea2f79cd65812631a5cf5d3ednat
}

/// The integer that `bytes` encode, least significant byte first.
pub open spec fn spec_le_value(bytes: Seq<u8>) -> nat
    decreases bytes.len(),
{
    if bytes.len() == 0 {
        0
    } else {
        bytes[0] as nat + 256 * spec_le_value(bytes.drop_first())
    }
}

/// The 32-byte element of a proof encoding at `index`, counted after the
/// version byte.
pub open spec fn spec_element(bytes: Seq<u8>, index: int) -> Seq<u8> {
    bytes.subrange(1 + 32 * index, 33 + 32 * index)
}

/// Whether the element at `index` is a canonical scalar, as
/// `Scalar::from_canonical_bytes` decides it: the integer it encodes is below
/// the order of the group.
pub open spec fn spec_scalar_canonical(bytes: Seq<u8>, index: int) -> bool {
    spec_le_value(spec_element(bytes, index)) < spec_group_order()
}

/// Whether the five scalars of a well-framed proof encoding (the last three of
/// its fixed part and the last two of all) are canonical, which is the rest of
/// what `R1CSProof::from_bytes` asks beyond the framing.
pub open spec fn spec_proof_scalars_canonical(bytes: Seq<u8>) -> bool {
    let fixed = spec_fixed_elements(bytes[0]);
    let all = (bytes.len() - 1) / 32;
    &&& spec_scalar_canonical(bytes, fixed - 3)
    &&& spec_scalar_canonical(bytes, fixed - 2)
    &&& spec_scalar_canonical(bytes, fixed - 1)
    &&& spec_scalar_canonical(bytes, all - 2)
    &&& spec_scalar_canonical(bytes, all - 1)
}

/// Number of 32-byte elements before the inner-product argument, for each
/// version byte that `R1CSProof::from_bytes` accepts: 8 points and 3 scalars
/// without second-phase commitments, 11 points and 3 scalars with them.
pub open spec fn spec_fixed_elements(version: u8) -> int {
    if version == 0 {
        11
    } else {
        14
    }
}

/// The framing that `R1CSProof::from_bytes` asks of its input: a version byte
/// of 0 or 1, then whole 32-byte elements; after the fixed part, `2k` points
/// and two scalars of the inner-product argument, with `k < 32`.
pub open spec fn spec_proof_framed(bytes: Seq<u8>) -> bool {
    &&& bytes.len() >= 1
    &&& bytes[0] <= 1
    &&& (bytes.len() - 1) % 32 == 0
    &&& {
        let rest = (bytes.len() - 1) / 32 - spec_fixed_elements(bytes[0]);
        rest >= 2 && rest % 2 == 0 && (rest - 2) / 2 < 32
    }
}

/// Draws a blinding factor: `Scalar::random` on `rand::thread_rng`, handed
/// out as the scalar's canonical bytes. Nothing is promised of the value.
/// `thread_rng` panics when the operating system gives no entropy.
#[verifier::external_body]
pub(crate) fn random_scalar() -> (res: [u8; 32]) {
    Scalar::random(&mut thread_rng()).to_bytes()
}

/// `CompressedRistretto::from_slice`, which copies 32 bytes and panics on any
/// other length.
#[verifier::external_body]
pub(crate) fn compressed_from_slice(bytes: &[u8]) -> (res: [u8; 32])
    requires
        bytes@.len() == 32,
    ensures
        res@ == bytes@,
{
    CompressedRistretto::from_slice(bytes).to_bytes()
}

/// `CompressedRistretto::decompress`: whether the encoding is that of a group
/// element.
#[verifier::external_body]
pub(crate) fn point_decompresses(encoding: &[u8; 32]) -> (res: bool)
    ensures
        res == spec_point_decompresses(encoding@),
{
    CompressedRistretto(*encoding).decompress().is_some()
}

/// `R1CSProof::from_bytes`. It succeeds exactly on well-framed input whose
/// five scalars are canonical; the points of a proof are not examined at this
/// stage.
#[verifier::external_body]
pub(crate) fn proof_from_bytes(bytes: &[u8]) -> (res: Result<R1CSProof, R1CSError>)
    ensures
        res.is_ok() == (spec_proof_framed(bytes@) && spec_proof_scalars_canonical(bytes@)),
{
    R1CSProof::from_bytes(bytes)
}

/// One prover session of `bulletproofs::r1cs`: a transcript seeded with
/// `label`, one variable committed to `value` under `blinding`, the single
/// constraint `variable - target = 0`, then `Prover::prove`, whose proof is
/// handed out in the encoding of `R1CSProof::to_bytes`.
///
/// The prover does not test the constraint against the value: it fails only
/// for want of generators, and a system without multipliers needs one. The
/// commitment depends on `value` and `blinding` alone; the proof also on the
/// label, the constant and 32 bytes that `prove` draws itself. A system
/// without multipliers has no second-phase commitments and an inner-product
/// argument without rounds, so the proof has the version byte 0 and thirteen
/// elements. `BulletproofGens` indexes the generators of party 0, hence the
/// lower bound on `party_capacity`; the bound on the label is that of
/// `Transcript::new`.
#[verifier::external_body]
pub(crate) fn prove_equal(
    label: &'static str,
    gens_capacity: usize,
    party_capacity: usize,
    value: u64,
    blinding: &[u8; 32],
    target: u64,
) -> (res: Result<([u8; 32], Vec<u8>), R1CSError>)
    requires
        label@.len() <= MAX_LABEL_CHARS,
        gens_capacity <= MAX_GENS_CAPACITY,
        1 <= party_capacity <= MAX_PARTY_CAPACITY,
    ensures
        res.is_ok() == (gens_capacity >= 1),
        res matches Ok(pair) ==> pair.0@ == spec_pedersen_commitment(value, blinding@),
        res matches Ok(pair) ==> spec_point_decompresses(pair.0@),
        res matches Ok(pair) ==> exists|drawn: Seq<u8>|
            drawn.len() == 32 && pair.1@ == #[trigger] spec_r1cs_proof(
                label@,
                value,
                blinding@,
                target,
                drawn,
            ),
        res matches Ok(pair) ==> pair.1@.len() == 417 && pair.1@[0] == 0,
        res matches Ok(pair) ==> spec_proof_framed(pair.1@) && spec_proof_scalars_canonical(
            pair.1@,
        ),
{
    let pc_gens = PedersenGens::default();
    let bp_gens = BulletproofGens::new(gens_capacity, party_capacity);
    let mut prover = Prover::new(&pc_gens, Transcript::new(label.as_bytes()));
    let opening = curve25519_dalek_ng::scalar::Scalar::from_bytes_mod_order(*blinding);
    let (commitment, variable) = prover.commit(value.into(), opening);
    prover.constrain(variable - target);
    let proof = prover.prove(&bp_gens)?;
    Ok((commitment.to_bytes(), proof.to_bytes()))
}

/// One verifier session of `bulletproofs::r1cs`: a transcript seeded with
/// `label`, the commitment declared as the one variable, the single constraint
/// `variable - target = 0`, then `Verifier::verify` on the decoded proof.
///
/// Nothing is promised of the answer: the verifier folds its checks into one
/// equation with a scalar drawn from `rand::thread_rng`, so the answer is not
/// a function of the arguments. The bound on the label is that of
/// `Transcript::new`, the lower bound on `party_capacity` that of the
/// generators of party 0.
#[verifier::external_body]
pub(crate) fn verify_equal(
    label: &'static str,
    gens_capacity: usize,
    party_capacity: usize,
    commitment: &[u8; 32],
    target: u64,
    proof: &R1CSProof,
) -> (res: Result<(), R1CSError>)
    requires
        label@.len() <= MAX_LABEL_CHARS,
        gens_capacity <= MAX_GENS_CAPACITY,
        1 <= party_capacity <= MAX_PARTY_CAPACITY,
{
    let pc_gens = PedersenGens::default();
    let bp_gens = BulletproofGens::new(gens_capacity, party_capacity);
    let mut verifier = Verifier::new(Transcript::new(label.as_bytes()));
    let point = curve25519_dalek_ng::ristretto::CompressedRistretto(*commitment);
    let variable = verifier.commit(point);
    verifier.constrain(variable - target);
    verifier.verify(proof, &pc_gens, &bp_gens)
}

} // verus!
