//! Byte encodings of commitments and proofs, and what decoding accepts.
//!
//! A `Commitment` is held as the canonical 32-byte encoding of its group
//! element and a `Proof` as the bytes of its wire encoding. Both types can only
//! be made from bytes that decode, so a value of either is always valid, and
//! encoding is the identity on what is held.

use crate::backend::{
    compressed_from_slice, point_decompresses, proof_from_bytes, spec_point_decompresses,
    spec_proof_framed, spec_proof_scalars_canonical,
};
use vstd::prelude::*;
use vstd::slice::slice_to_vec;

verus! {

/// Length in bytes of an encoded commitment.
pub const COMMITMENT_LEN: usize = 32;

/// Length in bytes of the shortest proof encoding that can decode: the version
/// byte, eleven fixed elements and the two scalars of an inner-product
/// argument without rounds.
pub const MIN_PROOF_LEN: usize = 417;

/// Why bytes were turned away before any verification took place.
#[derive(Clone, Copy, Debug, PartialEq, Eq)]
pub enum DecodeError {
    /// The commitment is not `COMMITMENT_LEN` bytes long.
    CommitmentLength,
    /// The commitment has the right length but encodes no group element.
    InvalidPoint,
    /// The proof is truncated, oversized or otherwise not a proof encoding.
    MalformedProof,
}

/// Whether `bytes` encode a commitment.
pub open spec fn spec_commitment_decodes(bytes: Seq<u8>) -> bool {
    bytes.len() == COMMITMENT_LEN && spec_point_decompresses(bytes)
}

/// Whether `bytes` encode a proof.
pub open spec fn spec_proof_decodes(bytes: Seq<u8>) -> bool {
    spec_proof_framed(bytes) && spec_proof_scalars_canonical(bytes)
}

/// What decoding `bytes` as a commitment gives: the bytes held by the decoded
/// commitment, or the reason for turning them away.
pub open spec fn spec_decode_commitment(bytes: Seq<u8>) -> Result<Seq<u8>, DecodeError> {
    if bytes.len() != COMMITMENT_LEN {
        Err(DecodeError::CommitmentLength)
    } else if !spec_point_decompresses(bytes) {
        Err(DecodeError::InvalidPoint)
    } else {
        Ok(bytes)
    }
}

/// What decoding `bytes` as a proof gives.
pub open spec fn spec_decode_proof(bytes: Seq<u8>) -> Result<Seq<u8>, DecodeError> {
    if spec_proof_decodes(bytes) {
        Ok(bytes)
    } else {
        Err(DecodeError::MalformedProof)
    }
}

/// The first reason for which the pair is turned away, the commitment being
/// decoded before the proof; `None` when both decode.
pub open spec fn spec_decode_failure(commitment: Seq<u8>, proof: Seq<u8>) -> Option<DecodeError> {
    match spec_decode_commitment(commitment) {
        Err(e) => Some(e),
        Ok(_) => match spec_decode_proof(proof) {
            Err(e) => Some(e),
            Ok(_) => None,
        },
    }
}

/// A Pedersen commitment, public once handed out.
#[derive(Debug, PartialEq, Eq)]
pub struct Commitment {
    bytes: [u8; 32],
}

impl View for Commitment {
    type V = Seq<u8>;

    /// The canonical encoding of the committed group element.
    closed spec fn view(&self) -> Seq<u8> {
        self.bytes@
    }
}

impl Commitment {
    /// Every commitment holds the encoding of a group element.
    #[verifier::type_invariant]
    pub closed spec fn inv(&self) -> bool {
        spec_point_decompresses(self.bytes@)
    }

    /// Validity as the laws of this module speak of it.
    pub open spec fn wf(&self) -> bool {
        spec_commitment_decodes(self@)
    }

    /// Wraps an encoding that is known to be that of a group element.
    pub(crate) fn from_valid(bytes: [u8; 32]) -> (res: Commitment)
        requires
            spec_point_decompresses(bytes@),
        ensures
            res@ == bytes@,
            res.wf(),
    {
        Commitment { bytes }
    }

    /// Decodes a commitment, turning away every byte string that is not the
    /// canonical encoding of a group element.
    pub fn from_bytes(bytes: &[u8]) -> (res: Result<Commitment, DecodeError>)
        ensures
            match spec_decode_commitment(bytes@) {
                Ok(held) => res matches Ok(c) && c@ == held && c.wf(),
                Err(e) => res matches Err(f) && f == e,
            },
    {
        if bytes.len() != COMMITMENT_LEN {
            return Err(DecodeError::CommitmentLength);
        }
        let encoding = compressed_from_slice(bytes);
        if !point_decompresses(&encoding) {
            return Err(DecodeError::InvalidPoint);
        }
        Ok(Commitment { bytes: encoding })
    }

    /// The fixed-length encoding of the commitment.
    pub fn to_bytes(&self) -> (res: Vec<u8>)
        ensures
            res@ == self@,
            spec_commitment_decodes(res@),
    {
        proof {
            use_type_invariant(self);
        }
        slice_to_vec(&self.bytes)
    }

    /// The encoding as an array, for the calls that take one.
    pub(crate) fn as_array(&self) -> (res: &[u8; 32])
        ensures
            res@ == self@,
            spec_point_decompresses(res@),
    {
        proof {
            use_type_invariant(self);
        }
        &self.bytes
    }
}

impl Clone for Commitment {
    fn clone(&self) -> (res: Self)
        ensures
            res@ == self@,
    {
        proof {
            use_type_invariant(self);
        }
        Commitment { bytes: self.bytes }
    }
}

/// A proof that the value under a commitment meets the constraint. Immutable
/// once made.
#[derive(Debug, PartialEq, Eq)]
pub struct Proof {
    bytes: Vec<u8>,
}

impl View for Proof {
    type V = Seq<u8>;

    /// The wire encoding of the proof.
    closed spec fn view(&self) -> Seq<u8> {
        self.bytes@
    }
}

impl Proof {
    /// Every proof holds bytes that decode.
    #[verifier::type_invariant]
    pub closed spec fn inv(&self) -> bool {
        spec_proof_decodes(self.bytes@)
    }

    /// Validity as the laws of this module speak of it.
    pub open spec fn wf(&self) -> bool {
        spec_proof_decodes(self@)
    }

    /// Wraps bytes that are known to decode.
    pub(crate) fn from_valid(bytes: Vec<u8>) -> (res: Proof)
        requires
            spec_proof_decodes(bytes@),
        ensures
            res@ == bytes@,
            res.wf(),
    {
        Proof { bytes }
    }

    /// Decodes a proof, turning away truncated, oversized and structurally
    /// inconsistent input instead of going on with part of it.
    pub fn from_bytes(bytes: &[u8]) -> (res: Result<Proof, DecodeError>)
        ensures
            match spec_decode_proof(bytes@) {
                Ok(held) => res matches Ok(p) && p@ == held && p.wf(),
                Err(e) => res matches Err(f) && f == e,
            },
    {
        match proof_from_bytes(bytes) {
            Ok(_) => Ok(Proof { bytes: slice_to_vec(bytes) }),
            Err(_) => Err(DecodeError::MalformedProof),
        }
    }

    /// The wire encoding of the proof.
    pub fn to_bytes(&self) -> (res: Vec<u8>)
        ensures
            res@ == self@,
            spec_proof_decodes(res@),
    {
        proof {
            use_type_invariant(self);
        }
        slice_to_vec(self.bytes.as_slice())
    }

    /// The held bytes, for the calls that take a slice.
    pub(crate) fn as_slice(&self) -> (res: &[u8])
        ensures
            res@ == self@,
            spec_proof_decodes(res@),
    {
        proof {
            use_type_invariant(self);
        }
        self.bytes.as_slice()
    }
}

impl Clone for Proof {
    fn clone(&self) -> (res: Self)
        ensures
            res@ == self@,
    {
        proof {
            use_type_invariant(self);
        }
        Proof { bytes: slice_to_vec(self.bytes.as_slice()) }
    }
}

/// Decoding the encoding of a valid commitment gives that commitment back.
pub proof fn lemma_commitment_round_trip(c: Commitment)
    requires
        c.wf(),
    ensures
        spec_decode_commitment(c@) == Ok::<Seq<u8>, DecodeError>(c@),
{
}

/// Decoding the encoding of a valid proof gives that proof back.
pub proof fn lemma_proof_round_trip(p: Proof)
    requires
        p.wf(),
    ensures
        spec_decode_proof(p@) == Ok::<Seq<u8>, DecodeError>(p@),
{
}

/// Whatever decodes is handed back unchanged by encoding: no two byte strings
/// decode to the same commitment or to the same proof.
pub proof fn lemma_decoding_keeps_the_bytes(bytes: Seq<u8>)
    ensures
        spec_decode_commitment(bytes) matches Ok(held) ==> held == bytes,
        spec_decode_proof(bytes) matches Ok(held) ==> held == bytes,
{
}

/// A proof encoding is the version byte followed by whole 32-byte elements,
/// at least thirteen of them.
pub proof fn lemma_proof_length(bytes: Seq<u8>)
    requires
        spec_proof_decodes(bytes),
    ensures
        bytes.len() >= MIN_PROOF_LEN,
        bytes.len() % 32 == 1,
{
}

/// Dropping the last byte of a proof encoding, or adding one byte to it, gives
/// bytes that do not decode.
pub proof fn lemma_resized_proof_is_malformed(bytes: Seq<u8>, extra: u8)
    requires
        spec_proof_decodes(bytes),
    ensures
        spec_decode_proof(bytes.drop_last()) == Err::<Seq<u8>, DecodeError>(
            DecodeError::MalformedProof,
        ),
        spec_decode_proof(bytes.push(extra)) == Err::<Seq<u8>, DecodeError>(
            DecodeError::MalformedProof,
        ),
{
    lemma_proof_length(bytes);
}

/// A commitment of any length but `COMMITMENT_LEN` is turned away for its
/// length alone, whatever the proof.
pub proof fn lemma_resized_commitment_is_rejected(commitment: Seq<u8>, proof: Seq<u8>)
    requires
        commitment.len() != COMMITMENT_LEN,
    ensures
        spec_decode_failure(commitment, proof) == Some(DecodeError::CommitmentLength),
{
}

} // verus!
