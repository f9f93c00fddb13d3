//! The statement that every proof of this library is about, fixed once for
//! both sides: the value under the commitment equals `CONSTRAINED_VALUE`.
//!
//! Prover and verifier read the label, the capacities and the constant from
//! here and nowhere else, so the two sides cannot declare different
//! statements.

use vstd::prelude::*;

verus! {

/// The public constant that a committed value must equal.
pub const CONSTRAINED_VALUE: u64 = 1;

/// Generators made available to a session, per party.
pub const GENS_CAPACITY: usize = 64;

/// Parties that generators are made for; a constraint-system proof has one.
pub const PARTY_CAPACITY: usize = 1;

/// The domain label, as contracts speak of it.
pub open spec fn spec_domain_label() -> Seq<char> {
    "example"@
}

/// The domain label that seeds the transcript of a session.
pub fn domain_label() -> (res: &'static str)
    ensures
        res@ == spec_domain_label(),
        res@.len() == 7,
{
    proof {
        reveal_strlit("example");
    }
    "example"
}

} // verus!
