//! The curve context that every operation is handed explicitly.

use vstd::prelude::*;
use rand::thread_rng;
use secp256k1zkp::ContextFlag;
use secp256k1zkp::Secp256k1;

verus! {

/// The curve library's context. Nothing here looks inside one.
#[verifier::external_type_specification]
#[verifier::external_body]
pub struct ExSecp256k1(Secp256k1);

/// Whether a context was created with the capability to commit, which
/// includes signing and verifying.
pub uninterp spec fn can_commit(secp: Secp256k1) -> bool;

/// A curve context able to commit. It holds precomputed tables only: no
/// operation's result depends on which context computed it.
pub struct Curve {
    secp: Secp256k1,
}

impl Curve {
    /// Whether the context can commit. Every operation relies on it, and
    /// every context that this type hands out can.
    #[verifier::type_invariant]
    pub closed spec fn capable(&self) -> bool {
        can_commit(self.secp)
    }

    /// A fresh context, made with the capability to commit.
    pub fn new() -> (curve: Curve)
        ensures
            curve.capable(),
    {
        Curve { secp: commit_context() }
    }

    /// The same context with its tables blinded anew against side channels.
    /// It keeps its capability; no contract can tell it from the one given.
    pub fn randomized(self) -> (curve: Curve)
        ensures
            curve.capable(),
    {
        proof {
            use_type_invariant(&self);
        }
        Curve { secp: randomized_context(self.secp) }
    }

    /// The context itself, for the calls into the curve library.
    pub(crate) fn engine(&self) -> (secp: &Secp256k1)
        ensures
            can_commit(*secp),
    {
        proof {
            use_type_invariant(self);
        }
        &self.secp
    }
}

/// `Secp256k1::with_caps`, asked for `ContextFlag::Commit`: the context that
/// comes back has that capability.
#[verifier::external_body]
fn commit_context() -> (secp: Secp256k1)
    ensures
        can_commit(secp),
{
    Secp256k1::with_caps(ContextFlag::Commit)
}

/// `Secp256k1::randomize`, seeded from `rand::thread_rng`: the context keeps
/// its capability. The call aborts on a context that cannot sign, which one
/// that can commit always can.
#[verifier::external_body]
fn randomized_context(secp: Secp256k1) -> (blinded: Secp256k1)
    requires
        can_commit(secp),
    ensures
        can_commit(blinded),
{
    let mut blinded = secp;
    blinded.randomize(&mut thread_rng());
    blinded
}

} // verus!
