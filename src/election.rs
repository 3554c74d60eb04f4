//! Rounds, authors, and the capability of electing a round's proposer.
use vstd::prelude::*;

verus! {

/// A consensus round: totally ordered, advancing over time.
pub type Round = u64;

/// The identity of a validator: a 32-byte account address.
#[derive(Clone, Copy, Debug, PartialEq, Eq, Hash, PartialOrd, Ord)]
pub struct Author(pub [u8; 32]);

/// An algorithm that names the proposer (leader) of each round.
///
/// An implementation is deterministic with respect to protocol state: for a
/// given value of `self`, each round has one proposer, `self.proposer(round)`.
/// An implementation written outside verified code defines `proposer` as the
/// plain function that `get_valid_proposer` computes.
pub trait ProposerElection {
    /// The proposer this strategy designates for `round`.
    spec fn proposer(&self, round: Round) -> Author;

    /// Computes the proposer of `round`.
    fn get_valid_proposer(&self, round: Round) -> (r: Author)
        ensures
            r == self.proposer(round),
    ;
}

} // verus!
