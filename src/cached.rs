//! A proposer election that asks its wrapped strategy at most once per round
//! while that round stays within the window, serialising all queries through
//! one lock.
use vstd::prelude::*;
use vstd::rwlock::{RwLock, RwLockPredicate};

use crate::election::{Author, ProposerElection, Round};
use crate::recent::{agrees_with, RecentElections};

verus! {

/// What the lock guarantees of the table it guards: its window is the cache's,
/// and every entry holds the proposer that the wrapped strategy designates.
pub struct AgreesWith<P> {
    pub strategy: P,
    pub window: Round,
}

impl<P: ProposerElection> RwLockPredicate<RecentElections> for AgreesWith<P> {
    open spec fn inv(self, t: RecentElections) -> bool {
        t.spec_window() == self.window && agrees_with(t@, self.strategy)
    }
}

/// Wraps a proposer election whose answers may be expensive to compute, so
/// that each round's proposer is computed once while it is recent.
pub struct CachedProposerElection<P: ProposerElection> {
    proposer_election: P,
    recent_elections: RwLock<RecentElections, AgreesWith<P>>,
    window: Round,
}

impl<P: ProposerElection> CachedProposerElection<P> {
    #[verifier::type_invariant]
    spec fn lock_guards_table(&self) -> bool {
        self.recent_elections.pred() == (AgreesWith { strategy: self.proposer_election, window: self.window })
    }

    /// The wrapped strategy.
    pub closed spec fn strategy(&self) -> P {
        self.proposer_election
    }

    /// The window fixed at construction.
    pub closed spec fn spec_window(&self) -> Round {
        self.window
    }

    /// A cache over `proposer_election` that keeps the proposers of rounds up
    /// to `window` below the latest query.
    pub fn new(proposer_election: P, window: Round) -> (s: Self)
        ensures
            s.strategy() == proposer_election,
            s.spec_window() == window,
    {
        let ghost pred = AgreesWith { strategy: proposer_election, window };
        let recent_elections = RwLock::new(RecentElections::new(window), Ghost(pred));
        CachedProposerElection { proposer_election, recent_elections, window }
    }

    /// The window fixed at construction.
    pub fn window(&self) -> (r: Round)
        ensures
            r == self.spec_window(),
    {
        self.window
    }
}

impl<P: ProposerElection> ProposerElection for CachedProposerElection<P> {
    closed spec fn proposer(&self, round: Round) -> Author {
        self.proposer_election.proposer(round)
    }

    /// The proposer of `round`, as the wrapped strategy designates it. The
    /// whole query (eviction, lookup, and on a miss the strategy's
    /// computation and the insertion) runs while holding the lock.
    fn get_valid_proposer(&self, round: Round) -> (r: Author)
        ensures
            r == self.strategy().proposer(round),
    {
        proof {
            use_type_invariant(self);
        }
        let (mut recent_elections, handle) = self.recent_elections.acquire_write();
        let author = recent_elections.get_or_elect(round, &self.proposer_election);
        handle.release_write(recent_elections);
        author
    }
}

} // verus!
