//! The memo table of recent elections: a round-ordered map from round to
//! proposer, trimmed to a sliding window below the round most recently served.
use std::collections::BTreeMap;

use vstd::prelude::*;

use crate::election::{Author, ProposerElection, Round};

verus! {

broadcast use vstd::std_specs::btree::group_btree_axioms;

/// Whether `key` lies within `window` rounds below `round` (or above it).
pub open spec fn within_window(key: Round, window: Round, round: Round) -> bool {
    round <= key + window
}

/// The entries of `m` that survive a query for `round`: those within `window`
/// rounds below it.
pub open spec fn evict(m: Map<Round, Author>, window: Round, round: Round) -> Map<Round, Author> {
    m.restrict(m.dom().filter(|k: Round| within_window(k, window, round)))
}

/// The table after a query for `round`, where `elected` is what the strategy
/// names for `round` if it has to be asked.
pub open spec fn after_query(
    m: Map<Round, Author>,
    window: Round,
    round: Round,
    elected: Author,
) -> Map<Round, Author> {
    let kept = evict(m, window, round);
    if kept.contains_key(round) {
        kept
    } else {
        kept.insert(round, elected)
    }
}

/// Whether every entry of `m` holds the proposer that `strategy` designates.
pub open spec fn agrees_with<P: ProposerElection>(m: Map<Round, Author>, strategy: P) -> bool {
    forall|k: Round| #[trigger] m.contains_key(k) ==> m[k] == strategy.proposer(k)
}

/// The table after queries for each of `rounds` in turn, starting from `m`,
/// where `elect` gives the proposer the strategy designates for a round.
pub open spec fn after_queries(
    m: Map<Round, Author>,
    window: Round,
    rounds: Seq<Round>,
    elect: spec_fn(Round) -> Author,
) -> Map<Round, Author>
    decreases rounds.len(),
{
    if rounds.len() == 0 {
        m
    } else {
        after_queries(after_query(m, window, rounds[0], elect(rounds[0])), window, rounds.drop_first(), elect)
    }
}

/// Whether `rounds` never goes down.
pub open spec fn non_decreasing(rounds: Seq<Round>) -> bool {
    forall|i: int, j: int| 0 <= i <= j < rounds.len() ==> rounds[i] <= rounds[j]
}

/// After a query for `round`, every retained entry is within `window` rounds
/// below `round` (or above it), and `round` itself is held.
pub proof fn lemma_query_evicts(m: Map<Round, Author>, window: Round, round: Round, elected: Author)
    ensures
        after_query(m, window, round, elected).contains_key(round),
        forall|k: Round| #[trigger] after_query(m, window, round, elected).contains_key(k)
            ==> within_window(k, window, round),
        m.contains_key(round) ==> after_query(m, window, round, elected)[round] == m[round],
{
}

/// A query for a round that the table holds keeps that round's proposer and
/// asks nothing; so a second query for the round just served, whatever the
/// strategy would answer, is a hit and changes nothing.
pub proof fn lemma_repeat_query_hits(
    m: Map<Round, Author>,
    window: Round,
    round: Round,
    elected: Author,
    elected_again: Author,
)
    ensures
        ({
            let once = after_query(m, window, round, elected);
            &&& once.contains_key(round)
            &&& after_query(once, window, round, elected_again) == once
        }),
{
    let once = after_query(m, window, round, elected);
    lemma_query_evicts(m, window, round, elected);
    assert(evict(once, window, round) =~= once);
}

/// Any number of queries in a row for one round leave the table as the first
/// of them did: only the first can ask the strategy.
pub proof fn lemma_same_round_queries(
    m: Map<Round, Author>,
    window: Round,
    round: Round,
    rounds: Seq<Round>,
    elect: spec_fn(Round) -> Author,
)
    requires
        rounds.len() > 0,
        forall|i: int| 0 <= i < rounds.len() ==> rounds[i] == round,
    ensures
        after_queries(m, window, rounds, elect) == after_query(m, window, round, elect(round)),
    decreases rounds.len(),
{
    let once = after_query(m, window, round, elect(round));
    if rounds.len() > 1 {
        let rest = rounds.drop_first();
        lemma_same_round_queries(once, window, round, rest, elect);
        lemma_repeat_query_hits(m, window, round, elect(round), elect(round));
    } else {
        assert(after_queries(once, window, rounds.drop_first(), elect) == once);
    }
}

/// If no entry of `m` is above `round`, then after a query for `round` none
/// is, and at most `window + 1` entries remain.
pub proof fn lemma_query_bounds_size(m: Map<Round, Author>, window: Round, round: Round, elected: Author)
    requires
        m.dom().finite(),
        forall|k: Round| #[trigger] m.contains_key(k) ==> k <= round,
    ensures
        ({
            let after = after_query(m, window, round, elected);
            &&& after.dom().finite()
            &&& forall|k: Round| #[trigger] after.contains_key(k) ==> k <= round
            &&& after.len() <= window + 1
        }),
{
    let after = after_query(m, window, round, elected);
    lemma_query_evicts(m, window, round, elected);
    let lo: Round = if round >= window { (round - window) as Round } else { 0 };
    let span = Set::<Round>::range(lo, round).insert(round);
    vstd::set_lib::range_set_properties(lo, round);
    assert(after.dom().subset_of(span));
    vstd::set_lib::lemma_len_subset(after.dom(), span);
}

/// Queries for non-decreasing rounds, starting from an empty table, never
/// leave more than `window + 1` entries.
pub proof fn lemma_bounded_size(window: Round, rounds: Seq<Round>, elect: spec_fn(Round) -> Author)
    requires
        non_decreasing(rounds),
    ensures
        after_queries(Map::empty(), window, rounds, elect).len() <= window + 1,
{
    if rounds.len() > 0 {
        lemma_bounded_size_from(Map::empty(), window, rounds, elect);
    }
}

/// Queries for non-decreasing rounds, starting from a table with no entry
/// above the first of them, keep at most `window + 1` entries.
pub proof fn lemma_bounded_size_from(
    m: Map<Round, Author>,
    window: Round,
    rounds: Seq<Round>,
    elect: spec_fn(Round) -> Author,
)
    requires
        rounds.len() > 0,
        non_decreasing(rounds),
        m.dom().finite(),
        forall|k: Round| #[trigger] m.contains_key(k) ==> k <= rounds[0],
    ensures
        after_queries(m, window, rounds, elect).len() <= window + 1,
    decreases rounds.len(),
{
    let next = after_query(m, window, rounds[0], elect(rounds[0]));
    lemma_query_bounds_size(m, window, rounds[0], elect(rounds[0]));
    if rounds.len() > 1 {
        let rest = rounds.drop_first();
        assert(rounds[0] <= rounds[1]);
        lemma_bounded_size_from(next, window, rest, elect);
    } else {
        assert(after_queries(next, window, rounds.drop_first(), elect) == next);
    }
}

/// Relies on `BTreeMap::first_key_value`: the least key of the map, or `None`
/// when the map is empty.
#[verifier::external_body]
fn first_round(m: &BTreeMap<Round, Author>) -> (r: Option<Round>)
    ensures
        r is None <==> m@.dom().is_empty(),
        r matches Some(k) ==> m@.contains_key(k) && forall|j: Round|
            #[trigger] m@.contains_key(j) ==> k <= j,
{
    m.first_key_value().map(|(k, _)| *k)
}

/// The recent elections, keyed by round, with the fixed window they are kept for.
pub struct RecentElections {
    entries: BTreeMap<Round, Author>,
    window: Round,
    consulted: Ghost<Seq<Round>>,
}

impl View for RecentElections {
    type V = Map<Round, Author>;

    closed spec fn view(&self) -> Map<Round, Author> {
        self.entries@
    }
}

impl RecentElections {
    /// The window fixed at construction.
    pub closed spec fn spec_window(&self) -> Round {
        self.window
    }

    /// The rounds for which the strategy has been asked, in the order asked.
    pub closed spec fn consulted(&self) -> Seq<Round> {
        self.consulted@
    }

    /// An empty table that keeps rounds up to `window` below the latest query.
    pub fn new(window: Round) -> (s: Self)
        ensures
            s@ == Map::<Round, Author>::empty(),
            s.spec_window() == window,
            s.consulted() == Seq::<Round>::empty(),
    {
        RecentElections { entries: BTreeMap::new(), window, consulted: Ghost(Seq::empty()) }
    }

    /// The window fixed at construction.
    pub fn window(&self) -> (r: Round)
        ensures
            r == self.spec_window(),
    {
        self.window
    }

    /// The number of entries held.
    pub fn len(&self) -> (r: usize)
        ensures
            r == self@.len(),
    {
        self.entries.len()
    }

    /// The proposer held for `round`, if any.
    pub fn get(&self, round: Round) -> (r: Option<Author>)
        ensures
            r == (if self@.contains_key(round) {
                Some(self@[round])
            } else {
                None
            }),
    {
        match self.entries.get(&round) {
            Some(a) => Some(*a),
            None => None,
        }
    }

    /// Drops, smallest round first, every entry more than `window` rounds
    /// below `round`.
    fn evict_below(&mut self, round: Round)
        ensures
            final(self)@ == evict(old(self)@, old(self).window, round),
            final(self).window == old(self).window,
            final(self).consulted == old(self).consulted,
    {
        let window = self.window;
        loop
            invariant
                self.window == window,
                self.consulted == old(self).consulted,
                evict(self@, window, round) == evict(old(self)@, window, round),
                self@.dom().finite(),
            ensures
                self.window == window,
                self.consulted == old(self).consulted,
                self@ == evict(old(self)@, window, round),
            decreases self@.dom().len(),
        {
            match first_round(&self.entries) {
                Some(k) if k < round && round - k > window => {
                    let ghost before = self@;
                    self.entries.remove(&k);
                    assert(evict(self@, window, round) =~= evict(before, window, round));
                },
                _ => {
                    assert(evict(self@, window, round) =~= self@);
                    break ;
                },
            }
        }
    }

    /// The proposer of `round`: the one held, or else the one `strategy`
    /// elects, which is then held. Entries more than `window` rounds below
    /// `round` are dropped first; that never drops `round` itself. The
    /// strategy is asked exactly when `round` is not held.
    pub fn get_or_elect<P: ProposerElection>(&mut self, round: Round, strategy: &P) -> (r: Author)
        ensures
            final(self)@ == after_query(old(self)@, old(self).spec_window(), round, strategy.proposer(round)),
            final(self).spec_window() == old(self).spec_window(),
            r == final(self)@[round],
            old(self)@.contains_key(round) ==> r == old(self)@[round] && final(self).consulted() == old(self).consulted(),
            !old(self)@.contains_key(round) ==> r == strategy.proposer(round) && final(self).consulted() == old(self).consulted().push(round),
            forall|k: Round| #[trigger] final(self)@.contains_key(k) ==> within_window(k, old(self).spec_window(), round),
            agrees_with(old(self)@, *strategy) ==> agrees_with(final(self)@, *strategy) && r == strategy.proposer(round),
    {
        proof {
            lemma_query_evicts(old(self)@, self.window, round, strategy.proposer(round));
        }
        self.evict_below(round);
        match self.entries.get(&round) {
            Some(a) => *a,
            None => {
                let a = strategy.get_valid_proposer(round);
                self.consulted = Ghost(self.consulted@.push(round));
                self.entries.insert(round, a);
                a
            },
        }
    }
}

} // verus!
