use std::cell::Cell;
use std::rc::Rc;

use proposer_cache::cached::CachedProposerElection;
use proposer_cache::election::{Author, ProposerElection, Round};
use proposer_cache::recent::RecentElections;

fn author_of(round: Round) -> Author {
    Author([(round % 3) as u8; 32])
}

/// Names `round mod 3` as the proposer, and counts how often it is asked.
struct ModThree {
    calls: Rc<Cell<usize>>,
}

impl ProposerElection for ModThree {
    fn proposer(&self, round: Round) -> Author {
        author_of(round)
    }

    fn get_valid_proposer(&self, round: Round) -> Author {
        self.calls.set(self.calls.get() + 1);
        self.proposer(round)
    }
}

fn counting() -> (ModThree, Rc<Cell<usize>>) {
    let calls = Rc::new(Cell::new(0));
    (ModThree { calls: calls.clone() }, calls)
}

#[test]
fn concrete_scenario_window_two() {
    let (strategy, calls) = counting();
    let mut table = RecentElections::new(2);
    for r in 0..3u64 {
        assert_eq!(table.get_or_elect(r, &strategy), author_of(r));
    }
    assert_eq!(table.len(), 3);
    for r in 0..3u64 {
        assert_eq!(table.get(r), Some(author_of(r)));
    }
    assert_eq!(calls.get(), 3);

    assert_eq!(table.get_or_elect(5, &strategy), author_of(5));
    assert_eq!(calls.get(), 4);
    assert_eq!(table.len(), 1);
    assert_eq!(table.get(5), Some(author_of(2)));
    for r in 0..3u64 {
        assert_eq!(table.get(r), None);
    }

    assert_eq!(table.get_or_elect(2, &strategy), author_of(2));
    assert_eq!(calls.get(), 5);
}

#[test]
fn out_of_order_query_reelects() {
    let (strategy, calls) = counting();
    let mut table = RecentElections::new(2);
    for r in [0u64, 1, 2, 5, 2] {
        table.get_or_elect(r, &strategy);
    }
    assert_eq!(calls.get(), 5);
    assert_eq!(table.get_or_elect(1, &strategy), author_of(1));
    assert_eq!(calls.get(), 6);
}

#[test]
fn repeated_queries_are_hits() {
    let (strategy, calls) = counting();
    let mut table = RecentElections::new(4);
    for _ in 0..10 {
        assert_eq!(table.get_or_elect(7, &strategy), author_of(7));
    }
    assert_eq!(calls.get(), 1);
    assert_eq!(table.len(), 1);
}

#[test]
fn cache_asks_strategy_once_per_round() {
    let (strategy, calls) = counting();
    let cache = CachedProposerElection::new(strategy, 2);
    assert_eq!(cache.window(), 2);
    for _ in 0..5 {
        assert_eq!(cache.get_valid_proposer(4), author_of(4));
    }
    assert_eq!(calls.get(), 1);
    for r in [0u64, 1, 2, 5, 2, 1] {
        assert_eq!(cache.get_valid_proposer(r), author_of(r));
    }
    assert_eq!(calls.get(), 7);
}

#[test]
fn cache_answers_as_strategy_does() {
    let (reference, _) = counting();
    let (strategy, _) = counting();
    let cache = CachedProposerElection::new(strategy, 3);
    for r in [10u64, 3, 11, 11, 0, 25, 24, 30, 1, 30] {
        assert_eq!(cache.get_valid_proposer(r), reference.get_valid_proposer(r));
    }
}

#[test]
fn non_decreasing_queries_keep_window_plus_one() {
    let (strategy, _) = counting();
    let window: u64 = 3;
    let mut table = RecentElections::new(window);
    for r in [0u64, 0, 1, 2, 3, 4, 4, 5, 9, 10, 11, 12, 13, 20] {
        table.get_or_elect(r, &strategy);
        assert!(table.len() as u64 <= window + 1);
    }
    // 13 + 3 < 20: only round 20 is left.
    assert_eq!(table.len(), 1);
    assert_eq!(table.get(20), Some(author_of(20)));
}

#[test]
fn query_drops_rounds_below_window() {
    let (strategy, _) = counting();
    let window: u64 = 2;
    let mut table = RecentElections::new(window);
    for r in [9u64, 3, 4, 8, 6, 5, 7] {
        table.get_or_elect(r, &strategy);
        for k in 0..20u64 {
            if table.get(k).is_some() {
                assert!(k + window >= r);
            }
        }
        assert_eq!(table.get(r), Some(author_of(r)));
    }
    // After 7: 5, 6, 7, 8 and 9 are within reach of 7.
    assert_eq!(table.len(), 5);
}

#[test]
fn window_zero_keeps_latest_round_only() {
    let (strategy, calls) = counting();
    let mut table = RecentElections::new(0);
    assert_eq!(table.window(), 0);
    for r in 0..6u64 {
        table.get_or_elect(r, &strategy);
        assert_eq!(table.len(), 1);
        assert_eq!(table.get(r), Some(author_of(r)));
    }
    table.get_or_elect(5, &strategy);
    assert_eq!(calls.get(), 6);
}

#[test]
fn decreasing_queries_evict_nothing() {
    let (strategy, calls) = counting();
    let mut table = RecentElections::new(1);
    for r in (0..10u64).rev() {
        table.get_or_elect(r, &strategy);
    }
    assert_eq!(table.len(), 10);
    assert_eq!(calls.get(), 10);
}

#[test]
fn largest_rounds_do_not_overflow() {
    let (strategy, calls) = counting();
    let mut table = RecentElections::new(u64::MAX);
    table.get_or_elect(0, &strategy);
    table.get_or_elect(u64::MAX, &strategy);
    assert_eq!(table.len(), 2);
    let mut narrow = RecentElections::new(1);
    narrow.get_or_elect(u64::MAX, &strategy);
    narrow.get_or_elect(u64::MAX - 1, &strategy);
    narrow.get_or_elect(0, &strategy);
    assert_eq!(narrow.len(), 3);
    assert_eq!(calls.get(), 5);
}

#[test]
fn empty_table_holds_nothing() {
    let table = RecentElections::new(5);
    assert_eq!(table.len(), 0);
    assert_eq!(table.get(0), None);
    assert_eq!(table.window(), 5);
}
