use garch_monte_carlo::counting::count_hits;
use garch_monte_carlo::engine::ProbabilityEstimate;

#[test]
fn count_hits_counts_true_entries() {
    let outcomes: Vec<bool> = vec![true, false, true, true, false];
    assert_eq!(count_hits(&outcomes), 3);
}

#[test]
fn count_hits_of_empty_sequence_is_zero() {
    let outcomes: Vec<bool> = Vec::new();
    assert_eq!(count_hits(&outcomes), 0);
}

#[test]
fn partial_counts_sum_to_the_total() {
    // The reduction is partition-invariant: however the outcomes are split
    // into chunks, the chunk counts add up to the count of the whole.
    let outcomes: Vec<bool> = vec![
        true, true, false, true, false, false, true, false, true, true, false, true,
    ];
    let total = count_hits(&outcomes);
    for split in 0..=outcomes.len() {
        let left: Vec<bool> = outcomes[..split].to_vec();
        let right: Vec<bool> = outcomes[split..].to_vec();
        assert_eq!(count_hits(&left) + count_hits(&right), total);
    }
}

#[test]
fn estimate_from_outcomes_is_exact() {
    let outcomes: Vec<bool> = vec![false, true, false, true];
    let est = ProbabilityEstimate::from_outcomes(&outcomes);
    assert_eq!(est.hits, 2);
    assert_eq!(est.trials, 4);
}

#[test]
fn constant_outcome_hits_all_or_none() {
    let all = ProbabilityEstimate::from_constant_outcome(true, 7);
    assert_eq!(all.hits, 7);
    assert_eq!(all.trials, 7);
    let none = ProbabilityEstimate::from_constant_outcome(false, 7);
    assert_eq!(none.hits, 0);
    assert_eq!(none.trials, 7);
}
