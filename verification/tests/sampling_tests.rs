use garch_monte_carlo::sampling::Sampler;

#[test]
fn sampled_indices_stay_in_range() {
    let mut sampler = Sampler::new();
    let idxs = sampler.sample_path_indices(3, 1000);
    assert_eq!(idxs.len(), 1000);
    for idx in idxs {
        assert!(idx < 3);
    }
}

#[test]
fn single_entry_pool_always_yields_index_zero() {
    let mut sampler = Sampler::new();
    let idxs = sampler.sample_path_indices(1, 200);
    assert_eq!(idxs.len(), 200);
    for idx in idxs {
        assert_eq!(idx, 0);
    }
}

#[test]
fn sampled_shocks_are_pool_members() {
    let pool: Vec<u64> = vec![
        (0.1f64).to_bits(),
        (-0.25f64).to_bits(),
        (0.0f64).to_bits(),
    ];
    let mut sampler = Sampler::new();
    let shocks = sampler.sample_shocks(&pool, 500);
    assert_eq!(shocks.len(), 500);
    for shock in shocks {
        assert!(pool.contains(&shock));
    }
}

#[test]
fn zero_step_horizon_draws_nothing() {
    let pool: Vec<u64> = vec![(0.5f64).to_bits()];
    let mut sampler = Sampler::new();
    let shocks = sampler.sample_shocks(&pool, 0);
    assert!(shocks.is_empty());
}

#[test]
fn large_pool_sampling_reaches_many_entries() {
    // A uniform draw over a sizeable range should not collapse to a single
    // value; with 2000 draws over 16 entries, seeing fewer than 2 distinct
    // indices is astronomically unlikely.
    let mut sampler = Sampler::new();
    let idxs = sampler.sample_path_indices(16, 2000);
    let mut seen: Vec<usize> = Vec::new();
    for idx in idxs {
        assert!(idx < 16);
        if !seen.contains(&idx) {
            seen.push(idx);
        }
    }
    assert!(seen.len() >= 2);
}
