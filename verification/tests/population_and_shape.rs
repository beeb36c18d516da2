use pendulum_rs::coupling::tail_coupling;
use pendulum_rs::population::{
    case_seed, elite_count, generation_rollouts, island_seed, migrates_after, worker_split,
};
use pendulum_rs::web::{flatten_points, free_swing_links, MAX_LINKS, MIN_LINKS};

#[test]
fn elite_is_a_quarter_but_at_least_two() {
    assert_eq!(elite_count(96), 24);
    assert_eq!(elite_count(64), 16);
    assert_eq!(elite_count(8), 2);
    assert_eq!(elite_count(10), 2);
    assert_eq!(elite_count(12), 3);
    assert_eq!(elite_count(0), 2);
}

#[test]
fn island_seeds_follow_the_run_seed() {
    assert_eq!(island_seed(7, 0), 8);
    assert_eq!(island_seed(7, 5), 13);
    assert_eq!(island_seed(u64::MAX, 0), 0);
    let seeds: Vec<u64> = (0..6).map(|i| island_seed(7, i)).collect();
    for i in 0..seeds.len() {
        for j in 0..i {
            assert_ne!(seeds[i], seeds[j]);
        }
    }
    assert_eq!(case_seed(7), 7 ^ 0xABCD);
    assert_eq!(case_seed(0), 0xABCD);
}

#[test]
fn migration_every_n_generations() {
    let gens: Vec<usize> = (0..10).filter(|&g| migrates_after(g, true, 2)).collect();
    assert_eq!(gens, vec![1, 3, 5, 7, 9]);
    assert_eq!((0..25).filter(|&g| migrates_after(g, true, 3)).count(), 25 / 3);
    assert!((0..10).all(|g| !migrates_after(g, false, 2)));
    // sharing off never needs a period
    assert!(!migrates_after(4, false, 0));
}

#[test]
fn generation_rollouts_multiply() {
    assert_eq!(generation_rollouts(8, 5), 40);
    assert_eq!(generation_rollouts(0, 5), 0);
}

#[test]
fn population_split_across_workers() {
    assert_eq!(worker_split(96, 8), (8, 12));
    assert_eq!(worker_split(11, 10), (10, 2));
    assert_eq!(worker_split(3, 16), (3, 1));
    assert_eq!(worker_split(97, 8), (8, 13));
    assert_eq!(worker_split(1, 1), (1, 1));
}

#[test]
fn coupling_takes_the_farther_tail() {
    let tail = vec![6, 5, 3];
    let mu = tail_coupling(&tail);
    assert_eq!(mu, vec![vec![6, 5, 3], vec![5, 5, 3], vec![3, 3, 3]]);
    for i in 0..3 {
        for j in 0..3 {
            assert_eq!(mu[i][j], mu[j][i]);
        }
    }
    let two = tail_coupling(&vec![2.0f64, 1.0]);
    assert_eq!(two, vec![vec![2.0, 1.0], vec![1.0, 1.0]]);
    assert!(tail_coupling::<u8>(&vec![]).is_empty());
}

#[test]
fn link_count_is_clamped() {
    assert_eq!((MIN_LINKS, MAX_LINKS), (1, 6));
    assert_eq!(free_swing_links(0), 1);
    assert_eq!(free_swing_links(1), 1);
    assert_eq!(free_swing_links(4), 4);
    assert_eq!(free_swing_links(6), 6);
    assert_eq!(free_swing_links(50), 6);
}

#[test]
fn render_buffer_interleaves_coordinates() {
    let pts = vec![(0.0f64, 0.0), (0.5, -0.8), (1.1, -1.2)];
    let flat = flatten_points(&pts);
    assert_eq!(flat.len(), 6);
    assert_eq!(flat, vec![0.0, 0.0, 0.5, -0.8, 1.1, -1.2]);
    assert!(flatten_points::<i32>(&vec![]).is_empty());
}
