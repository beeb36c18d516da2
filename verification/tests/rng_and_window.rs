use pendulum_rs::rng::{Rng, Smix, GOLDEN_GAMMA};
use pendulum_rs::window::{SampleWindow, MIN_FIT_SAMPLES};

#[test]
fn splitmix_reference_stream_from_seed_zero() {
    let mut r = Rng(0);
    assert_eq!(r.next_u64(), 0xE220_A839_7B1D_CDAF);
    assert_eq!(r.next_u64(), 0x6E78_9E6A_A1B9_65F4);
    assert_eq!(r.next_u64(), 0x06C4_5D18_8009_454F);
    assert_eq!(r.0, 0xDAA6_6D2C_7DDF_743F);
}

#[test]
fn splitmix_seed_one_and_mpc_seed() {
    let mut r = Rng(1);
    assert_eq!(r.next_u64(), 0x910A_2DEC_8902_5CC1);
    assert_eq!(r.next_u64(), 0xBEEB_8DA1_658E_EC67);
    let mut s = Smix(0x00C0_FFEE);
    assert_eq!(s.u64(), 0xCA82_16FA_9058_D0FA);
}

#[test]
fn state_is_a_golden_counter() {
    let seed = 0xDEAD_BEEF_u64;
    let mut r = Rng(seed);
    for n in 1..=50u64 {
        r.next_u64();
        assert_eq!(r.0, seed.wrapping_add(GOLDEN_GAMMA.wrapping_mul(n)));
    }
    // wrap-around near the top of the range
    let mut w = Rng(u64::MAX);
    w.next_u64();
    assert_eq!(w.0, GOLDEN_GAMMA - 1);
}

#[test]
fn both_generators_produce_the_same_stream() {
    for seed in [0u64, 1, 7, 42, 0xABCD, u64::MAX] {
        let mut a = Rng(seed);
        let mut b = Smix(seed);
        for _ in 0..20 {
            assert_eq!(a.next_u64(), b.u64());
        }
    }
}

#[test]
fn same_seed_reproduces_the_run() {
    let mut a = Rng(1234);
    let mut b = Rng(1234);
    let xs: Vec<u64> = (0..10).map(|_| a.next_u64()).collect();
    let ys: Vec<u64> = (0..10).map(|_| b.next_u64()).collect();
    assert_eq!(xs, ys);
    let mut c = Rng(1235);
    assert_ne!(xs[0], c.next_u64());
}

#[test]
fn window_keeps_the_most_recent_samples() {
    let mut w = SampleWindow::new(3);
    assert!(w.is_empty());
    assert_eq!(w.window(), 3);
    for x in 1..=5 {
        w.push(x);
    }
    assert_eq!(w.len(), 3);
    assert_eq!(w.samples(), &vec![3, 4, 5]);
    w.push(6);
    assert_eq!(w.samples(), &vec![4, 5, 6]);
}

#[test]
fn window_below_capacity_keeps_everything() {
    let mut w = SampleWindow::new(10);
    for x in 0..4 {
        w.push(x * 10);
    }
    assert_eq!(w.samples(), &vec![0, 10, 20, 30]);
}

#[test]
fn zero_capacity_window_stays_empty() {
    let mut w = SampleWindow::new(0);
    w.push('a');
    w.push('b');
    assert!(w.is_empty());
    assert_eq!(w.len(), 0);
}

#[test]
fn clear_empties_but_keeps_capacity() {
    let mut w = SampleWindow::new(2);
    w.push(1.5f64);
    w.push(2.5);
    w.clear();
    assert!(w.is_empty());
    assert_eq!(w.window(), 2);
    w.push(3.5);
    w.push(4.5);
    w.push(5.5);
    assert_eq!(w.samples(), &vec![4.5, 5.5]);
}

#[test]
fn regression_needs_six_samples() {
    assert_eq!(MIN_FIT_SAMPLES, 6);
    let mut w = SampleWindow::new(400);
    for i in 0..5 {
        w.push(i);
        assert!(!w.ready_to_fit());
    }
    w.push(5);
    assert!(w.ready_to_fit());
    // a window smaller than the fit size never becomes ready
    let mut small = SampleWindow::new(4);
    for i in 0..10 {
        small.push(i);
    }
    assert!(!small.ready_to_fit());
}

#[test]
fn draws_do_not_repeat_within_a_run() {
    let mut r = Rng(7);
    let mut seen = std::collections::HashSet::new();
    for _ in 0..20_000 {
        assert!(seen.insert(r.next_u64()));
    }
}
