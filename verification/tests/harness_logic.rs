use pendulum_rs::planner::{iteration_rollouts, shift_plan, ReplanClock};
use pendulum_rs::policy::{PflBaseline, NP};
use pendulum_rs::recognition::{
    commit_decision, should_check, Consensus, ProbePhase, Recognizer, ScoreBand, CHECK_EVERY, GRID_CONSENSUS, LEARNED_CONSENSUS,
    MIN_SAMPLES,
};
use pendulum_rs::reversals::ReversalCounter;
use pendulum_rs::selection::{best_index, count_caught, recovery_rate};

#[test]
fn reversals_count_sign_changes_between_moves() {
    let mut c = ReversalCounter::new();
    assert_eq!(c.reversals(), 0);
    assert_eq!(c.last_sign(), 0);
    for s in [1, 1, 0, -1, 0, 0, -1, 1] {
        c.observe(s);
    }
    assert_eq!(c.reversals(), 2);
    assert_eq!(c.last_sign(), 1);
}

#[test]
fn negligible_torques_do_not_break_a_move() {
    let mut c = ReversalCounter::new();
    for s in [0, 0, -1, 0, 0, 0, -1, 0] {
        c.observe(s);
    }
    assert_eq!(c.reversals(), 0);
    assert_eq!(c.last_sign(), -1);
}

#[test]
fn chattering_torque_reverses_every_step() {
    let mut c = ReversalCounter::new();
    for i in 0..10 {
        c.observe(if i % 2 == 0 { 1 } else { -1 });
    }
    assert_eq!(c.reversals(), 9);
}

#[test]
fn best_index_returns_the_last_maximum() {
    assert_eq!(best_index(&vec![3, 5, 2, 5, 1]), 3);
    assert_eq!(best_index(&vec![7]), 0);
    assert_eq!(best_index(&vec![0, 0, 0]), 2);
    assert_eq!(best_index(&vec![10, 9, 8]), 0);
}

#[test]
fn recovery_rate_counts_caught_trials() {
    let mask = vec![true, false, true, true, false, false, true, false, false, true];
    assert_eq!(count_caught(&mask), 5);
    assert_eq!(recovery_rate(&mask), (5, 10));
    assert_eq!(recovery_rate(&vec![]), (0, 0));
    assert_eq!(count_caught(&vec![false; 4]), 0);
}

#[test]
fn recognition_checks_are_gated() {
    assert_eq!((MIN_SAMPLES, CHECK_EVERY), (25, 5));
    assert!(!should_check(24, 200));
    assert!(should_check(25, 200));
    assert!(!should_check(100, 203));
    assert!(should_check(100, 0));
}

#[test]
fn consensus_tracks_the_trailing_run() {
    let mut c = Consensus::new();
    assert_eq!(c.count(), 0);
    let a = "cfg3".to_string();
    let b = "cfg4".to_string();
    assert_eq!(c.observe(&a), 1);
    assert_eq!(c.observe(&a), 2);
    assert_eq!(c.observe(&b), 1);
    assert_eq!(c.observe(&a), 1);
    assert_eq!(c.observe(&a), 2);
    assert_eq!(c.observe(&a), 3);
    assert_eq!(c.count(), 3);
}

#[test]
fn empty_id_first_check_counts_once() {
    let mut c = Consensus::new();
    assert_eq!(c.observe(&String::new()), 1);
    assert_eq!(c.observe(&String::new()), 2);
}

#[test]
fn commit_rule_table() {
    assert_eq!((GRID_CONSENSUS, LEARNED_CONSENSUS), (3, 2));
    // cold grid lookups
    assert!(commit_decision(false, ScoreBand::Tight, 1));
    assert!(!commit_decision(false, ScoreBand::Loose, 2));
    assert!(commit_decision(false, ScoreBand::Loose, 3));
    assert!(!commit_decision(false, ScoreBand::Rough, 10));
    assert!(!commit_decision(false, ScoreBand::Far, 10));
    // learned matches
    assert!(!commit_decision(true, ScoreBand::Tight, 1));
    assert!(commit_decision(true, ScoreBand::Tight, 2));
    assert!(commit_decision(true, ScoreBand::Loose, 2));
    assert!(commit_decision(true, ScoreBand::Rough, 2));
    assert!(!commit_decision(true, ScoreBand::Far, 5));
}

#[test]
fn learned_match_commits_sooner_on_a_repeat() {
    // same closeness, same agreement: the learned match is adopted, the cold one waits
    assert!(commit_decision(true, ScoreBand::Loose, LEARNED_CONSENSUS));
    assert!(!commit_decision(false, ScoreBand::Loose, LEARNED_CONSENSUS));
    // more agreement never revokes
    for n in 3..10 {
        assert!(commit_decision(false, ScoreBand::Loose, n));
        assert!(commit_decision(true, ScoreBand::Rough, n));
    }
}

#[test]
fn clock_replans_every_hold_period() {
    let mut clock = ReplanClock::new();
    let hold = 8;
    let replans: Vec<usize> = (0..40).filter(|_| clock.tick(hold)).collect();
    // filter consumes in order, so the indices of replanning steps are returned
    assert_eq!(replans, vec![0, 8, 16, 24, 32]);
}

#[test]
fn clock_countdown_values() {
    let mut clock = ReplanClock::new();
    assert_eq!(clock.countdown(), 0);
    assert!(clock.tick(3));
    assert_eq!(clock.countdown(), 2);
    assert!(!clock.tick(3));
    assert!(!clock.tick(3));
    assert_eq!(clock.countdown(), 0);
    assert!(clock.tick(3));
    let mut every = ReplanClock::new();
    for _ in 0..5 {
        assert!(every.tick(1));
    }
}

#[test]
fn plan_shift_keeps_the_horizon() {
    assert_eq!(shift_plan(&vec![1, 2, 3, 4]), vec![2, 3, 4, 4]);
    assert_eq!(shift_plan(&vec![9]), vec![9]);
    let plan = vec![10.0f64, -20.0, 30.5];
    assert_eq!(shift_plan(&plan), vec![-20.0, 30.5, 30.5]);
}

#[test]
fn rollouts_per_iteration() {
    assert_eq!(iteration_rollouts(64, false), 65);
    assert_eq!(iteration_rollouts(64, true), 66);
    assert_eq!(iteration_rollouts(0, false), 1);
}

#[test]
fn baseline_policy_is_a_plain_marker() {
    let p = PflBaseline;
    let q = p;
    let _ = (p, q);
    assert_eq!(NP, 5);
}

#[test]
fn recognizer_probes_after_a_disturbance_and_latches_a_commit() {
    let mut r = Recognizer::new();
    assert_eq!(r.phase(), ProbePhase::Nominal);
    assert!(!r.probing());
    r.disturb();
    assert!(r.probing());
    let a = "cfg12".to_string();
    // cold loose match: needs three agreeing checks
    assert!(!r.on_recall(&a, false, ScoreBand::Loose));
    assert!(!r.on_recall(&a, false, ScoreBand::Loose));
    assert_eq!(r.agreement(), 2);
    assert!(r.on_recall(&a, false, ScoreBand::Loose));
    assert_eq!(r.phase(), ProbePhase::Committed);
    assert!(!r.probing());
    // a further disturbance does not reopen an adopted match
    r.disturb();
    assert_eq!(r.phase(), ProbePhase::Committed);
}

#[test]
fn recognizer_switching_ids_resets_agreement() {
    let mut r = Recognizer::new();
    r.disturb();
    assert!(!r.on_recall(&"cfg1".to_string(), true, ScoreBand::Rough));
    assert!(!r.on_recall(&"cfg2".to_string(), true, ScoreBand::Rough));
    assert_eq!(r.agreement(), 1);
    assert!(r.on_recall(&"cfg2".to_string(), true, ScoreBand::Rough));
}
