//! Verified integer core of the n-link pendulum controller suite.
//!
//! The physics, the LQR and the swing-up policies are floating-point and live in
//! the companion application crate; this library holds the discrete logic they
//! rely on: the seeded splitmix64 generators, the estimator's sliding sample
//! window, the torque-reversal tally, the recognition state machine and its
//! commit rule, the planner's re-plan clock and plan shift, the population
//! schedule, the selection and counting helpers of the evaluation harness, the
//! inertia-coupling layout of the chain, and the browser exhibit's link-count
//! and render-buffer bookkeeping.

pub mod rng;
pub mod window;
pub mod reversals;
pub mod selection;
pub mod recognition;
pub mod planner;
pub mod population;
pub mod coupling;
pub mod web;
pub mod policy;
