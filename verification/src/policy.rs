//! Swing-up policy identities shared by the harness.

use vstd::prelude::*;

verus! {

/// Number of evolvable parameters of the energy-shaping swing-up policy.
pub const NP: usize = 5;

/// The hand-tuned collocated-PFL swing-up, the baseline every learned policy
/// must beat. It carries no parameters; its torque law (an energy pump realized
/// through partial feedback linearization) is floating-point and is evaluated by
/// the simulation side.
#[derive(Clone, Copy, Debug)]
pub struct PflBaseline;

} // verus!
