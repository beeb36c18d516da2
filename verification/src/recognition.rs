//! The adaptive arm's recognition commit rule.
//!
//! While probing a disturbed arm, the estimator's signature is periodically
//! matched against the memory of known arms. A match is adopted only once it is
//! trustworthy: a cold grid match must either be very close or be the same
//! config on several consecutive checks, while a learned match (an arm that was
//! caught before) is trusted from a rougher estimate and fewer checks. That
//! asymmetry is what shrinks the recognition lag on a repeat encounter.

use vstd::prelude::*;

verus! {

/// Samples the probe needs before the first recognition attempt.
pub const MIN_SAMPLES: usize = 25;

/// Recognition is re-evaluated on every `CHECK_EVERY`-th control step.
pub const CHECK_EVERY: usize = 5;

/// Consecutive agreeing checks a cold, loosely-close grid match needs.
pub const GRID_CONSENSUS: usize = 3;

/// Consecutive agreeing checks a learned match needs.
pub const LEARNED_CONSENSUS: usize = 2;

/// How close a recalled match is, by the recall distance thresholds
/// (tight < loose < rough).
#[derive(Clone, Copy, PartialEq, Eq, Structural, Debug)]
pub enum ScoreBand {
    /// Within the instant-commit distance of a cold grid lookup.
    Tight,
    /// Within the plausible-neighbour distance of a cold grid lookup.
    Loose,
    /// Within the distance tolerated for a learned match only.
    Rough,
    /// Too far for any commit.
    Far,
}

/// Whether a recognition attempt is due at control step `step` with `samples`
/// samples collected.
pub fn should_check(samples: usize, step: usize) -> (b: bool)
    ensures
        b == (samples >= MIN_SAMPLES && step % CHECK_EVERY == 0),
{
    samples >= MIN_SAMPLES && step % CHECK_EVERY == 0
}

/// The commit rule: adopt a recalled match of closeness `band` that has now won
/// `agree` consecutive checks.
pub open spec fn commits(learned: bool, band: ScoreBand, agree: nat) -> bool {
    if learned {
        band != ScoreBand::Far && agree >= LEARNED_CONSENSUS
    } else {
        band == ScoreBand::Tight || (band == ScoreBand::Loose && agree >= GRID_CONSENSUS)
    }
}

/// Decide whether to adopt the recalled match.
pub fn commit_decision(learned: bool, band: ScoreBand, agree: usize) -> (c: bool)
    ensures
        c == commits(learned, band, agree as nat),
        learned && agree < LEARNED_CONSENSUS ==> !c,
        band == ScoreBand::Far ==> !c,
        learned && band != ScoreBand::Far && agree >= LEARNED_CONSENSUS ==> c,
        !learned && band == ScoreBand::Tight ==> c,
        !learned && band == ScoreBand::Loose ==> (c <==> agree >= GRID_CONSENSUS),
        !learned && band == ScoreBand::Rough ==> !c,
{
    if learned {
        !matches!(band, ScoreBand::Far) && agree >= LEARNED_CONSENSUS
    } else {
        match band {
            ScoreBand::Tight => true,
            ScoreBand::Loose => agree >= GRID_CONSENSUS,
            _ => false,
        }
    }
}

/// Length of the run of equal ids that ends the sequence.
pub open spec fn trailing_run(ids: Seq<Seq<char>>) -> nat
    decreases ids.len(),
{
    if ids.len() == 0 {
        0
    } else if ids.len() == 1 || ids[ids.len() - 1] != ids[ids.len() - 2] {
        1
    } else {
        trailing_run(ids.drop_last()) + 1
    }
}

/// Tracks how many consecutive recognition checks recalled the same config.
pub struct Consensus {
    agree_id: String,
    agree_count: usize,
    seen: Ghost<Seq<Seq<char>>>,
}

impl Consensus {
    #[verifier::type_invariant]
    closed spec fn tracks(self) -> bool {
        &&& self.agree_count == trailing_run(self.seen@)
        &&& self.seen@.len() > 0 ==> self.agree_id@ == self.seen@.last()
    }

    /// The ids recalled so far, oldest first.
    pub closed spec fn history(self) -> Seq<Seq<char>> {
        self.seen@
    }

    /// No check has happened yet.
    pub fn new() -> (c: Self)
        ensures
            c.history() == Seq::<Seq<char>>::empty(),
    {
        Consensus { agree_id: String::new(), agree_count: 0, seen: Ghost(Seq::empty()) }
    }

    /// Consecutive checks, ending with the latest, that recalled the same id.
    pub fn count(&self) -> (n: usize)
        ensures
            n == trailing_run(self.history()),
    {
        proof {
            use_type_invariant(self);
        }
        self.agree_count
    }

    /// Record the id recalled by one check; returns the length of the agreeing run.
    pub fn observe(&mut self, id: &String) -> (n: usize)
        requires
            trailing_run(old(self).history()) < usize::MAX,
        ensures
            final(self).history() == old(self).history().push(id@),
            n == trailing_run(final(self).history()),
            old(self).history().len() > 0 && old(self).history().last() == id@ ==> n
                == trailing_run(old(self).history()) + 1,
            old(self).history().len() == 0 || old(self).history().last() != id@ ==> n == 1,
    {
        proof {
            use_type_invariant(&*self);
        }
        let ghost h = self.seen@;
        let ghost h2 = h.push(id@);
        assert(h2.drop_last() =~= h);
        let same = *id == self.agree_id;
        if same {
            let n = self.agree_count + 1;
            *self = Consensus { agree_id: id.clone(), agree_count: n, seen: Ghost(h2) };
            n
        } else {
            *self = Consensus { agree_id: id.clone(), agree_count: 1, seen: Ghost(h2) };
            1
        }
    }
}

/// Where the adaptive arm is in its recognition cycle.
#[derive(Clone, Copy, PartialEq, Eq, Structural, Debug)]
pub enum ProbePhase {
    /// Balancing with its current gain; no disturbance seen yet.
    Nominal,
    /// Disturbed: running the dithered probe and checking recall.
    Probing,
    /// A match was adopted; balancing with the recalled gain.
    Committed,
}

/// The adaptive arm's recognition state: its phase and the consensus of the
/// recall checks made while probing.
pub struct Recognizer {
    phase: ProbePhase,
    consensus: Consensus,
}

impl Recognizer {
    /// The current phase.
    pub closed spec fn phase_of(self) -> ProbePhase {
        self.phase
    }

    /// The ids recalled by the checks so far.
    pub closed spec fn recalls(self) -> Seq<Seq<char>> {
        self.consensus.history()
    }

    /// Undisturbed, with no check made.
    pub fn new() -> (r: Self)
        ensures
            r.phase_of() == ProbePhase::Nominal,
            r.recalls() == Seq::<Seq<char>>::empty(),
    {
        Recognizer { phase: ProbePhase::Nominal, consensus: Consensus::new() }
    }

    /// The current phase.
    pub fn phase(&self) -> (p: ProbePhase)
        ensures
            p == self.phase_of(),
    {
        self.phase
    }

    /// Consecutive checks, ending with the latest, that recalled the same config.
    pub fn agreement(&self) -> (n: usize)
        ensures
            n == trailing_run(self.recalls()),
    {
        self.consensus.count()
    }

    /// Whether the arm is probing (disturbed and not yet committed).
    pub fn probing(&self) -> (b: bool)
        ensures
            b == (self.phase_of() == ProbePhase::Probing),
    {
        matches!(self.phase, ProbePhase::Probing)
    }

    /// The world changed: start probing, unless a match was already adopted.
    pub fn disturb(&mut self)
        ensures
            final(self).phase_of() == if old(self).phase_of() == ProbePhase::Committed {
                ProbePhase::Committed
            } else {
                ProbePhase::Probing
            },
            final(self).recalls() == old(self).recalls(),
    {
        if !matches!(self.phase, ProbePhase::Committed) {
            self.phase = ProbePhase::Probing;
        }
    }

    /// One recall check while probing: the recalled config `id`, whether it was
    /// learned, and its closeness. Returns whether the match is adopted now;
    /// adoption ends the probe.
    pub fn on_recall(&mut self, id: &String, learned: bool, band: ScoreBand) -> (adopt: bool)
        requires
            old(self).phase_of() == ProbePhase::Probing,
            trailing_run(old(self).recalls()) < usize::MAX,
        ensures
            final(self).recalls() == old(self).recalls().push(id@),
            adopt == commits(learned, band, trailing_run(final(self).recalls())),
            learned && trailing_run(final(self).recalls()) < LEARNED_CONSENSUS ==> !adopt,
            band == ScoreBand::Far ==> !adopt,
            final(self).phase_of() == if adopt {
                ProbePhase::Committed
            } else {
                ProbePhase::Probing
            },
    {
        let agree = self.consensus.observe(id);
        let adopt = commit_decision(learned, band, agree);
        if adopt {
            self.phase = ProbePhase::Committed;
        }
        adopt
    }
}

/// The commit rule in full: a learned match is adopted exactly when it is not
/// far and has won at least `LEARNED_CONSENSUS` consecutive checks; a cold match
/// is adopted exactly when it is tight, or loose with at least `GRID_CONSENSUS`
/// agreeing checks. In particular a learned match is never adopted on fewer than
/// `LEARNED_CONSENSUS` checks, whatever its closeness.
pub proof fn lemma_commit_rule(learned: bool, band: ScoreBand, agree: nat)
    ensures
        learned && agree < LEARNED_CONSENSUS ==> !commits(learned, band, agree),
        commits(true, band, agree) == (band != ScoreBand::Far && agree >= LEARNED_CONSENSUS),
        commits(false, band, agree) == (band == ScoreBand::Tight || (band == ScoreBand::Loose
            && agree >= GRID_CONSENSUS)),
{
}

/// Consensus-run law: for a non-empty run of recalled ids, the agreement `r` is
/// the length of the block of ids equal to the latest one at the end: all of the
/// last `r` ids equal the latest, and the id just before them (if any) differs.
/// Hence a repeat of the latest id extends the agreement by exactly one, and `n`
/// identical checks give agreement `n`.
pub proof fn lemma_trailing_run_is_block(ids: Seq<Seq<char>>)
    requires
        ids.len() > 0,
    ensures
        1 <= trailing_run(ids) <= ids.len(),
        forall|t: int| ids.len() - trailing_run(ids) <= t < ids.len() ==> #[trigger] ids[t] == ids.last(),
        trailing_run(ids) < ids.len() ==> ids[ids.len() - trailing_run(ids) - 1] != ids.last(),
        ids.len() >= 2 && ids.last() == ids[ids.len() - 2] ==> trailing_run(ids) == trailing_run(
            ids.drop_last(),
        ) + 1,
    decreases ids.len(),
{
    if ids.len() >= 2 && ids[ids.len() - 1] == ids[ids.len() - 2] {
        let p = ids.drop_last();
        lemma_trailing_run_is_block(p);
        assert forall|t: int| ids.len() - trailing_run(ids) <= t < ids.len() implies #[trigger] ids[t]
            == ids.last() by {
            if t < ids.len() - 1 {
                assert(p[t] == p.last());
            }
        }
        if trailing_run(ids) < ids.len() {
            assert(ids[ids.len() - trailing_run(ids) - 1] == p[p.len() - trailing_run(p) - 1]);
        }
    }
}

/// `n` consecutive checks recalling the same id give agreement `n`.
pub proof fn lemma_repeats_count_up(id: Seq<char>, n: nat)
    requires
        n > 0,
    ensures
        trailing_run(Seq::new(n, |k: int| id)) == n,
    decreases n,
{
    let ids = Seq::new(n, |k: int| id);
    if n >= 2 {
        lemma_repeats_count_up(id, (n - 1) as nat);
        assert(ids.drop_last() =~= Seq::new((n - 1) as nat, |k: int| id));
    }
}

/// More agreement never revokes a commit.
pub proof fn lemma_commit_monotone(learned: bool, band: ScoreBand, agree: nat, more: nat)
    requires
        commits(learned, band, agree),
        agree <= more,
    ensures
        commits(learned, band, more),
{
}

/// A learned match commits from fewer agreeing checks than a cold loose one, and
/// a far match never commits.
pub proof fn lemma_learned_commits_sooner(band: ScoreBand, agree: nat)
    ensures
        band == ScoreBand::Far ==> !commits(true, band, agree) && !commits(false, band, agree),
        band == ScoreBand::Loose ==> (commits(false, band, agree) ==> commits(true, band, agree)),
        band != ScoreBand::Far && agree == LEARNED_CONSENSUS ==> commits(true, band, agree),
        band == ScoreBand::Loose && agree == LEARNED_CONSENSUS ==> !commits(false, band, agree),
{
}

} // verus!
