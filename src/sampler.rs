//! The Metropolis random-walk sampler.
//!
//! The acceptance rule is the plain Metropolis ratio, with no Hastings
//! correction: it samples the target only when the proposal is symmetric
//! (such as a centred normal increment). Implementors of `RandomWalk`
//! must supply a symmetric proposal.
//!
//! The target density must be strictly positive at every state the chain can
//! reach. Where it is zero or negative at the current state the ratio
//! `candidate / current` is ill-defined, and the chain degrades to accepting
//! or rejecting every candidate; this is not detected.
use vstd::prelude::*;

use crate::chain::McmcResult;
use crate::stop::StopCondition;

verus! {

/// Steps of the sampler's default run.
pub const STEP_BUDGET: usize = 5000;

/// Burn-in mark of the sampler's default run.
pub const BURNIN: usize = 1000;

/// The unnormalised target density of a state space `S`, with densities of
/// type `D`. It does not change while a chain runs. An implementation that is
/// verified defines `density_of` and `higher`; one that is not keeps the
/// defaults, which leave them unspecified.
pub trait TargetDensity<S, D> {
    /// The density at `state`; expected to be positive wherever the chain
    /// can reach.
    closed spec fn density_of(&self, state: S) -> D {
        arbitrary()
    }

    /// Whether density `candidate` is strictly greater than density `current`.
    closed spec fn higher(&self, candidate: D, current: D) -> bool {
        arbitrary()
    }

    /// Computes the density at `state`.
    fn density(&self, state: &S) -> (r: D)
        ensures
            r == self.density_of(*state),
    ;

    /// Compares two densities: strictly greater.
    fn exceeds(&self, candidate: &D, current: &D) -> (r: bool)
        ensures
            r == self.higher(*candidate, *current),
    ;
}

/// The random part of a Metropolis walk: a symmetric random-walk proposal
/// and the uniform draw of the acceptance test, over one random source.
/// `proposals` and `ratio_draws` are the logs of what it has handed out; an
/// implementation that is verified defines them, one that is not keeps the
/// defaults, which leave them unspecified.
pub trait RandomWalk<S, D> {
    /// The candidates proposed so far, in order.
    closed spec fn proposals(&self) -> Seq<S> {
        arbitrary()
    }

    /// The outcomes of the ratio draws made so far, in order.
    closed spec fn ratio_draws(&self) -> Seq<bool> {
        arbitrary()
    }

    /// Draws an increment from the (symmetric) proposal distribution and
    /// returns `current` plus that increment.
    fn propose(&mut self, current: &S) -> (r: S)
        ensures
            final(self).proposals() == old(self).proposals().push(r),
            final(self).ratio_draws() == old(self).ratio_draws(),
    ;

    /// Draws a uniform value from `[0, 1)` and reports whether it is below
    /// the ratio `candidate / current`.
    fn accept_by_ratio(&mut self, candidate: &D, current: &D) -> (r: bool)
        ensures
            final(self).ratio_draws() == old(self).ratio_draws().push(r),
            final(self).proposals() == old(self).proposals(),
    ;
}

/// The state that the chain moves to: the candidate when it is accepted,
/// otherwise the current state again.
pub open spec fn next_state<S>(current: S, candidate: S, accepted: bool) -> S {
    if accepted {
        candidate
    } else {
        current
    }
}

impl<S: Copy> McmcResult<S> {
    /// Appends the outcome of one Metropolis step: `candidate` if it was
    /// accepted, else a repeat of the current state. Returns the new state.
    pub fn record_step(&mut self, candidate: S, accepted: bool) -> (r: S)
        requires
            old(self).wf(),
            old(self).value@.len() < usize::MAX,
        ensures
            final(self).wf(),
            r == next_state(old(self).current(), candidate, accepted),
            final(self).value@ == old(self).value@.push(r),
            final(self).burnin == old(self).burnin,
    {
        let last = self.value.len() - 1;
        let next = if accepted {
            candidate
        } else {
            self.value[last]
        };
        self.value.push(next);
        next
    }
}

/// The chain that a Metropolis walk from `init` builds out of the
/// candidates `cands`, paired with how many of `draws` it consumed. A
/// candidate of higher density than the current state is accepted with no
/// draw; otherwise the next ratio draw decides.
pub open spec fn walk_from<S, D, T: TargetDensity<S, D>>(
    target: T,
    init: S,
    cands: Seq<S>,
    draws: Seq<bool>,
) -> (Seq<S>, nat)
    decreases cands.len(),
{
    if cands.len() == 0 {
        (seq![init], 0)
    } else {
        let (prev, used) = walk_from(target, init, cands.drop_last(), draws);
        let current = prev.last();
        let candidate = cands.last();
        if target.higher(target.density_of(candidate), target.density_of(current)) {
            (prev.push(candidate), used)
        } else {
            (prev.push(next_state(current, candidate, draws[used as int])), used + 1)
        }
    }
}

/// Extending the draws past those consumed leaves the walk unchanged.
proof fn lemma_walk_extra_draws<S, D, T: TargetDensity<S, D>>(
    target: T,
    init: S,
    cands: Seq<S>,
    draws: Seq<bool>,
    extra: Seq<bool>,
)
    requires
        walk_from(target, init, cands, draws).1 <= draws.len(),
    ensures
        walk_from(target, init, cands, draws + extra) == walk_from(target, init, cands, draws),
    decreases cands.len(),
{
    if cands.len() > 0 {
        lemma_walk_extra_draws(target, init, cands.drop_last(), draws, extra);
        let used = walk_from(target, init, cands.drop_last(), draws).1;
        if used < draws.len() {
            assert((draws + extra)[used as int] == draws[used as int]);
        }
    }
}

/// Each step of a walk either repeats the current state or moves to that
/// step's candidate, and it moves whenever the candidate's density is higher
/// than the current state's.
pub proof fn lemma_walk_steps<S, D, T: TargetDensity<S, D>>(
    target: T,
    init: S,
    cands: Seq<S>,
    draws: Seq<bool>,
)
    ensures
        walk_from(target, init, cands, draws).0.len() == cands.len() + 1,
        walk_from(target, init, cands, draws).0[0] == init,
        forall|i: int|
            0 <= i < cands.len() ==> {
                let chain = walk_from(target, init, cands, draws).0;
                &&& (chain[i + 1] == chain[i] || chain[i + 1] == #[trigger] cands[i])
                &&& (target.higher(target.density_of(cands[i]), target.density_of(chain[i]))
                    ==> chain[i + 1] == cands[i])
            },
    decreases cands.len(),
{
    if cands.len() > 0 {
        lemma_walk_steps(target, init, cands.drop_last(), draws);
        let prev = walk_from(target, init, cands.drop_last(), draws).0;
        let chain = walk_from(target, init, cands, draws).0;
        assert forall|i: int| 0 <= i < cands.len() implies {
            &&& (chain[i + 1] == chain[i] || chain[i + 1] == #[trigger] cands[i])
            &&& (target.higher(target.density_of(cands[i]), target.density_of(chain[i]))
                ==> chain[i + 1] == cands[i])
        } by {
            if i < cands.len() - 1 {
                assert(cands.drop_last()[i] == cands[i]);
                assert(chain[i] == prev[i]);
                assert(chain[i + 1] == prev[i + 1]);
            }
        }
    }
}

/// A walk in which every candidate has higher density than the state it is
/// proposed from accepts every candidate and makes no ratio draw.
pub proof fn lemma_walk_uphill<S, D, T: TargetDensity<S, D>>(
    target: T,
    init: S,
    cands: Seq<S>,
    draws: Seq<bool>,
)
    requires
        forall|i: int|
            0 <= i < cands.len() ==> target.higher(
                target.density_of(#[trigger] cands[i]),
                target.density_of(walk_from(target, init, cands, draws).0[i]),
            ),
    ensures
        walk_from(target, init, cands, draws).0 == seq![init] + cands,
        walk_from(target, init, cands, draws).1 == 0,
    decreases cands.len(),
{
    lemma_walk_steps(target, init, cands, draws);
    if cands.len() > 0 {
        let prev = walk_from(target, init, cands.drop_last(), draws).0;
        let chain = walk_from(target, init, cands, draws).0;
        lemma_walk_steps(target, init, cands.drop_last(), draws);
        assert forall|i: int| 0 <= i < cands.drop_last().len() implies target.higher(
            target.density_of(#[trigger] cands.drop_last()[i]),
            target.density_of(prev[i]),
        ) by {
            assert(cands[i] == cands.drop_last()[i]);
            assert(chain[i] == prev[i]);
        }
        lemma_walk_uphill(target, init, cands.drop_last(), draws);
        assert(chain =~= seq![init] + cands);
    } else {
        assert(walk_from(target, init, cands, draws).0 =~= seq![init] + cands);
    }
}

/// The Metropolis acceptance test: a candidate of higher density is accepted
/// outright, with no draw; otherwise one ratio draw decides.
fn metropolis_accepts<S, D, T: TargetDensity<S, D>, W: RandomWalk<S, D>>(
    target: &T,
    walk: &mut W,
    candidate: &D,
    current: &D,
) -> (r: bool)
    ensures
        target.higher(*candidate, *current) ==> r && *final(walk) == *old(walk),
        !target.higher(*candidate, *current) ==> {
            &&& final(walk).ratio_draws() == old(walk).ratio_draws().push(r)
            &&& final(walk).proposals() == old(walk).proposals()
        },
{
    if target.exceeds(candidate, current) {
        true
    } else {
        walk.accept_by_ratio(candidate, current)
    }
}

/// What a finished run from `init` satisfies: the chain is exactly the walk
/// built from the candidates the run proposed and the ratio draws it made,
/// and the run proposed one candidate per appended state.
pub open spec fn run_matches<S, D, T: TargetDensity<S, D>, W: RandomWalk<S, D>>(
    target: T,
    init: S,
    before: W,
    after: W,
    chain: Seq<S>,
) -> bool {
    let p0 = before.proposals().len();
    let q0 = before.ratio_draws().len();
    let cands = after.proposals().subrange(p0 as int, after.proposals().len() as int);
    let draws = after.ratio_draws().subrange(q0 as int, after.ratio_draws().len() as int);
    &&& after.proposals().len() >= p0
    &&& after.ratio_draws().len() >= q0
    &&& after.proposals().subrange(0, p0 as int) == before.proposals()
    &&& after.ratio_draws().subrange(0, q0 as int) == before.ratio_draws()
    &&& cands.len() + 1 == chain.len()
    &&& walk_from(target, init, cands, draws) == (chain, draws.len())
}

/// Runs one chain from `init` until `stop` is met, consulting it before each
/// step. Each step proposes a candidate, accepts or rejects it by the
/// Metropolis rule and appends the resulting state; the density of the
/// current state is kept and recomputed only on acceptance. The burn-in mark
/// is left at 0. When `stop` holds of the initial chain, nothing is drawn.
pub fn simple_mcmc_core<S: Copy, D, T: TargetDensity<S, D>, W: RandomWalk<S, D>>(
    init: S,
    target: &T,
    walk: &mut W,
    stop: &StopCondition,
) -> (r: McmcResult<S>)
    requires
        stop.runnable(),
    ensures
        r.wf(),
        r.burnin == 0,
        r.value@[0] == init,
        r.value@.len() == stop.final_len(),
        stop.met_by(r.value@.len()),
        forall|len: nat| 1 <= len < r.value@.len() ==> !#[trigger] stop.met_by(len),
        run_matches(*target, init, *old(walk), *final(walk), r.value@),
        stop.met_by(1) ==> *final(walk) == *old(walk),
{
    let ghost w0 = *walk;
    let ghost p0 = walk.proposals().len();
    let ghost q0 = walk.ratio_draws().len();
    let mut res = McmcResult::new(init);
    let mut current = init;
    let mut current_density = target.density(&init);
    proof {
        assert(walk.proposals().subrange(p0 as int, p0 as int) =~= Seq::<S>::empty());
        assert(walk.ratio_draws().subrange(q0 as int, q0 as int) =~= Seq::<bool>::empty());
        assert(walk.proposals().subrange(0, p0 as int) =~= walk.proposals());
        assert(walk.ratio_draws().subrange(0, q0 as int) =~= walk.ratio_draws());
    }
    while !stop.is_met(&res)
        invariant
            stop.runnable(),
            res.wf(),
            res.burnin == 0,
            res.value@[0] == init,
            current == res.current(),
            current_density == target.density_of(current),
            1 <= res.value@.len() <= stop.final_len(),
            p0 == w0.proposals().len(),
            q0 == w0.ratio_draws().len(),
            run_matches(*target, init, w0, *walk, res.value@),
            res.value@.len() == 1 ==> *walk == w0,
        decreases stop.final_len() - res.value@.len(),
    {
        let ghost chain0 = res.value@;
        let ghost wa = *walk;
        let ghost density0 = current_density;
        let candidate = walk.propose(&current);
        let candidate_density = target.density(&candidate);
        let accepted = metropolis_accepts(target, walk, &candidate_density, &current_density);
        current = res.record_step(candidate, accepted);
        if accepted {
            current_density = candidate_density;
        }
        proof {
            let cands0 = wa.proposals().subrange(p0 as int, wa.proposals().len() as int);
            let draws0 = wa.ratio_draws().subrange(q0 as int, wa.ratio_draws().len() as int);
            let cands1 = walk.proposals().subrange(p0 as int, walk.proposals().len() as int);
            let draws1 = walk.ratio_draws().subrange(q0 as int, walk.ratio_draws().len() as int);
            assert(cands1 =~= cands0.push(candidate));
            assert(cands1.drop_last() =~= cands0);
            assert(walk.proposals().subrange(0, p0 as int) =~= wa.proposals().subrange(0, p0 as int));
            assert(walk.ratio_draws().subrange(0, q0 as int) =~= wa.ratio_draws().subrange(0, q0 as int));
            if target.higher(candidate_density, density0) {
                assert(draws1 =~= draws0);
            } else {
                let d = walk.ratio_draws().last();
                assert(draws1 =~= draws0 + seq![d]);
                lemma_walk_extra_draws(*target, init, cands0, draws0, seq![d]);
                assert(draws1[draws0.len() as int] == accepted);
            }
            assert(res.value@ == chain0.push(current));
        }
    }
    res
}

/// The default run: `STEP_BUDGET` steps from `init`, then the burn-in mark
/// set to `BURNIN`.
pub fn simple_mcmc<S: Copy, D, T: TargetDensity<S, D>, W: RandomWalk<S, D>>(
    init: S,
    target: &T,
    walk: &mut W,
) -> (r: McmcResult<S>)
    ensures
        r.wf(),
        r.burnin == BURNIN,
        r.value@.len() == STEP_BUDGET + 1,
        r.value@[0] == init,
        run_matches(*target, init, *old(walk), *final(walk), r.value@),
{
    let stop = crate::stop::mcmc_stop_after(STEP_BUDGET);
    let mut res = simple_mcmc_core(init, target, walk, &stop);
    res.burnin = BURNIN;
    res
}

} // verus!
