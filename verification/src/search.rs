//! The hill-climbing controller. It owns the best population, the running
//! best fitness and the frame counter, and drives the propose → render →
//! score → accept/reject cycle; rendering is the collaborator's work, so one
//! iteration is a `propose` call, an outside render, and a `step` call.
//!
//! Fitness is the exact integer sum of squared channel differences, lower
//! is better, and the best fitness starts at the maximum representable
//! value. A rejected iteration relaxes the acceptance threshold by the
//! drift factor (100001 / 100000, rounded up, saturating); the boost
//! command relaxes it by 3 / 2 the same way.

use vstd::prelude::*;

use crate::fitness::score;
use crate::fitness::sum_sq_diff;
use crate::fitness::MAX_BUFFER_LEN;
use crate::mutate::drawn_color;
use crate::mutate::drawn_point;
use crate::mutate::mutate_shape;
use crate::mutate::mutated_shape;
use crate::mutate::sample_shape_draws;
use crate::mutate::shape_draws_wf;
use crate::mutate::MutationRanges;
use crate::mutate::ShapeDraws;
use crate::rng::next_output;
use crate::rng::ranged;
use crate::rng::stepped;
use crate::rng::SeededRng;
use crate::shape::default_circle;
use crate::shape::Shape;

verus! {

/// Numerator of the per-rejection tolerance drift.
pub const DRIFT_NUM: u64 = 100001;

/// Denominator of the per-rejection tolerance drift.
pub const DRIFT_DEN: u64 = 100000;

/// Numerator of the boost-tolerance relaxation.
pub const BOOST_NUM: u64 = 3;

/// Denominator of the boost-tolerance relaxation.
pub const BOOST_DEN: u64 = 2;

/// `b` scaled by `num / den`, rounded up to the next integer.
pub open spec fn scale_ceil(b: u64, num: u64, den: u64) -> int
    recommends
        den > 0,
{
    (b * num + (den - 1)) / (den as int)
}

/// `scale_ceil`, saturating at the largest representable fitness.
pub open spec fn scale_ceil_sat(b: u64, num: u64, den: u64) -> u64
    recommends
        den > 0,
{
    if scale_ceil(b, num, den) > u64::MAX {
        u64::MAX
    } else {
        scale_ceil(b, num, den) as u64
    }
}

/// The threshold after one rejected iteration.
pub open spec fn drifted(b: u64) -> u64 {
    scale_ceil_sat(b, DRIFT_NUM, DRIFT_DEN)
}

/// The threshold after one boost-tolerance command.
pub open spec fn boosted(b: u64) -> u64 {
    scale_ceil_sat(b, BOOST_NUM, BOOST_DEN)
}

/// The population member that mutates at the given frame: deterministic
/// round-robin.
pub open spec fn mutation_index(frame: usize, n: int) -> int
    recommends
        n > 0,
{
    frame as int % n
}

fn scale_ceil_exec(b: u64, num: u64, den: u64) -> (r: u64)
    requires
        1 <= den,
    ensures
        r == scale_ceil_sat(b, num, den),
{
    proof {
        assert((b as int) * (num as int) <= (u64::MAX as int) * (u64::MAX as int))
            by (nonlinear_arith)
            requires
                b <= u64::MAX,
                num <= u64::MAX,
        ;
        assert((u64::MAX as int) * (u64::MAX as int) + (den - 1) < u128::MAX as int)
            by (nonlinear_arith)
            requires
                den <= u64::MAX,
        ;
        assert(0 <= (b as int) * (num as int)) by (nonlinear_arith);
    }
    let wide: u128 = (b as u128) * (num as u128) + ((den - 1) as u128);
    let q: u128 = wide / (den as u128);
    if q > u64::MAX as u128 {
        u64::MAX
    } else {
        q as u64
    }
}

/// The search state: the owned best population, the threshold, the frame
/// counter, and whether an external stop has been seen.
pub struct HillClimb {
    /// The immutable reference pixel buffer, RGBA8.
    pub target: Vec<u8>,
    /// The owned best population; its length never changes.
    pub best: Vec<Shape>,
    /// The acceptance threshold: the best score seen, relaxed by drift.
    pub best_fitness: u64,
    /// Counts iterations and selects the member to mutate.
    pub frame: usize,
    /// False once the stop command has arrived; no iteration follows.
    pub running: bool,
    /// The fixed valid ranges mutation resamples in.
    pub ranges: MutationRanges,
}

/// The runtime commands the external event collaborator delivers.
#[derive(Clone, Copy, PartialEq, Eq, Structural, Debug)]
pub enum Command {
    Stop,
    BoostTolerance,
    ReportFitness,
}

impl HillClimb {
    /// The state every method keeps: a nonempty population, a target the
    /// scorer accepts, and nonempty mutation ranges.
    pub open spec fn wf(self) -> bool {
        &&& self.target@.len() <= MAX_BUFFER_LEN
        &&& self.best@.len() >= 1
        &&& self.ranges.wf()
    }

    /// Starts a run: every member is the degenerate off-canvas circle, the
    /// threshold is the maximum representable value, the frame counter is
    /// zero.
    pub fn new(target: Vec<u8>, population_size: usize, ranges: MutationRanges) -> (r: HillClimb)
        requires
            1 <= population_size,
            target@.len() <= MAX_BUFFER_LEN,
            ranges.wf(),
        ensures
            r.wf(),
            r.target@ == target@,
            r.best@.len() == population_size,
            forall|i: int| 0 <= i < population_size ==> (#[trigger] r.best@[i])@ == default_circle(),
            r.best_fitness == u64::MAX,
            r.frame == 0,
            r.running,
            r.ranges == ranges,
    {
        let mut best: Vec<Shape> = Vec::new();
        let mut i: usize = 0;
        while i < population_size
            invariant
                i <= population_size,
                best@.len() == i,
                forall|j: int| 0 <= j < i ==> (#[trigger] best@[j])@ == default_circle(),
            decreases population_size - i,
        {
            best.push(Shape::new_default_circle());
            i += 1;
        }
        HillClimb { target, best, best_fitness: u64::MAX, frame: 0, running: true, ranges }
    }

    /// Derives the candidate for this iteration: a full copy of the best
    /// population with exactly the member at `frame mod N` mutated, under
    /// draws taken from the given seeded stream. The selection is
    /// deterministic in `frame` alone, and the draws are pinned to the
    /// stream, so the whole candidate is a function of the state and the
    /// stream position.
    pub fn propose(&self, rng: &mut SeededRng) -> (r: (Vec<Shape>, ShapeDraws))
        requires
            self.wf(),
        ensures
            r.0@.len() == self.best@.len(),
            shape_draws_wf(r.1, self.ranges),
            forall|j: int|
                0 <= j < self.best@.len() && j != mutation_index(self.frame, self.best@.len() as int)
                    ==> (#[trigger] r.0@[j])@ == self.best@[j]@,
            r.0@[mutation_index(self.frame, self.best@.len() as int)]@ == mutated_shape(
                self.best@[mutation_index(self.frame, self.best@.len() as int)]@,
                r.1,
            ),
            ({
                let vc = self.best@[mutation_index(self.frame, self.best@.len() as int)]@
                    .vertex_count();
                &&& r.1.position == drawn_point(old(rng).state, self.ranges)
                &&& r.1.flip_radius == ((next_output(stepped(old(rng).state, 4)) & 1) == 1)
                &&& r.1.radius == ranged(
                    next_output(stepped(old(rng).state, 5)),
                    self.ranges.radius_min,
                    self.ranges.radius_max,
                )
                &&& r.1.resample_vertices == ((next_output(stepped(old(rng).state, 6)) & 1) == 1)
                &&& r.1.vertex@.len() == vc
                &&& forall|j: int|
                    0 <= j < vc ==> #[trigger] r.1.vertex@[j] == drawn_point(
                        stepped(old(rng).state, (7 + 4 * j) as nat),
                        self.ranges,
                    )
                &&& r.1.color == drawn_color(stepped(old(rng).state, (7 + 4 * vc) as nat))
                &&& final(rng).state == stepped(old(rng).state, (16 + 4 * vc) as nat)
            }),
    {
        let n: usize = self.best.len();
        let idx: usize = self.frame % n;
        let vertex_count: usize = self.best[idx].vertex_count();
        let draws = sample_shape_draws(rng, &self.ranges, vertex_count);
        let mut candidate: Vec<Shape> = Vec::new();
        let mut i: usize = 0;
        while i < n
            invariant
                i <= n,
                n == self.best@.len(),
                idx == mutation_index(self.frame, n as int),
                idx < n,
                candidate@.len() == i,
                draws.vertex@.len() == self.best@[idx as int]@.vertex_count(),
                forall|j: int|
                    0 <= j < i && j != idx ==> (#[trigger] candidate@[j])@ == self.best@[j]@,
                i > idx ==> candidate@[idx as int]@ == mutated_shape(
                    self.best@[idx as int]@,
                    draws,
                ),
            decreases n - i,
        {
            if i == idx {
                let mutated = mutate_shape(&self.best[i], &draws);
                candidate.push(mutated);
            } else {
                let copy = self.best[i].clone();
                candidate.push(copy);
            }
            i += 1;
        }
        (candidate, draws)
    }

    /// The accept/reject decision for one iteration, given the candidate and
    /// its freshly rendered buffer. On strict improvement the candidate
    /// replaces the owned best and the threshold becomes its exact score; on
    /// rejection the candidate is discarded and the threshold drifts up.
    /// Either way the frame counter advances and the population length is
    /// unchanged. The result says whether the collaborator should present
    /// the new frame.
    pub fn step(&mut self, candidate: Vec<Shape>, rendered: &Vec<u8>) -> (accepted: bool)
        requires
            old(self).wf(),
            old(self).running,
            rendered@.len() == old(self).target@.len(),
            candidate@.len() == old(self).best@.len(),
            old(self).frame < usize::MAX,
        ensures
            final(self).wf(),
            final(self).target@ == old(self).target@,
            final(self).ranges == old(self).ranges,
            final(self).running == old(self).running,
            final(self).frame == old(self).frame + 1,
            final(self).best@.len() == old(self).best@.len(),
            (accepted <==> sum_sq_diff(old(self).target@, rendered@) < old(self).best_fitness),
            accepted ==> final(self).best == candidate && final(self).best_fitness == sum_sq_diff(
                old(self).target@,
                rendered@,
            ),
            !accepted ==> final(self).best == old(self).best && final(self).best_fitness == drifted(
                old(self).best_fitness,
            ),
    {
        let fitness = score(&self.target, rendered);
        let accepted = fitness < self.best_fitness;
        if accepted {
            self.best = candidate;
            self.best_fitness = fitness;
        } else {
            self.best_fitness = scale_ceil_exec(self.best_fitness, DRIFT_NUM, DRIFT_DEN);
        }
        self.frame = self.frame + 1;
        accepted
    }

    /// The boost-tolerance command: relaxes the threshold by 3 / 2 and
    /// touches nothing else; in particular no population mutation occurs.
    pub fn boost_tolerance(&mut self)
        ensures
            final(self).best_fitness == boosted(old(self).best_fitness),
            final(self).target@ == old(self).target@,
            final(self).best == old(self).best,
            final(self).frame == old(self).frame,
            final(self).running == old(self).running,
            final(self).ranges == old(self).ranges,
    {
        self.best_fitness = scale_ceil_exec(self.best_fitness, BOOST_NUM, BOOST_DEN);
    }

    /// The read-only fitness report; no state changes.
    pub fn report_fitness(&self) -> (r: u64)
        ensures
            r == self.best_fitness,
    {
        self.best_fitness
    }

    /// The stop command: the terminal state; callers run no iteration once
    /// it is set.
    pub fn stop(&mut self)
        ensures
            final(self).running == false,
            final(self).target@ == old(self).target@,
            final(self).best == old(self).best,
            final(self).best_fitness == old(self).best_fitness,
            final(self).frame == old(self).frame,
            final(self).ranges == old(self).ranges,
    {
        self.running = false;
    }

    /// Applies one delivered command. Only `ReportFitness` reports; only
    /// `BoostTolerance` moves the threshold; only `Stop` ends the run; none
    /// touches the population or the frame counter.
    pub fn apply_command(&mut self, cmd: Command) -> (report: Option<u64>)
        ensures
            final(self).target@ == old(self).target@,
            final(self).best == old(self).best,
            final(self).frame == old(self).frame,
            final(self).ranges == old(self).ranges,
            match cmd {
                Command::Stop => final(self).running == false && final(self).best_fitness == old(
                    self,
                ).best_fitness && report is None,
                Command::BoostTolerance => final(self).best_fitness == boosted(
                    old(self).best_fitness,
                ) && final(self).running == old(self).running && report is None,
                Command::ReportFitness => *final(self) == *old(self) && report == Some(
                    old(self).best_fitness,
                ),
            },
    {
        match cmd {
            Command::Stop => {
                self.stop();
                None
            },
            Command::BoostTolerance => {
                self.boost_tolerance();
                None
            },
            Command::ReportFitness => Some(self.report_fitness()),
        }
    }
}

/// After any rejected iteration the threshold strictly increases: the drift
/// factor exceeds one, and rounding is upward. The two inputs left out are
/// a threshold of zero, which only a pixel-identical render reaches and
/// which no drift moves, and a threshold so large the drift saturates.
pub proof fn lemma_drift_strictly_increases(b: u64)
    requires
        1 <= b,
        scale_ceil(b, DRIFT_NUM, DRIFT_DEN) <= u64::MAX,
    ensures
        drifted(b) > b,
{
    assert(b * 100001 == b * 100000 + b) by (nonlinear_arith);
    assert((b * 100000 + (b + 99999)) / 100000 >= b + 1) by (nonlinear_arith)
        requires
            1 <= b,
    ;
}

}
