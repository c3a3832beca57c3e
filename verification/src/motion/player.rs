//! The motion player: flow-controlled streaming of interpolated poses
//! into the servo's bounded pose buffer.
//!
//! The player samples a motion curve at a fixed step, resolves each
//! sample to joint angles through the solver, and pushes one pose per
//! sample — but only while the mirrored `available` count says the
//! remote buffer has room; at zero it waits for a drain notification and
//! re-reads the count. A stop instruction or a failure aborts the motion
//! after a best-effort buffer clear.
//!
//! [`run_motion`] is the player's whole decision procedure as a pure
//! function: the asynchronous shell performs the commands of the trace
//! it produces, supplying drain grants as they arrive. Its contract
//! carries the flow-control law: the trace never pushes into a full
//! buffer.

use vstd::prelude::*;

use vstd::arithmetic::div_mod::{
    lemma_div_is_ordered, lemma_div_multiples_vanish_fancy, lemma_div_pos_is_pos,
};
use vstd::arithmetic::mul::{lemma_mul_inequality, lemma_mul_nonnegative};

use crate::kinematics::solver::{IKSolverResult, KinematicSolver, SolveOutcome};
use crate::kinematics::{KinematicParameters, KinematicState};
use crate::motion::{Motion, MAX_DURATION_US};

verus! {

/// The player's configuration: the sampling step, in microseconds.
#[derive(Clone, Copy, Debug, PartialEq, Eq, Structural)]
pub struct Configuration {
    /// Time between consecutive pose samples, in microseconds.
    pub delta_time_us: i64,
}

impl Configuration {
    /// A usable configuration: a positive step, bounded like a curve's
    /// duration so sampling times cannot overflow.
    pub open spec fn wf(self) -> bool {
        1 <= self.delta_time_us <= MAX_DURATION_US
    }

    /// A configuration with the given sampling step.
    pub fn new(delta_time_us: i64) -> (r: Self)
        requires
            1 <= delta_time_us <= MAX_DURATION_US,
        ensures
            r.delta_time_us == delta_time_us,
            r.wf(),
    {
        Configuration { delta_time_us }
    }
}

/// What the player is told to do next.
pub enum Instruction<M> {
    /// Play this motion from the current arm state.
    Start(M),
    /// Abandon the current motion.
    Stop,
}

/// One pose handed to the servo: target angles and the time the servo
/// should take interpolating to them.
#[derive(Clone, Copy, Debug, PartialEq, Eq, Structural)]
pub struct PoseSample {
    /// The target joint angles, in microradians.
    pub angles: KinematicState,
    /// The interpolation time, in microseconds.
    pub duration_us: i64,
}

/// One entry of a player run's outbound record, in order.
#[derive(Clone, Copy, Debug, PartialEq, Eq, Structural)]
pub enum TraceEvent {
    /// The player sent a clear-buffer command.
    ClearPoseBuffer,
    /// The player queried the buffer capacity.
    QueryCapacity,
    /// The player pushed this pose into the buffer.
    Push(PoseSample),
    /// The player woke from a drain wait and re-read this many free
    /// slots (clamped to the capacity in its mirror).
    Drained(u64),
}

/// Why a motion was aborted.
#[derive(Clone, Copy, Debug, PartialEq, Eq, Structural)]
pub enum MotionFailure {
    /// The solver found no state within its threshold for a sample.
    TargetUnreachable,
    /// The inverse algorithm refused a corrective step.
    StepRefused,
    /// The drain grants ran out while the buffer was full, so the run
    /// could never have pushed again.
    BufferStarved,
}

/// How a player run ended.
#[derive(Clone, Copy, Debug, PartialEq, Eq, Structural)]
pub enum MotionVerdict {
    /// Every sample of the curve was pushed.
    Completed,
    /// A stop instruction ended the motion early.
    Stopped,
    /// The motion was aborted.
    Failed(MotionFailure),
}

/// A finished player run: everything it sent, how it ended, and the arm
/// state it left behind.
pub struct MotionRun {
    /// The outbound record, in order.
    pub trace: Vec<TraceEvent>,
    /// How the run ended.
    pub verdict: MotionVerdict,
    /// The joint state after the last accepted push.
    pub final_state: KinematicState,
}

/// The ledger the asynchronous player keeps while a motion runs: the
/// mirrored free-slot count of the remote buffer, the sampling clock,
/// and the joint state of the last accepted push. The shell performs the
/// waits and the writes; every bookkeeping step goes through these
/// contracts, so a push is only ever recorded against a free slot.
pub struct MotionSession {
    /// The remote buffer's capacity, as queried at motion start.
    pub capacity: u64,
    /// The mirrored count of free slots.
    pub available: u64,
    /// How many poses have been pushed.
    pub pushed: u64,
    /// The next sampling time, in microseconds.
    pub t_us: i64,
    /// The sampling step, in microseconds.
    pub delta_time_us: i64,
    /// The joint state after the last push.
    pub state: KinematicState,
}

impl MotionSession {
    /// The ledger's invariant: the mirror never exceeds the capacity and
    /// the clock is exactly the pushes times the step.
    pub open spec fn wf(self) -> bool {
        &&& self.available <= self.capacity
        &&& 1 <= self.delta_time_us <= MAX_DURATION_US
        &&& self.state.wf()
        &&& self.t_us == self.pushed * self.delta_time_us
        &&& 0 <= self.t_us
    }

    /// Open the ledger, as the player does after clearing the buffer and
    /// querying its capacity: all slots free, the clock at zero.
    pub fn begin(capacity: u64, delta_time_us: i64, state: KinematicState) -> (r: Self)
        requires
            1 <= delta_time_us <= MAX_DURATION_US,
            state.wf(),
        ensures
            r.wf(),
            r.capacity == capacity,
            r.available == capacity,
            r.pushed == 0,
            r.t_us == 0,
            r.delta_time_us == delta_time_us,
            r.state == state,
    {
        proof {
            assert(0 * (delta_time_us as int) == 0) by (nonlinear_arith);
        }
        MotionSession { capacity, available: capacity, pushed: 0, t_us: 0, delta_time_us, state }
    }

    /// Whether the player must wait for a drain before the next push.
    pub fn must_wait(&self) -> (r: bool)
        ensures
            r == (self.available == 0),
    {
        self.available == 0
    }

    /// Take over a freshly re-read free count, as the player does after
    /// waking from a drain wait; the mirror clamps it to the capacity.
    pub fn refresh_available(&mut self, grant: u64)
        requires
            old(self).wf(),
        ensures
            final(self).wf(),
            final(self).available == granted(grant, old(self).capacity),
            final(self).capacity == old(self).capacity,
            final(self).pushed == old(self).pushed,
            final(self).t_us == old(self).t_us,
            final(self).delta_time_us == old(self).delta_time_us,
            final(self).state == old(self).state,
    {
        self.available = if grant > self.capacity {
            self.capacity
        } else {
            grant
        };
    }

    /// Record one accepted push: a slot is taken, the clock advances one
    /// step, and the reached state carries over. Only callable with a
    /// free slot mirrored.
    pub fn record_push(&mut self, next_state: KinematicState)
        requires
            old(self).wf(),
            old(self).available >= 1,
            next_state.wf(),
            old(self).t_us <= 2 * MAX_DURATION_US,
        ensures
            final(self).wf(),
            final(self).available == old(self).available - 1,
            final(self).pushed == old(self).pushed + 1,
            final(self).t_us == old(self).t_us + old(self).delta_time_us,
            final(self).state == next_state,
            final(self).capacity == old(self).capacity,
            final(self).delta_time_us == old(self).delta_time_us,
    {
        proof {
            let p = old(self).pushed as int;
            let d = old(self).delta_time_us as int;
            assert((p + 1) * d == p * d + d) by (nonlinear_arith);
            assert(p <= p * d) by (nonlinear_arith)
                requires
                    0 <= p && 1 <= d,
            ;
        }
        self.available = self.available - 1;
        self.pushed = self.pushed + 1;
        self.t_us = self.t_us + self.delta_time_us;
        self.state = next_state;
    }
}

/// A drain grant of `g` slots frees at most the whole buffer.
pub open spec fn granted(g: u64, capacity: u64) -> int {
    if g > capacity {
        capacity as int
    } else {
        g as int
    }
}

/// The mirrored free-slot count after the events of `trace`: full at the
/// start, re-read at a capacity query or a drain grant, one slot taken
/// per push.
pub open spec fn available_after(trace: Seq<TraceEvent>, capacity: u64) -> int
    decreases trace.len(),
{
    if trace.len() == 0 {
        capacity as int
    } else {
        let rest = available_after(trace.drop_last(), capacity);
        match trace.last() {
            TraceEvent::ClearPoseBuffer => rest,
            TraceEvent::QueryCapacity => capacity as int,
            TraceEvent::Push(_) => rest - 1,
            TraceEvent::Drained(g) => granted(g, capacity),
        }
    }
}

/// The flow-control law over a trace: every push happens with at least
/// one free slot mirrored — the player never pushes into a full buffer,
/// and the buffer never holds more than its capacity.
pub open spec fn flow_ok(trace: Seq<TraceEvent>, capacity: u64) -> bool
    decreases trace.len(),
{
    if trace.len() == 0 {
        true
    } else {
        flow_ok(trace.drop_last(), capacity) && (trace.last() is Push ==> available_after(
            trace.drop_last(),
            capacity,
        ) >= 1)
    }
}

/// The poses pushed by a trace, in order.
pub open spec fn pushes_of(trace: Seq<TraceEvent>) -> Seq<PoseSample>
    decreases trace.len(),
{
    if trace.len() == 0 {
        Seq::empty()
    } else {
        let rest = pushes_of(trace.drop_last());
        match trace.last() {
            TraceEvent::Push(sample) => rest.push(sample),
            _ => rest,
        }
    }
}

/// How appending one event extends the trace's accounting.
pub proof fn lemma_trace_snoc(trace: Seq<TraceEvent>, event: TraceEvent, capacity: u64)
    ensures
        (pushes_of(trace.push(event)) == match event {
            TraceEvent::Push(sample) => pushes_of(trace).push(sample),
            _ => pushes_of(trace),
        }),
        (available_after(trace.push(event), capacity) == match event {
            TraceEvent::ClearPoseBuffer => available_after(trace, capacity),
            TraceEvent::QueryCapacity => capacity as int,
            TraceEvent::Push(_) => available_after(trace, capacity) - 1,
            TraceEvent::Drained(g) => granted(g, capacity),
        }),
        flow_ok(trace.push(event), capacity) == (flow_ok(trace, capacity) && (event is Push
            ==> available_after(trace, capacity) >= 1)),
{
    assert(trace.push(event).drop_last() =~= trace);
    assert(trace.push(event).last() == event);
}

/// How many samples a curve of this duration yields at step `dt`: one
/// for each sampling time in front of the duration.
pub open spec fn spec_sample_count(duration: int, dt: int) -> int {
    if duration <= 0 {
        0
    } else {
        (duration - 1) / dt + 1
    }
}

/// The joint state after the first `i` samples have been resolved: each
/// sample's target is the curve at its sampling time, and the solver's
/// reached state carries over to the next sample.
pub open spec fn state_after<M: Motion, K: KinematicSolver>(
    motion: M,
    solver: K,
    params: KinematicParameters,
    initial: KinematicState,
    dt: int,
    i: nat,
) -> KinematicState
    decreases i,
{
    if i == 0 {
        initial
    } else {
        let prev = state_after(motion, solver, params, initial, dt, (i - 1) as nat);
        match solver.translate_outcome(params, prev, motion.position_spec((i - 1) * dt)) {
            SolveOutcome::Reached { state, .. } => state,
            _ => prev,
        }
    }
}

/// Whether the `i`-th sample resolves: the solver reaches its target
/// from the state the previous samples left.
pub open spec fn step_ok<M: Motion, K: KinematicSolver>(
    motion: M,
    solver: K,
    params: KinematicParameters,
    initial: KinematicState,
    dt: int,
    i: nat,
) -> bool {
    solver.translate_outcome(
        params,
        state_after(motion, solver, params, initial, dt, i),
        motion.position_spec(i * dt),
    ) is Reached
}

/// A count of completed samples at step `dt` below the duration stays
/// below the sample count, and a count at or past it equals it.
proof fn lemma_sample_count(duration: int, dt: int, pushed: int)
    requires
        1 <= dt,
        0 <= pushed,
    ensures
        pushed * dt < duration ==> pushed < spec_sample_count(duration, dt),
        (pushed * dt >= duration && (pushed == 0 || (pushed - 1) * dt < duration)) ==> pushed
            == spec_sample_count(duration, dt),
{
    if pushed * dt < duration {
        lemma_mul_nonnegative(pushed, dt);
        lemma_mul_inequality(1, dt, pushed);
        assert(pushed * 1 == pushed) by (nonlinear_arith);
        assert(pushed * dt == dt * pushed) by (nonlinear_arith);
        let b = duration - 1 - pushed * dt;
        if b < dt {
            lemma_div_multiples_vanish_fancy(pushed, b, dt);
            assert((duration - 1) / dt == pushed);
        } else {
            lemma_div_is_ordered(pushed * dt + dt, duration - 1, dt);
            lemma_div_multiples_vanish_fancy(pushed + 1, 0, dt);
            assert(dt * (pushed + 1) == pushed * dt + dt) by (nonlinear_arith);
            lemma_div_pos_is_pos(duration - 1, dt);
            assert((duration - 1) / dt >= pushed + 1);
        }
    }
    if pushed * dt >= duration && (pushed == 0 || (pushed - 1) * dt < duration) {
        if pushed == 0 {
            assert(pushed * dt == 0) by (nonlinear_arith)
                requires
                    pushed == 0,
            ;
        } else {
            let b = duration - 1 - (pushed - 1) * dt;
            assert(dt * (pushed - 1) == (pushed - 1) * dt) by (nonlinear_arith);
            assert(pushed * dt == (pushed - 1) * dt + dt) by (nonlinear_arith);
            lemma_div_multiples_vanish_fancy(pushed - 1, b, dt);
            assert((duration - 1) / dt == pushed - 1);
        }
    }
}

/// Run one motion to its end, as the player's worker does: clear the
/// buffer, learn its capacity, then push one resolved pose per sample,
/// waiting on a drain grant whenever the mirrored free count reaches
/// zero. `drain_script` holds the grants in arrival order; `stop_after`
/// simulates a stop instruction observed after that many pushes.
///
/// The trace starts with the clear and the capacity query; every abort —
/// stop, solver failure, starved drains — appends a final best-effort
/// clear, and after it nothing more is pushed. The contract pins the
/// whole trace: its flow respects the buffer (`flow_ok`), its pushes are
/// exactly the resolved samples in order, and the verdict says on which
/// condition the run ended.
pub fn run_motion<M: Motion, K: KinematicSolver>(
    motion: &M,
    solver: &K,
    params: &KinematicParameters,
    initial_state: &KinematicState,
    capacity: u64,
    drain_script: &Vec<u64>,
    configuration: &Configuration,
    stop_after: Option<u64>,
) -> (r: MotionRun)
    requires
        motion.wf(),
        solver.solver_wf(),
        params.wf(),
        initial_state.wf(),
        configuration.wf(),
    ensures
        flow_ok(r.trace@, capacity),
        r.trace@.len() >= 2,
        r.trace@[0] == TraceEvent::ClearPoseBuffer,
        r.trace@[1] == TraceEvent::QueryCapacity,
        pushes_of(r.trace@).len() <= spec_sample_count(
            motion.duration_spec(),
            configuration.delta_time_us as int,
        ),
        forall|k: int|
            0 <= k < pushes_of(r.trace@).len() ==> pushes_of(r.trace@)[k] == (PoseSample {
                angles: state_after(
                    *motion,
                    *solver,
                    *params,
                    *initial_state,
                    configuration.delta_time_us as int,
                    (k + 1) as nat,
                ),
                duration_us: configuration.delta_time_us,
            }),
        forall|k: int|
            0 <= k < pushes_of(r.trace@).len() ==> #[trigger] step_ok(
                *motion,
                *solver,
                *params,
                *initial_state,
                configuration.delta_time_us as int,
                k as nat,
            ),
        r.final_state == state_after(
            *motion,
            *solver,
            *params,
            *initial_state,
            configuration.delta_time_us as int,
            pushes_of(r.trace@).len() as nat,
        ),
        match r.verdict {
            MotionVerdict::Completed => pushes_of(r.trace@).len() == spec_sample_count(
                motion.duration_spec(),
                configuration.delta_time_us as int,
            ),
            MotionVerdict::Stopped => stop_after matches Some(k) && pushes_of(r.trace@).len()
                == k && pushes_of(r.trace@).len() < spec_sample_count(
                motion.duration_spec(),
                configuration.delta_time_us as int,
            ) && r.trace@.last() == TraceEvent::ClearPoseBuffer,
            MotionVerdict::Failed(f) => pushes_of(r.trace@).len() < spec_sample_count(
                motion.duration_spec(),
                configuration.delta_time_us as int,
            ) && r.trace@.last() == TraceEvent::ClearPoseBuffer && match f {
                MotionFailure::TargetUnreachable => solver.translate_outcome(
                    *params,
                    r.final_state,
                    motion.position_spec(
                        pushes_of(r.trace@).len() * configuration.delta_time_us as int,
                    ),
                ) is Unreachable,
                MotionFailure::StepRefused => solver.translate_outcome(
                    *params,
                    r.final_state,
                    motion.position_spec(
                        pushes_of(r.trace@).len() * configuration.delta_time_us as int,
                    ),
                ) is Failed,
                MotionFailure::BufferStarved => available_after(r.trace@, capacity) == 0,
            },
        },
{
    let dt = configuration.delta_time_us;
    let ghost dts = dt as int;
    let ghost m = *motion;
    let ghost sv = *solver;
    let ghost pp = *params;
    let ghost s0 = *initial_state;
    proof {
        motion.lemma_duration_bounds();
    }
    let mut trace: Vec<TraceEvent> = Vec::new();
    proof {
        lemma_trace_snoc(trace@, TraceEvent::ClearPoseBuffer, capacity);
    }
    trace.push(TraceEvent::ClearPoseBuffer);
    proof {
        lemma_trace_snoc(trace@, TraceEvent::QueryCapacity, capacity);
    }
    trace.push(TraceEvent::QueryCapacity);
    let mut available: u64 = capacity;
    let mut pushed: u64 = 0;
    let mut t: i64 = 0;
    let mut state: KinematicState = *initial_state;
    let mut drain_idx: usize = 0;
    loop
        invariant
            motion.wf(),
            solver.solver_wf(),
            params.wf(),
            configuration.wf(),
            m == *motion && sv == *solver && pp == *params && s0 == *initial_state,
            dt == configuration.delta_time_us,
            dts == dt as int,
            s0.wf(),
            0 <= motion.duration_spec() <= crate::motion::MAX_DURATION_US,
            state.wf(),
            state == state_after(m, sv, pp, s0, dts, pushed as nat),
            t == pushed * dts,
            pushed == 0 || (pushed - 1) * dts < motion.duration_spec(),
            0 <= t <= motion.duration_spec() + dts,
            pushed as int <= t,
            drain_idx <= drain_script@.len(),
            available <= capacity,
            trace@.len() >= 2,
            trace@[0] == TraceEvent::ClearPoseBuffer,
            trace@[1] == TraceEvent::QueryCapacity,
            flow_ok(trace@, capacity),
            available_after(trace@, capacity) == available as int,
            pushes_of(trace@).len() == pushed as int,
            forall|k: int|
                0 <= k < pushed ==> pushes_of(trace@)[k] == (PoseSample {
                    angles: state_after(m, sv, pp, s0, dts, (k + 1) as nat),
                    duration_us: dt,
                }),
            forall|k: int| 0 <= k < pushed ==> #[trigger] step_ok(m, sv, pp, s0, dts, k as nat),
            (match stop_after {
                Some(k) => pushed <= k,
                None => true,
            }),
        decreases motion.duration_spec() + dts - t, drain_script@.len() - drain_idx,
    {
        let next = motion.interpolate(t);
        match next {
            None => {
                proof {
                    lemma_sample_count(motion.duration_spec(), dts, pushed as int);
                }
                return MotionRun {
                    trace,
                    verdict: MotionVerdict::Completed,
                    final_state: state,
                };
            }
            Some(target) => {
                proof {
                    lemma_sample_count(motion.duration_spec(), dts, pushed as int);
                }
                let stop_now = match stop_after {
                    Some(k) => pushed >= k,
                    None => false,
                };
                if stop_now {
                    proof {
                        lemma_trace_snoc(trace@, TraceEvent::ClearPoseBuffer, capacity);
                    }
                    trace.push(TraceEvent::ClearPoseBuffer);
                    return MotionRun {
                        trace,
                        verdict: MotionVerdict::Stopped,
                        final_state: state,
                    };
                }
                let solved = solver.translate_limb4_end_effector(params, &state, &target);
                match solved {
                    Err(_) => {
                        proof {
                            lemma_trace_snoc(trace@, TraceEvent::ClearPoseBuffer, capacity);
                        }
                        trace.push(TraceEvent::ClearPoseBuffer);
                        return MotionRun {
                            trace,
                            verdict: MotionVerdict::Failed(MotionFailure::StepRefused),
                            final_state: state,
                        };
                    }
                    Ok(IKSolverResult::Unreachable) => {
                        proof {
                            lemma_trace_snoc(trace@, TraceEvent::ClearPoseBuffer, capacity);
                        }
                        trace.push(TraceEvent::ClearPoseBuffer);
                        return MotionRun {
                            trace,
                            verdict: MotionVerdict::Failed(MotionFailure::TargetUnreachable),
                            final_state: state,
                        };
                    }
                    Ok(IKSolverResult::Reached { new_state, .. }) => {
                        if available == 0 {
                            if drain_idx >= drain_script.len() {
                                proof {
                                    lemma_trace_snoc(
                                        trace@,
                                        TraceEvent::ClearPoseBuffer,
                                        capacity,
                                    );
                                }
                                trace.push(TraceEvent::ClearPoseBuffer);
                                return MotionRun {
                                    trace,
                                    verdict: MotionVerdict::Failed(MotionFailure::BufferStarved),
                                    final_state: state,
                                };
                            }
                            let grant = drain_script[drain_idx];
                            drain_idx = drain_idx + 1;
                            proof {
                                lemma_trace_snoc(trace@, TraceEvent::Drained(grant), capacity);
                            }
                            trace.push(TraceEvent::Drained(grant));
                            available = if grant > capacity {
                                capacity
                            } else {
                                grant
                            };
                        } else {
                            let sample = PoseSample { angles: new_state, duration_us: dt };
                            proof {
                                lemma_trace_snoc(trace@, TraceEvent::Push(sample), capacity);
                                assert((pushed + 1) * dts == pushed * dts + dts)
                                    by (nonlinear_arith);
                            }
                            trace.push(TraceEvent::Push(sample));
                            available = available - 1;
                            pushed = pushed + 1;
                            t = t + dt;
                            state = new_state;
                        }
                    }
                }
            }
        }
    }
}

} // verus!
