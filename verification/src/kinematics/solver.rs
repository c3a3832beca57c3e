//! The heuristic inverse-kinematics solver: a damped cyclic iteration
//! that consults a forward algorithm for the current end-effector
//! position and asks an inverse algorithm for one corrective step, until
//! the remaining error is within the threshold or the iteration cap is
//! spent.
//!
//! The whole iteration is mirrored by the specification function
//! [`solve_from`], and the executable solver is proved to return exactly
//! its outcome: which state is reached, after how many steps, or that the
//! target is unreachable within the cap.

use vstd::prelude::*;

use crate::kinematics::forward::ForwardKinematicAlgorithm;
use crate::kinematics::forward::IdentityForwardAlgorithm;
use crate::kinematics::forward::identity_position;
use crate::kinematics::inverse::IdentityInverseAlgorithm;
use crate::kinematics::inverse::InverseKinematicAlgorithm;
use crate::kinematics::inverse::identity_translated;
use crate::kinematics::{
    delta, dist_sq, spec_delta, spec_dist_sq, KinematicError, KinematicParameters, KinematicState,
    Vec3i,
};

verus! {

/// What a full solve amounts to.
pub enum SolveOutcome {
    /// The error fell within the threshold after this many corrective
    /// steps, leaving the arm in this state.
    Reached {
        /// Corrective steps taken before convergence.
        iterations: nat,
        /// The squared remaining error, in square micrometers.
        dist_sq: int,
        /// The joint state that attains it.
        state: KinematicState,
    },
    /// The cap was spent without the error falling within the threshold.
    Unreachable,
    /// The inverse algorithm refused a step.
    Failed,
}

/// The same outcome with `extra` steps counted on top.
pub open spec fn add_iterations(o: SolveOutcome, extra: nat) -> SolveOutcome {
    match o {
        SolveOutcome::Reached { iterations, dist_sq, state } => SolveOutcome::Reached {
            iterations: (iterations + extra) as nat,
            dist_sq,
            state,
        },
        other => other,
    }
}

/// Composing two counts is adding them.
pub proof fn lemma_add_iterations_compose(o: SolveOutcome, a: nat, b: nat)
    ensures
        add_iterations(add_iterations(o, a), b) == add_iterations(o, (a + b) as nat),
{
}

/// The solver's iteration, in the specification world: from `state`, with
/// `fuel` steps left, either the current error is already within the
/// threshold, or one inverse step is taken and the iteration continues.
/// Exhausted fuel means the target is unreachable within the cap; a
/// refused step fails the solve.
pub open spec fn solve_from<F: ForwardKinematicAlgorithm, I: InverseKinematicAlgorithm>(
    fwd: F,
    inv: I,
    params: KinematicParameters,
    state: KinematicState,
    target: Vec3i,
    threshold: i64,
    fuel: nat,
) -> SolveOutcome
    decreases fuel,
{
    if fuel == 0 {
        SolveOutcome::Unreachable
    } else {
        let p = fwd.limb4_position_spec(params, state);
        let d = spec_dist_sq(target, p);
        if d <= threshold * threshold {
            SolveOutcome::Reached { iterations: 0, dist_sq: d, state }
        } else {
            match inv.translate_spec(params, state, spec_delta(target, p)) {
                Option::None => SolveOutcome::Failed,
                Option::Some(next) => add_iterations(
                    solve_from(fwd, inv, params, next, target, threshold, (fuel - 1) as nat),
                    1,
                ),
            }
        }
    }
}

/// The result a solver hands back.
#[derive(Clone, Copy, Debug, PartialEq, Eq, Structural)]
pub enum IKSolverResult {
    /// No state within the threshold was found inside the iteration cap.
    Unreachable,
    /// A state within the threshold of the target was found.
    Reached {
        /// Corrective steps taken before convergence.
        iterations: usize,
        /// The squared remaining error, in square micrometers.
        delta_distance_squared: i128,
        /// The joint state that attains it.
        new_state: KinematicState,
    },
}

/// The square of an `i64` fits an `i128` and is nonnegative.
proof fn lemma_i64_square(t: i64)
    by (nonlinear_arith)
    ensures
        0 <= (t as int) * (t as int) <= 0x4000_0000_0000_0000_0000_0000_0000_0000,
{
}

/// A full inverse-kinematics solver: from a Cartesian target for the end
/// effector to a reachable joint state, or the verdict that no state
/// within the threshold was found. The motion player and the facade work
/// against this trait; each implementation carries its outcome as a
/// specification the caller reasons with.
pub trait KinematicSolver: Sized {
    /// Whether the solver is usable; for contracts.
    spec fn solver_wf(&self) -> bool;

    /// The outcome of a translation solve; for contracts.
    spec fn translate_outcome(
        &self,
        params: KinematicParameters,
        state: KinematicState,
        target: Vec3i,
    ) -> SolveOutcome;

    /// The outcome of a rotation solve; for contracts.
    spec fn rotate_outcome(
        &self,
        params: KinematicParameters,
        state: KinematicState,
        target: Vec3i,
    ) -> SolveOutcome;

    /// Solve for a joint state that brings the end effector to
    /// `target_position`: exactly the solver's translation outcome.
    fn translate_limb4_end_effector(
        &self,
        params: &KinematicParameters,
        state: &KinematicState,
        target_position: &Vec3i,
    ) -> (r: Result<IKSolverResult, KinematicError>)
        requires
            self.solver_wf(),
            params.wf(),
            state.wf(),
            target_position.wf(),
        ensures
            match r {
                Ok(result) => match self.translate_outcome(*params, *state, *target_position) {
                    SolveOutcome::Reached { iterations, dist_sq, state: fin } => result
                        == IKSolverResult::Reached {
                        iterations: iterations as usize,
                        delta_distance_squared: dist_sq as i128,
                        new_state: fin,
                    } && fin.wf(),
                    SolveOutcome::Unreachable => result == IKSolverResult::Unreachable,
                    SolveOutcome::Failed => false,
                },
                Err(e) => e == KinematicError::InversionFailure && self.translate_outcome(
                    *params,
                    *state,
                    *target_position,
                ) is Failed,
            },
    ;

    /// Solve for a joint state that turns the end effector toward the
    /// angular target: exactly the solver's rotation outcome.
    fn rotate_limb4_end_effector(
        &self,
        params: &KinematicParameters,
        state: &KinematicState,
        target_position: &Vec3i,
    ) -> (r: Result<IKSolverResult, KinematicError>)
        requires
            self.solver_wf(),
            params.wf(),
            state.wf(),
            target_position.wf(),
        ensures
            match r {
                Ok(result) => match self.rotate_outcome(*params, *state, *target_position) {
                    SolveOutcome::Reached { iterations, dist_sq, state: fin } => result
                        == IKSolverResult::Reached {
                        iterations: iterations as usize,
                        delta_distance_squared: dist_sq as i128,
                        new_state: fin,
                    } && fin.wf(),
                    SolveOutcome::Unreachable => result == IKSolverResult::Unreachable,
                    SolveOutcome::Failed => false,
                },
                Err(e) => e == KinematicError::InversionFailure && self.rotate_outcome(
                    *params,
                    *state,
                    *target_position,
                ) is Failed,
            },
    ;
}

/// Builds a [`HeuristicSolver`], with the threshold defaulting to a
/// centimeter of remaining error and the cap to two hundred iterations.
pub struct HeuristicSolverBuilder<I, F> {
    /// The inverse algorithm the solver will step with.
    pub inverse_algorithm: I,
    /// The forward algorithm the solver will measure with.
    pub forward_algorithm: F,
    /// The error threshold, in micrometers.
    pub threshold: i64,
    /// The iteration cap.
    pub max_iterations: usize,
}

impl<I: InverseKinematicAlgorithm, F: ForwardKinematicAlgorithm> HeuristicSolverBuilder<I, F> {
    /// A builder with the default threshold and cap.
    pub fn new(inverse_algorithm: I, forward_algorithm: F) -> (r: Self)
        ensures
            r.inverse_algorithm == inverse_algorithm,
            r.forward_algorithm == forward_algorithm,
            r.threshold == 10_000,
            r.max_iterations == 200,
    {
        HeuristicSolverBuilder {
            inverse_algorithm,
            forward_algorithm,
            threshold: 10_000,
            max_iterations: 200,
        }
    }

    /// Replace the error threshold, in micrometers.
    pub fn with_threshold(self, threshold: i64) -> (r: Self)
        requires
            0 <= threshold,
        ensures
            r == (Self { threshold, ..self }),
    {
        Self { threshold, ..self }
    }

    /// Replace the iteration cap.
    pub fn with_max_iterations(self, max_iterations: usize) -> (r: Self)
        ensures
            r == (Self { max_iterations, ..self }),
    {
        Self { max_iterations, ..self }
    }

    /// Finish the builder.
    pub fn build(self) -> (r: HeuristicSolver<I, F>)
        requires
            0 <= self.threshold,
        ensures
            r.inverse_algorithm == self.inverse_algorithm,
            r.forward_algorithm == self.forward_algorithm,
            r.threshold == self.threshold,
            r.max_iterations == self.max_iterations,
            r.wf(),
    {
        HeuristicSolver::new(
            self.inverse_algorithm,
            self.forward_algorithm,
            self.threshold,
            self.max_iterations,
        )
    }
}

/// The damped cyclic solver over a pair of pluggable algorithms.
pub struct HeuristicSolver<I, F> {
    /// The inverse algorithm stepped on each iteration.
    pub inverse_algorithm: I,
    /// The forward algorithm measuring the remaining error.
    pub forward_algorithm: F,
    /// The error threshold, in micrometers.
    pub threshold: i64,
    /// The iteration cap.
    pub max_iterations: usize,
}

impl<I: InverseKinematicAlgorithm, F: ForwardKinematicAlgorithm> HeuristicSolver<I, F> {
    /// A usable solver has a nonnegative threshold.
    pub open spec fn wf(self) -> bool {
        0 <= self.threshold
    }

    /// The outcome this solver's iteration reaches, for contracts.
    pub open spec fn spec_solve(
        self,
        params: KinematicParameters,
        state: KinematicState,
        target: Vec3i,
    ) -> SolveOutcome {
        solve_from(
            self.forward_algorithm,
            self.inverse_algorithm,
            params,
            state,
            target,
            self.threshold,
            self.max_iterations as nat,
        )
    }

    /// A solver from its parts.
    pub fn new(inverse_algorithm: I, forward_algorithm: F, threshold: i64, max_iterations: usize) -> (r: Self)
        requires
            0 <= threshold,
        ensures
            r.inverse_algorithm == inverse_algorithm,
            r.forward_algorithm == forward_algorithm,
            r.threshold == threshold,
            r.max_iterations == max_iterations,
            r.wf(),
    {
        HeuristicSolver { inverse_algorithm, forward_algorithm, threshold, max_iterations }
    }

    /// A builder over the two algorithms.
    pub fn builder(inverse_algorithm: I, forward_algorithm: F) -> (r: HeuristicSolverBuilder<
        I,
        F,
    >)
        ensures
            r.inverse_algorithm == inverse_algorithm,
            r.forward_algorithm == forward_algorithm,
            r.threshold == 10_000,
            r.max_iterations == 200,
    {
        HeuristicSolverBuilder::new(inverse_algorithm, forward_algorithm)
    }

    /// The inverse algorithm the solver steps with.
    pub fn inverse_algorithm(&self) -> (r: &I)
        ensures
            r == self.inverse_algorithm,
    {
        &self.inverse_algorithm
    }

    /// The forward algorithm the solver measures with.
    pub fn forward_algorithm(&self) -> (r: &F)
        ensures
            r == self.forward_algorithm,
    {
        &self.forward_algorithm
    }
}

impl<I: InverseKinematicAlgorithm, F: ForwardKinematicAlgorithm> KinematicSolver for HeuristicSolver<
    I,
    F,
> {
    open spec fn solver_wf(&self) -> bool {
        self.wf()
    }

    open spec fn translate_outcome(
        &self,
        params: KinematicParameters,
        state: KinematicState,
        target: Vec3i,
    ) -> SolveOutcome {
        self.spec_solve(params, state, target)
    }

    open spec fn rotate_outcome(
        &self,
        params: KinematicParameters,
        state: KinematicState,
        target: Vec3i,
    ) -> SolveOutcome {
        SolveOutcome::Unreachable
    }

    /// Iterate the inverse algorithm, guided by the forward algorithm,
    /// until the end effector is within the threshold of
    /// `target_position` or the cap is spent: exactly the outcome of
    /// [`solve_from`]. On the threshold itself the target counts as
    /// reached. A refused inverse step is surfaced unchanged.
    fn translate_limb4_end_effector(
        &self,
        params: &KinematicParameters,
        state: &KinematicState,
        target_position: &Vec3i,
    ) -> (r: Result<IKSolverResult, KinematicError>) {
        let mut iterations: usize = 0;
        let mut current: KinematicState = *state;
        proof {
            lemma_i64_square(self.threshold);
        }
        let thr_sq: i128 = (self.threshold as i128) * (self.threshold as i128);
        while iterations < self.max_iterations
            invariant
                self.wf(),
                params.wf(),
                target_position.wf(),
                current.wf(),
                iterations <= self.max_iterations,
                thr_sq == (self.threshold as int) * (self.threshold as int),
                self.spec_solve(*params, *state, *target_position) == add_iterations(
                    solve_from(
                        self.forward_algorithm,
                        self.inverse_algorithm,
                        *params,
                        current,
                        *target_position,
                        self.threshold,
                        (self.max_iterations - iterations) as nat,
                    ),
                    iterations as nat,
                ),
            decreases self.max_iterations - iterations,
        {
            let ghost rem = (self.max_iterations - iterations) as nat;
            let p = self.forward_algorithm.limb4_position_vector(params, &current);
            let d = dist_sq(target_position, &p);
            if d <= thr_sq {
                proof {
                    assert(solve_from(
                        self.forward_algorithm,
                        self.inverse_algorithm,
                        *params,
                        current,
                        *target_position,
                        self.threshold,
                        rem,
                    ) == SolveOutcome::Reached {
                        iterations: 0,
                        dist_sq: d as int,
                        state: current,
                    });
                }
                return Ok(
                    IKSolverResult::Reached {
                        iterations,
                        delta_distance_squared: d,
                        new_state: current,
                    },
                );
            }
            let step = delta(target_position, &p);
            let stepped = self.inverse_algorithm.translate_limb4_end_effector(
                params,
                &current,
                &step,
            );
            match stepped {
                Ok(next) => {
                    proof {
                        assert(solve_from(
                            self.forward_algorithm,
                            self.inverse_algorithm,
                            *params,
                            current,
                            *target_position,
                            self.threshold,
                            rem,
                        ) == add_iterations(
                            solve_from(
                                self.forward_algorithm,
                                self.inverse_algorithm,
                                *params,
                                next,
                                *target_position,
                                self.threshold,
                                (rem - 1) as nat,
                            ),
                            1,
                        ));
                        lemma_add_iterations_compose(
                            solve_from(
                                self.forward_algorithm,
                                self.inverse_algorithm,
                                *params,
                                next,
                                *target_position,
                                self.threshold,
                                (rem - 1) as nat,
                            ),
                            1,
                            iterations as nat,
                        );
                    }
                    current = next;
                    iterations = iterations + 1;
                }
                Err(e) => {
                    proof {
                        assert(solve_from(
                            self.forward_algorithm,
                            self.inverse_algorithm,
                            *params,
                            current,
                            *target_position,
                            self.threshold,
                            rem,
                        ) == SolveOutcome::Failed);
                    }
                    return Err(e);
                }
            }
        }
        proof {
            assert(solve_from(
                self.forward_algorithm,
                self.inverse_algorithm,
                *params,
                current,
                *target_position,
                self.threshold,
                0,
            ) == SolveOutcome::Unreachable);
        }
        Ok(IKSolverResult::Unreachable)
    }

    /// Rotation of the end effector is not solved heuristically: the
    /// solver reports every rotation target unreachable.
    fn rotate_limb4_end_effector(
        &self,
        params: &KinematicParameters,
        state: &KinematicState,
        target_position: &Vec3i,
    ) -> (r: Result<IKSolverResult, KinematicError>) {
        Ok(IKSolverResult::Unreachable)
    }
}

/// Solver convergence law: under the identity algorithms — position read
/// straight from the first three joints, a step added straight onto them
/// — a solve from any state not already within the threshold of a
/// workspace target converges in exactly one corrective step, to zero
/// error, in the state whose first three joints spell the target.
pub proof fn lemma_identity_solver_convergence(
    params: KinematicParameters,
    start: KinematicState,
    target: Vec3i,
    threshold: i64,
    fuel: nat,
)
    requires
        params.wf(),
        start.wf(),
        target.wf(),
        0 <= threshold,
        spec_dist_sq(target, identity_position(start)) > threshold * threshold,
        fuel >= 2,
    ensures
        (solve_from(
            IdentityForwardAlgorithm,
            IdentityInverseAlgorithm,
            params,
            start,
            target,
            threshold,
            fuel,
        ) == SolveOutcome::Reached {
            iterations: 1,
            dist_sq: 0,
            state: KinematicState {
                a0: target.x,
                a1: target.y,
                a2: target.z,
                a3: start.a3,
                a4: start.a4,
            },
        }),
{
    let p = identity_position(start);
    let dv = spec_delta(target, p);
    let next = identity_translated(start, dv);
    assert(next.a0 == target.x && next.a1 == target.y && next.a2 == target.z);
    assert(spec_dist_sq(target, identity_position(next)) == 0);
    assert(IdentityInverseAlgorithm.translate_spec(params, start, dv) == Some(next));
    assert(solve_from(
        IdentityForwardAlgorithm,
        IdentityInverseAlgorithm,
        params,
        next,
        target,
        threshold,
        (fuel - 1) as nat,
    ) == SolveOutcome::Reached { iterations: 0, dist_sq: 0, state: next });
}

/// Solver bounded-work law: when the forward algorithm never reports a
/// position within the threshold of the target and the inverse algorithm
/// always has a step, the solve spends its whole fuel and returns
/// `Unreachable` — never more work than the cap, and never an answer
/// invented early.
pub proof fn lemma_solver_bounded_work<F: ForwardKinematicAlgorithm, I: InverseKinematicAlgorithm>(
    fwd: F,
    inv: I,
    params: KinematicParameters,
    state: KinematicState,
    target: Vec3i,
    threshold: i64,
    fuel: nat,
)
    requires
        forall|s: KinematicState|
            spec_dist_sq(target, #[trigger] fwd.limb4_position_spec(params, s)) > threshold
                * threshold,
        forall|s: KinematicState| (#[trigger] inv.translate_spec(
            params,
            s,
            spec_delta(target, fwd.limb4_position_spec(params, s)),
        )) is Some,
    ensures
        solve_from(fwd, inv, params, state, target, threshold, fuel) == SolveOutcome::Unreachable,
    decreases fuel,
{
    if fuel > 0 {
        let p = fwd.limb4_position_spec(params, state);
        let nopt = inv.translate_spec(params, state, spec_delta(target, p));
        assert(nopt is Some);
        lemma_solver_bounded_work(
            fwd,
            inv,
            params,
            nopt.unwrap(),
            target,
            threshold,
            (fuel - 1) as nat,
        );
    }
}

} // verus!
