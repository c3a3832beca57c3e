//! The host-facing adaption layer: the queries and commands the user
//! interface exchanges with the arm, and the decisions behind them.
//!
//! The windowed shell itself, with its serialization, stays outside;
//! these functions compute what it shows and what it changes.

use vstd::prelude::*;

use crate::kinematics::forward::{compute_arm_vertices, ForwardKinematicAlgorithm};
use crate::kinematics::solver::{IKSolverResult, KinematicSolver, SolveOutcome};
use crate::kinematics::{KinematicError, KinematicParameters, KinematicState, Vec3i};

verus! {

/// The current joint state, as the interface reads it.
#[derive(Clone, Copy, Debug, PartialEq, Eq, Structural)]
pub struct GetKinematicStateResponse {
    /// The five joint angles, in microradians.
    pub kinematic_state: KinematicState,
}

/// The arm's parameters, as the interface reads them.
#[derive(Clone, Copy, Debug, PartialEq, Eq, Structural)]
pub struct GetKinematicParametersResponse {
    /// The limb lengths, in micrometers.
    pub kinematic_parameters: KinematicParameters,
}

/// A direct replacement of the joint state.
#[derive(Clone, Copy, Debug, PartialEq, Eq, Structural)]
pub struct UpdateKinematicStateCommand {
    /// The joint state to take over.
    pub new_kinematic_state: KinematicState,
}

/// Move the end effector to this target position.
#[derive(Clone, Copy, Debug, PartialEq, Eq, Structural)]
pub struct MoveEndEffectorCommand {
    /// The target, in micrometers.
    pub target_position: Vec3i,
}

/// What the interface learns from a move request.
#[derive(Clone, Copy, Debug, PartialEq, Eq, Structural)]
pub enum MoveEndEffectorResponse {
    /// No reachable state was found within the solver's cap.
    Unreachable,
    /// The target was reached.
    Reached {
        /// The squared remaining error, in square micrometers.
        delta_distance_squared: i128,
        /// Corrective steps the solver took.
        iterations: usize,
    },
}

/// The arm's vertices for the visualization: origin, then each limb end.
pub struct GetVerticesResponse {
    /// Six vertices in chain order, in micrometers.
    pub vertices: Vec<Vec3i>,
}

/// Published whenever the joint state changes: the state and the
/// vertices it puts the arm at.
pub struct ArmStateChangedEvent {
    /// The new joint state.
    pub kinematic_state: KinematicState,
    /// The six vertices it implies, in chain order.
    pub vertices: Vec<Vec3i>,
}

/// Decide a move request: solve for the target and say what the
/// interface reports and whether the arm's state is to be replaced.
/// Exactly the solver's outcome: a reached state is published and
/// reported with its step count and remaining error; an unreachable
/// target changes nothing; a refused step surfaces the kinematic error.
pub fn move_end_effector<K: KinematicSolver>(
    solver: &K,
    params: &KinematicParameters,
    state: &KinematicState,
    command: &MoveEndEffectorCommand,
) -> (r: Result<(MoveEndEffectorResponse, Option<KinematicState>), KinematicError>)
    requires
        solver.solver_wf(),
        params.wf(),
        state.wf(),
        command.target_position.wf(),
    ensures
        match r {
            Ok((response, update)) => match solver.translate_outcome(
                *params,
                *state,
                command.target_position,
            ) {
                SolveOutcome::Reached { iterations, dist_sq, state: fin } => response
                    == MoveEndEffectorResponse::Reached {
                    delta_distance_squared: dist_sq as i128,
                    iterations: iterations as usize,
                } && update == Some(fin) && fin.wf(),
                SolveOutcome::Unreachable => response == MoveEndEffectorResponse::Unreachable
                    && update is None,
                SolveOutcome::Failed => false,
            },
            Err(e) => e == KinematicError::InversionFailure && solver.translate_outcome(
                *params,
                *state,
                command.target_position,
            ) is Failed,
        },
{
    let solved = solver.translate_limb4_end_effector(params, state, &command.target_position)?;
    match solved {
        IKSolverResult::Reached { iterations, delta_distance_squared, new_state } => Ok(
            (
                MoveEndEffectorResponse::Reached { delta_distance_squared, iterations },
                Some(new_state),
            ),
        ),
        IKSolverResult::Unreachable => Ok((MoveEndEffectorResponse::Unreachable, None)),
    }
}

/// The vertices the visualization consumes, at the given state.
pub fn get_vertices<F: ForwardKinematicAlgorithm>(
    algorithm: &F,
    params: &KinematicParameters,
    state: &KinematicState,
) -> (r: GetVerticesResponse)
    requires
        params.wf(),
        state.wf(),
    ensures
        r.vertices@.len() == 6,
        r.vertices@[0] == (Vec3i { x: 0, y: 0, z: 0 }),
        r.vertices@[1] == algorithm.limb0_position_spec(*params, *state),
        r.vertices@[2] == algorithm.limb1_position_spec(*params, *state),
        r.vertices@[3] == algorithm.limb2_position_spec(*params, *state),
        r.vertices@[4] == algorithm.limb3_position_spec(*params, *state),
        r.vertices@[5] == algorithm.limb4_position_spec(*params, *state),
{
    GetVerticesResponse { vertices: compute_arm_vertices(algorithm, params, state) }
}

/// Assemble the state-changed notification the interface subscribes to:
/// the new state beside the vertices it implies.
pub fn arm_state_changed_event<F: ForwardKinematicAlgorithm>(
    algorithm: &F,
    params: &KinematicParameters,
    state: &KinematicState,
) -> (r: ArmStateChangedEvent)
    requires
        params.wf(),
        state.wf(),
    ensures
        r.kinematic_state == *state,
        r.vertices@.len() == 6,
        r.vertices@[0] == (Vec3i { x: 0, y: 0, z: 0 }),
        r.vertices@[1] == algorithm.limb0_position_spec(*params, *state),
        r.vertices@[2] == algorithm.limb1_position_spec(*params, *state),
        r.vertices@[3] == algorithm.limb2_position_spec(*params, *state),
        r.vertices@[4] == algorithm.limb3_position_spec(*params, *state),
        r.vertices@[5] == algorithm.limb4_position_spec(*params, *state),
{
    ArmStateChangedEvent {
        kinematic_state: *state,
        vertices: compute_arm_vertices(algorithm, params, state),
    }
}

} // verus!
