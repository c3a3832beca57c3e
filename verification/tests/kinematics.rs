use arm_interface::frontend::{move_end_effector, MoveEndEffectorCommand, MoveEndEffectorResponse};
use arm_interface::kinematics::forward::{
    compute_arm_vertices, ForwardKinematicAlgorithm, IdentityForwardAlgorithm,
};
use arm_interface::kinematics::inverse::{
    FrozenInverseAlgorithm, IdentityInverseAlgorithm, InverseKinematicAlgorithm,
    RefusingInverseAlgorithm,
};
use arm_interface::kinematics::solver::{HeuristicSolver, IKSolverResult, KinematicSolver};
use arm_interface::kinematics::{
    isqrt, KinematicError, KinematicParameters, KinematicState, Vec3i, MODEL_LIMIT,
};

fn params() -> KinematicParameters {
    KinematicParameters { l0: 100_000, l1: 200_000, l2: 200_000, l3: 100_000, l4: 50_000 }
}

#[test]
fn identity_solver_reaches_the_target_in_one_step() {
    let solver = HeuristicSolver::builder(IdentityInverseAlgorithm, IdentityForwardAlgorithm)
        .build();
    let start = KinematicState { a0: 1_000_000, a1: 0, a2: 0, a3: 3, a4: 4 };
    let target = Vec3i { x: 5_000_000, y: 250_000, z: -125_000 };
    let result = solver
        .translate_limb4_end_effector(&params(), &start, &target)
        .expect("identity inversion cannot fail on a workspace target");
    match result {
        IKSolverResult::Reached { iterations, delta_distance_squared, new_state } => {
            assert_eq!(iterations, 1);
            assert_eq!(delta_distance_squared, 0);
            assert_eq!(
                new_state,
                KinematicState { a0: 5_000_000, a1: 250_000, a2: -125_000, a3: 3, a4: 4 }
            );
        }
        IKSolverResult::Unreachable => panic!("the identity pair converges"),
    }
}

#[test]
fn a_start_already_on_the_threshold_counts_as_reached() {
    // Exactly the threshold away: the tie breaks toward Reached, with no step.
    let solver = HeuristicSolver::builder(IdentityInverseAlgorithm, IdentityForwardAlgorithm)
        .with_threshold(10_000)
        .build();
    let start = KinematicState { a0: 0, a1: 0, a2: 0, a3: 0, a4: 0 };
    let target = Vec3i { x: 10_000, y: 0, z: 0 };
    match solver.translate_limb4_end_effector(&params(), &start, &target).unwrap() {
        IKSolverResult::Reached { iterations, delta_distance_squared, new_state } => {
            assert_eq!(iterations, 0);
            assert_eq!(delta_distance_squared, 100_000_000);
            assert_eq!(new_state, start);
        }
        IKSolverResult::Unreachable => panic!("on-threshold targets are reached"),
    }
}

#[test]
fn a_solver_that_cannot_converge_stops_at_its_cap() {
    // Zero threshold, an inverse step that never moves: unreachable after
    // the ten configured iterations.
    let solver = HeuristicSolver::builder(FrozenInverseAlgorithm, IdentityForwardAlgorithm)
        .with_threshold(0)
        .with_max_iterations(10)
        .build();
    let start = KinematicState { a0: 0, a1: 0, a2: 0, a3: 0, a4: 0 };
    let target = Vec3i { x: 1, y: 0, z: 0 };
    let result = solver.translate_limb4_end_effector(&params(), &start, &target).unwrap();
    assert_eq!(result, IKSolverResult::Unreachable);
}

#[test]
fn an_out_of_range_step_is_an_inversion_failure() {
    let state = KinematicState { a0: MODEL_LIMIT, a1: 0, a2: 0, a3: 0, a4: 0 };
    let delta = Vec3i { x: 1, y: 0, z: 0 };
    assert_eq!(
        IdentityInverseAlgorithm.translate_limb4_end_effector(&params(), &state, &delta),
        Err(KinematicError::InversionFailure)
    );
}

#[test]
fn vertices_run_from_the_origin_to_the_end_effector() {
    let state = KinematicState { a0: 10, a1: 20, a2: 30, a3: 0, a4: 0 };
    let vertices = compute_arm_vertices(&IdentityForwardAlgorithm, &params(), &state);
    assert_eq!(vertices.len(), 6);
    assert_eq!(vertices[0], Vec3i { x: 0, y: 0, z: 0 });
    assert_eq!(vertices[5], Vec3i { x: 10, y: 20, z: 30 });
}

#[test]
fn move_end_effector_reports_the_reach_and_the_new_state() {
    let solver = HeuristicSolver::builder(IdentityInverseAlgorithm, IdentityForwardAlgorithm)
        .build();
    let state = KinematicState::home();
    let command = MoveEndEffectorCommand { target_position: Vec3i { x: 70_000, y: 0, z: 0 } };
    let (response, update) = move_end_effector(&solver, &params(), &state, &command).unwrap();
    match response {
        MoveEndEffectorResponse::Reached { delta_distance_squared, iterations } => {
            assert_eq!(delta_distance_squared, 0);
            assert_eq!(iterations, 1);
        }
        MoveEndEffectorResponse::Unreachable => panic!("the identity pair converges"),
    }
    assert_eq!(update, Some(KinematicState { a0: 70_000, a1: 0, a2: 0, a3: 0, a4: 0 }));
}

#[test]
fn move_end_effector_leaves_the_state_alone_when_unreachable() {
    let solver = HeuristicSolver::builder(FrozenInverseAlgorithm, IdentityForwardAlgorithm)
        .with_threshold(0)
        .with_max_iterations(5)
        .build();
    let state = KinematicState::home();
    let command = MoveEndEffectorCommand { target_position: Vec3i { x: 1, y: 0, z: 0 } };
    let (response, update) = move_end_effector(&solver, &params(), &state, &command).unwrap();
    assert_eq!(response, MoveEndEffectorResponse::Unreachable);
    assert_eq!(update, None);
}

#[test]
fn integer_square_roots_are_exact_floors() {
    assert_eq!(isqrt(0), 0);
    assert_eq!(isqrt(1), 1);
    assert_eq!(isqrt(2), 1);
    assert_eq!(isqrt(1_000_000_000_000), 1_000_000);
    assert_eq!(isqrt(999_999_999_999), 999_999);
    assert_eq!(isqrt(u64::MAX as u128), 4_294_967_295);
}

#[test]
fn a_refused_step_surfaces_as_an_inversion_failure() {
    let solver = HeuristicSolver::builder(RefusingInverseAlgorithm, IdentityForwardAlgorithm)
        .with_threshold(0)
        .build();
    let start = KinematicState::home();
    let target = Vec3i { x: 1, y: 0, z: 0 };
    assert_eq!(
        solver.translate_limb4_end_effector(&params(), &start, &target),
        Err(KinematicError::InversionFailure)
    );
}
