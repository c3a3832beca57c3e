use arm_interface::kinematics::forward::IdentityForwardAlgorithm;
use arm_interface::kinematics::inverse::{
    FrozenInverseAlgorithm, IdentityInverseAlgorithm, RefusingInverseAlgorithm,
};
use arm_interface::kinematics::solver::HeuristicSolver;
use arm_interface::kinematics::{KinematicParameters, KinematicState, Vec3i};
use arm_interface::motion::linear::LinearMotion;
use arm_interface::motion::player::{
    run_motion, Configuration, MotionFailure, MotionSession, MotionVerdict, TraceEvent,
};

fn params() -> KinematicParameters {
    KinematicParameters { l0: 100_000, l1: 200_000, l2: 200_000, l3: 100_000, l4: 50_000 }
}

fn identity_solver() -> HeuristicSolver<IdentityInverseAlgorithm, IdentityForwardAlgorithm> {
    // A zero threshold: every sample is tracked exactly.
    HeuristicSolver::builder(IdentityInverseAlgorithm, IdentityForwardAlgorithm)
        .with_threshold(0)
        .build()
}

/// Replays the trace's own accounting: the mirrored free count never
/// goes below zero, never exceeds the capacity, and every push finds a
/// free slot.
fn check_flow(trace: &[TraceEvent], capacity: u64) -> usize {
    let mut available: i64 = capacity as i64;
    let mut pushes = 0;
    for event in trace {
        match event {
            TraceEvent::ClearPoseBuffer => {}
            TraceEvent::QueryCapacity => available = capacity as i64,
            TraceEvent::Push(_) => {
                assert!(available >= 1, "pushed into a full buffer");
                available -= 1;
                pushes += 1;
            }
            TraceEvent::Drained(g) => {
                available = (*g).min(capacity) as i64;
            }
        }
        assert!(available >= 0);
        assert!(available <= capacity as i64);
    }
    pushes
}

#[test]
fn backpressure_pushes_every_sample_within_the_buffer() {
    // Two hundred samples, a buffer of four, four slots granted whenever
    // the buffer fills: the run completes with exactly two hundred pushes.
    let motion = LinearMotion::new(
        Vec3i { x: 0, y: 0, z: 0 },
        Vec3i { x: 200_000, y: 0, z: 0 },
        1_000_000,
    );
    assert_eq!(motion.duration_us, 200_000);
    let configuration = Configuration::new(1_000);
    let drains = vec![4u64; 49];
    let run = run_motion(
        &motion,
        &identity_solver(),
        &params(),
        &KinematicState::home(),
        4,
        &drains,
        &configuration,
        None,
    );
    assert!(matches!(run.verdict, MotionVerdict::Completed));
    let pushes = check_flow(&run.trace, 4);
    assert_eq!(pushes, 200);
    assert_eq!(run.trace.len(), 2 + 200 + 49);
    assert_eq!(run.trace[0], TraceEvent::ClearPoseBuffer);
    assert_eq!(run.trace[1], TraceEvent::QueryCapacity);
}

#[test]
fn a_stop_clears_the_buffer_and_pushes_nothing_more() {
    let motion = LinearMotion::new(
        Vec3i { x: 0, y: 0, z: 0 },
        Vec3i { x: 100_000, y: 0, z: 0 },
        50_000,
    );
    let configuration = Configuration::new(50_000);
    let drains = vec![16u64; 8];
    let run = run_motion(
        &motion,
        &identity_solver(),
        &params(),
        &KinematicState::home(),
        16,
        &drains,
        &configuration,
        Some(7),
    );
    assert!(matches!(run.verdict, MotionVerdict::Stopped));
    let pushes = check_flow(&run.trace, 16);
    assert_eq!(pushes, 7);
    // The last packet after the stop is the buffer clear, and no push
    // follows it.
    assert_eq!(*run.trace.last().unwrap(), TraceEvent::ClearPoseBuffer);
}

#[test]
fn the_scripted_scenario_streams_forty_monotonic_poses() {
    // A tenth of a meter at five centimeters per second, sampled every
    // fifty milliseconds: forty poses, each farther along the line.
    let motion = LinearMotion::new(
        Vec3i { x: 0, y: 0, z: 0 },
        Vec3i { x: 100_000, y: 0, z: 0 },
        50_000,
    );
    assert_eq!(motion.duration_us, 2_000_000);
    let configuration = Configuration::new(50_000);
    let drains = vec![16u64; 4];
    let run = run_motion(
        &motion,
        &identity_solver(),
        &params(),
        &KinematicState::home(),
        16,
        &drains,
        &configuration,
        None,
    );
    assert!(matches!(run.verdict, MotionVerdict::Completed));
    let pushes = check_flow(&run.trace, 16);
    assert_eq!(pushes, 40);
    let mut previous = -1i64;
    let mut count = 0;
    for event in &run.trace {
        if let TraceEvent::Push(sample) = event {
            assert_eq!(sample.duration_us, 50_000);
            if count > 0 {
                assert!(sample.angles.a0 > previous, "poses advance along the line");
            }
            previous = sample.angles.a0;
            count += 1;
        }
    }
    // The fortieth sample stands at the last sampling time before the
    // curve completes: one step short of the full tenth of a meter.
    assert_eq!(run.final_state.a0, 97_500);
}

#[test]
fn an_unreachable_sample_aborts_with_a_clear() {
    let motion = LinearMotion::new(
        Vec3i { x: 0, y: 0, z: 0 },
        Vec3i { x: 100_000, y: 0, z: 0 },
        50_000,
    );
    let solver = HeuristicSolver::builder(FrozenInverseAlgorithm, IdentityForwardAlgorithm)
        .with_threshold(0)
        .with_max_iterations(10)
        .build();
    let configuration = Configuration::new(50_000);
    let drains = vec![16u64; 4];
    let run = run_motion(
        &motion,
        &solver,
        &params(),
        &KinematicState { a0: 1, a1: 0, a2: 0, a3: 0, a4: 0 },
        16,
        &drains,
        &configuration,
        None,
    );
    assert!(matches!(
        run.verdict,
        MotionVerdict::Failed(MotionFailure::TargetUnreachable)
    ));
    assert_eq!(check_flow(&run.trace, 16), 0);
    assert_eq!(*run.trace.last().unwrap(), TraceEvent::ClearPoseBuffer);
}

#[test]
fn exhausted_drain_grants_starve_the_run() {
    let motion = LinearMotion::new(
        Vec3i { x: 0, y: 0, z: 0 },
        Vec3i { x: 100_000, y: 0, z: 0 },
        50_000,
    );
    let configuration = Configuration::new(50_000);
    let drains: Vec<u64> = vec![];
    let run = run_motion(
        &motion,
        &identity_solver(),
        &params(),
        &KinematicState::home(),
        0,
        &drains,
        &configuration,
        None,
    );
    assert!(matches!(
        run.verdict,
        MotionVerdict::Failed(MotionFailure::BufferStarved)
    ));
    assert_eq!(check_flow(&run.trace, 0), 0);
    assert_eq!(*run.trace.last().unwrap(), TraceEvent::ClearPoseBuffer);
}

#[test]
fn the_session_ledger_tracks_slots_and_the_clock() {
    let mut session = MotionSession::begin(4, 1_000, KinematicState::home());
    assert_eq!(session.available, 4);
    assert_eq!(session.t_us, 0);
    assert!(!session.must_wait());
    let step = KinematicState { a0: 42, a1: 0, a2: 0, a3: 0, a4: 0 };
    for _ in 0..4 {
        session.record_push(step);
    }
    assert!(session.must_wait());
    assert_eq!(session.pushed, 4);
    assert_eq!(session.t_us, 4_000);
    assert_eq!(session.state, step);
    // A grant larger than the buffer is clamped to the capacity.
    session.refresh_available(9);
    assert_eq!(session.available, 4);
    session.refresh_available(2);
    assert_eq!(session.available, 2);
}

#[test]
fn a_refused_step_aborts_the_motion_with_a_clear() {
    let motion = LinearMotion::new(
        Vec3i { x: 0, y: 0, z: 0 },
        Vec3i { x: 100_000, y: 0, z: 0 },
        50_000,
    );
    let solver = HeuristicSolver::builder(RefusingInverseAlgorithm, IdentityForwardAlgorithm)
        .with_threshold(0)
        .build();
    let configuration = Configuration::new(50_000);
    let drains = vec![16u64; 4];
    let run = run_motion(
        &motion,
        &solver,
        &params(),
        &KinematicState { a0: 1, a1: 0, a2: 0, a3: 0, a4: 0 },
        16,
        &drains,
        &configuration,
        None,
    );
    assert!(matches!(run.verdict, MotionVerdict::Failed(MotionFailure::StepRefused)));
    assert_eq!(*run.trace.last().unwrap(), TraceEvent::ClearPoseBuffer);
}
