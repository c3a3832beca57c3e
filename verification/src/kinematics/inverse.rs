//! The inverse-kinematics capability: from a desired end-effector
//! displacement to a single incremental change of the joint angles.
//!
//! An algorithm produces one step, not a full solve; the heuristic solver
//! iterates it. A step that would leave the reachable space is refused
//! with `InversionFailure`.

use vstd::prelude::*;

use crate::kinematics::{KinematicError, KinematicParameters, KinematicState, Vec3i, MODEL_LIMIT};

verus! {

/// An inverse-kinematics algorithm: one incremental step of the joint
/// state toward a Cartesian displacement (`translate`) or an orientation
/// displacement (`rotate`) of the end effector.
pub trait InverseKinematicAlgorithm: Sized {
    /// The state one translation step reaches, or `None` when the step is
    /// impossible; for contracts.
    spec fn translate_spec(
        &self,
        params: KinematicParameters,
        state: KinematicState,
        delta: Vec3i,
    ) -> Option<KinematicState>;

    /// The state one rotation step reaches, or `None`; for contracts.
    spec fn rotate_spec(
        &self,
        params: KinematicParameters,
        state: KinematicState,
        delta: Vec3i,
    ) -> Option<KinematicState>;

    /// Translate the end-effector position of the fourth limb by one step
    /// toward `delta`.
    fn translate_limb4_end_effector(
        &self,
        params: &KinematicParameters,
        state: &KinematicState,
        delta: &Vec3i,
    ) -> (r: Result<KinematicState, KinematicError>)
        requires
            params.wf(),
            state.wf(),
            delta.bounded(2 * MODEL_LIMIT as int),
        ensures
            match r {
                Ok(next) => self.translate_spec(*params, *state, *delta) == Some(next)
                    && next.wf(),
                Err(e) => e == KinematicError::InversionFailure && self.translate_spec(
                    *params,
                    *state,
                    *delta,
                ) is None,
            },
    ;

    /// Rotate the end effector of the fourth limb by one step toward the
    /// angular displacement `delta`.
    fn rotate_limb4_end_effector(
        &self,
        params: &KinematicParameters,
        state: &KinematicState,
        delta: &Vec3i,
    ) -> (r: Result<KinematicState, KinematicError>)
        requires
            params.wf(),
            state.wf(),
            delta.bounded(2 * MODEL_LIMIT as int),
        ensures
            match r {
                Ok(next) => self.rotate_spec(*params, *state, *delta) == Some(next) && next.wf(),
                Err(e) => e == KinematicError::InversionFailure && self.rotate_spec(
                    *params,
                    *state,
                    *delta,
                ) is None,
            },
    ;
}

/// The reference inverse algorithm, dual to
/// [`crate::kinematics::forward::IdentityForwardAlgorithm`]: a translation
/// step adds the displacement to the first three joint angles, and a
/// rotation step adds its first two components to the wrist angles. A
/// step is refused exactly when an angle would leave the model bound.
#[derive(Clone, Copy, Debug, PartialEq, Eq, Structural)]
pub struct IdentityInverseAlgorithm;

/// Whether `v` lies within the model bound.
pub open spec fn within_limit(v: int) -> bool {
    -MODEL_LIMIT <= v <= MODEL_LIMIT
}

/// The state an identity translation step reaches, when it stays in
/// bounds.
pub open spec fn identity_translated(state: KinematicState, delta: Vec3i) -> KinematicState {
    KinematicState {
        a0: (state.a0 + delta.x) as i64,
        a1: (state.a1 + delta.y) as i64,
        a2: (state.a2 + delta.z) as i64,
        a3: state.a3,
        a4: state.a4,
    }
}

/// An inverse algorithm that refuses every step: each request is an
/// inversion failure. A solver driven by it fails on the first sample it
/// actually has to move for — it exercises the failure path.
#[derive(Clone, Copy, Debug, PartialEq, Eq, Structural)]
pub struct RefusingInverseAlgorithm;

impl InverseKinematicAlgorithm for RefusingInverseAlgorithm {
    open spec fn translate_spec(
        &self,
        params: KinematicParameters,
        state: KinematicState,
        delta: Vec3i,
    ) -> Option<KinematicState> {
        None
    }

    open spec fn rotate_spec(
        &self,
        params: KinematicParameters,
        state: KinematicState,
        delta: Vec3i,
    ) -> Option<KinematicState> {
        None
    }

    fn translate_limb4_end_effector(
        &self,
        params: &KinematicParameters,
        state: &KinematicState,
        delta: &Vec3i,
    ) -> (r: Result<KinematicState, KinematicError>) {
        Err(KinematicError::InversionFailure)
    }

    fn rotate_limb4_end_effector(
        &self,
        params: &KinematicParameters,
        state: &KinematicState,
        delta: &Vec3i,
    ) -> (r: Result<KinematicState, KinematicError>) {
        Err(KinematicError::InversionFailure)
    }
}

/// An inverse algorithm that never moves: every step hands the state
/// back unchanged. A solver driven by it can only converge where it
/// already stands — it exercises the iteration cap.
#[derive(Clone, Copy, Debug, PartialEq, Eq, Structural)]
pub struct FrozenInverseAlgorithm;

impl InverseKinematicAlgorithm for FrozenInverseAlgorithm {
    open spec fn translate_spec(
        &self,
        params: KinematicParameters,
        state: KinematicState,
        delta: Vec3i,
    ) -> Option<KinematicState> {
        Some(state)
    }

    open spec fn rotate_spec(
        &self,
        params: KinematicParameters,
        state: KinematicState,
        delta: Vec3i,
    ) -> Option<KinematicState> {
        Some(state)
    }

    fn translate_limb4_end_effector(
        &self,
        params: &KinematicParameters,
        state: &KinematicState,
        delta: &Vec3i,
    ) -> (r: Result<KinematicState, KinematicError>) {
        Ok(*state)
    }

    fn rotate_limb4_end_effector(
        &self,
        params: &KinematicParameters,
        state: &KinematicState,
        delta: &Vec3i,
    ) -> (r: Result<KinematicState, KinematicError>) {
        Ok(*state)
    }
}

impl InverseKinematicAlgorithm for IdentityInverseAlgorithm {
    open spec fn translate_spec(
        &self,
        params: KinematicParameters,
        state: KinematicState,
        delta: Vec3i,
    ) -> Option<KinematicState> {
        if within_limit(state.a0 + delta.x) && within_limit(state.a1 + delta.y) && within_limit(
            state.a2 + delta.z,
        ) {
            Some(identity_translated(state, delta))
        } else {
            None
        }
    }

    open spec fn rotate_spec(
        &self,
        params: KinematicParameters,
        state: KinematicState,
        delta: Vec3i,
    ) -> Option<KinematicState> {
        if within_limit(state.a3 + delta.x) && within_limit(state.a4 + delta.y) {
            Some(
                KinematicState {
                    a0: state.a0,
                    a1: state.a1,
                    a2: state.a2,
                    a3: (state.a3 + delta.x) as i64,
                    a4: (state.a4 + delta.y) as i64,
                },
            )
        } else {
            None
        }
    }

    fn translate_limb4_end_effector(
        &self,
        params: &KinematicParameters,
        state: &KinematicState,
        delta: &Vec3i,
    ) -> (r: Result<KinematicState, KinematicError>) {
        let n0 = state.a0 + delta.x;
        let n1 = state.a1 + delta.y;
        let n2 = state.a2 + delta.z;
        if -MODEL_LIMIT <= n0 && n0 <= MODEL_LIMIT && -MODEL_LIMIT <= n1 && n1 <= MODEL_LIMIT
            && -MODEL_LIMIT <= n2 && n2 <= MODEL_LIMIT {
            Ok(KinematicState { a0: n0, a1: n1, a2: n2, a3: state.a3, a4: state.a4 })
        } else {
            Err(KinematicError::InversionFailure)
        }
    }

    fn rotate_limb4_end_effector(
        &self,
        params: &KinematicParameters,
        state: &KinematicState,
        delta: &Vec3i,
    ) -> (r: Result<KinematicState, KinematicError>) {
        let n3 = state.a3 + delta.x;
        let n4 = state.a4 + delta.y;
        if -MODEL_LIMIT <= n3 && n3 <= MODEL_LIMIT && -MODEL_LIMIT <= n4 && n4 <= MODEL_LIMIT {
            Ok(KinematicState { a0: state.a0, a1: state.a1, a2: state.a2, a3: n3, a4: n4 })
        } else {
            Err(KinematicError::InversionFailure)
        }
    }
}

} // verus!
