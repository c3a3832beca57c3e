//! The forward-kinematics capability: from joint angles to the Cartesian
//! position of each limb's end, with the end effector's orientation.
//!
//! The numerics are pluggable: the solver and the visualization work
//! against this trait, and each implementation carries its own exact
//! specification. Forward functions are total and deterministic; they
//! never fail, and they map the bounded workspace into itself.

use vstd::prelude::*;

use crate::kinematics::{KinematicParameters, KinematicState, Vec3i};

verus! {

/// A 3-by-3 orientation matrix, rows as vectors, entries in millionths.
#[derive(Clone, Copy, Debug, PartialEq, Eq, Structural)]
pub struct Mat3 {
    /// First row.
    pub r0: Vec3i,
    /// Second row.
    pub r1: Vec3i,
    /// Third row.
    pub r2: Vec3i,
}

impl Mat3 {
    /// Every entry within the model bound.
    pub open spec fn wf(self) -> bool {
        self.r0.wf() && self.r1.wf() && self.r2.wf()
    }
}

/// A forward-kinematics algorithm: pure functions from the arm's
/// parameters and joint state to limb-end positions and the end
/// effector's orientation.
pub trait ForwardKinematicAlgorithm: Sized {
    /// The position the first limb's end takes, for contracts.
    spec fn limb0_position_spec(&self, params: KinematicParameters, state: KinematicState) -> Vec3i;

    /// The position the second limb's end takes, for contracts.
    spec fn limb1_position_spec(&self, params: KinematicParameters, state: KinematicState) -> Vec3i;

    /// The position the third limb's end takes, for contracts.
    spec fn limb2_position_spec(&self, params: KinematicParameters, state: KinematicState) -> Vec3i;

    /// The position the fourth limb's end takes, for contracts.
    spec fn limb3_position_spec(&self, params: KinematicParameters, state: KinematicState) -> Vec3i;

    /// The position the end effector takes, for contracts.
    spec fn limb4_position_spec(&self, params: KinematicParameters, state: KinematicState) -> Vec3i;

    /// The end effector's Euler angles, for contracts.
    spec fn limb4_euler_spec(&self, params: KinematicParameters, state: KinematicState) -> Vec3i;

    /// The end effector's orientation matrix, for contracts.
    spec fn limb4_orientation_spec(&self, params: KinematicParameters, state: KinematicState) -> Mat3;

    /// Compute the end-effector position of the first limb.
    fn limb0_position_vector(&self, params: &KinematicParameters, state: &KinematicState) -> (r:
        Vec3i)
        requires
            params.wf(),
            state.wf(),
        ensures
            r == self.limb0_position_spec(*params, *state),
            r.wf(),
    ;

    /// Compute the end-effector position of the second limb.
    fn limb1_position_vector(&self, params: &KinematicParameters, state: &KinematicState) -> (r:
        Vec3i)
        requires
            params.wf(),
            state.wf(),
        ensures
            r == self.limb1_position_spec(*params, *state),
            r.wf(),
    ;

    /// Compute the end-effector position of the third limb.
    fn limb2_position_vector(&self, params: &KinematicParameters, state: &KinematicState) -> (r:
        Vec3i)
        requires
            params.wf(),
            state.wf(),
        ensures
            r == self.limb2_position_spec(*params, *state),
            r.wf(),
    ;

    /// Compute the end-effector position of the fourth limb.
    fn limb3_position_vector(&self, params: &KinematicParameters, state: &KinematicState) -> (r:
        Vec3i)
        requires
            params.wf(),
            state.wf(),
        ensures
            r == self.limb3_position_spec(*params, *state),
            r.wf(),
    ;

    /// Compute the end-effector position of the fifth limb.
    fn limb4_position_vector(&self, params: &KinematicParameters, state: &KinematicState) -> (r:
        Vec3i)
        requires
            params.wf(),
            state.wf(),
        ensures
            r == self.limb4_position_spec(*params, *state),
            r.wf(),
    ;

    /// Compute the vector of Euler angles for the end effector.
    fn limb4_euler_angles(&self, params: &KinematicParameters, state: &KinematicState) -> (r: Vec3i)
        requires
            params.wf(),
            state.wf(),
        ensures
            r == self.limb4_euler_spec(*params, *state),
            r.wf(),
    ;

    /// Compute the orientation matrix of the end effector.
    fn limb4_orientation_matrix(&self, params: &KinematicParameters, state: &KinematicState) -> (r:
        Mat3)
        requires
            params.wf(),
            state.wf(),
        ensures
            r == self.limb4_orientation_spec(*params, *state),
            r.wf(),
    ;
}

/// The reference forward algorithm: it reads the first three joint angles
/// directly as the Cartesian coordinates of every limb end. It closes the
/// loop with [`crate::kinematics::inverse::IdentityInverseAlgorithm`] and
/// anchors the solver's convergence law.
#[derive(Clone, Copy, Debug, PartialEq, Eq, Structural)]
pub struct IdentityForwardAlgorithm;

/// The position every limb reports under the identity interpretation.
pub open spec fn identity_position(state: KinematicState) -> Vec3i {
    Vec3i { x: state.a0, y: state.a1, z: state.a2 }
}

impl ForwardKinematicAlgorithm for IdentityForwardAlgorithm {
    open spec fn limb0_position_spec(&self, params: KinematicParameters, state: KinematicState) -> Vec3i {
        identity_position(state)
    }

    open spec fn limb1_position_spec(&self, params: KinematicParameters, state: KinematicState) -> Vec3i {
        identity_position(state)
    }

    open spec fn limb2_position_spec(&self, params: KinematicParameters, state: KinematicState) -> Vec3i {
        identity_position(state)
    }

    open spec fn limb3_position_spec(&self, params: KinematicParameters, state: KinematicState) -> Vec3i {
        identity_position(state)
    }

    open spec fn limb4_position_spec(&self, params: KinematicParameters, state: KinematicState) -> Vec3i {
        identity_position(state)
    }

    open spec fn limb4_euler_spec(&self, params: KinematicParameters, state: KinematicState) -> Vec3i {
        Vec3i { x: state.a3, y: state.a4, z: 0 }
    }

    open spec fn limb4_orientation_spec(&self, params: KinematicParameters, state: KinematicState) -> Mat3 {
        Mat3 {
            r0: Vec3i { x: 1, y: 0, z: 0 },
            r1: Vec3i { x: 0, y: 1, z: 0 },
            r2: Vec3i { x: 0, y: 0, z: 1 },
        }
    }

    fn limb0_position_vector(&self, params: &KinematicParameters, state: &KinematicState) -> (r:
        Vec3i) {
        Vec3i { x: state.a0, y: state.a1, z: state.a2 }
    }

    fn limb1_position_vector(&self, params: &KinematicParameters, state: &KinematicState) -> (r:
        Vec3i) {
        Vec3i { x: state.a0, y: state.a1, z: state.a2 }
    }

    fn limb2_position_vector(&self, params: &KinematicParameters, state: &KinematicState) -> (r:
        Vec3i) {
        Vec3i { x: state.a0, y: state.a1, z: state.a2 }
    }

    fn limb3_position_vector(&self, params: &KinematicParameters, state: &KinematicState) -> (r:
        Vec3i) {
        Vec3i { x: state.a0, y: state.a1, z: state.a2 }
    }

    fn limb4_position_vector(&self, params: &KinematicParameters, state: &KinematicState) -> (r:
        Vec3i) {
        Vec3i { x: state.a0, y: state.a1, z: state.a2 }
    }

    fn limb4_euler_angles(&self, params: &KinematicParameters, state: &KinematicState) -> (r: Vec3i) {
        Vec3i { x: state.a3, y: state.a4, z: 0 }
    }

    fn limb4_orientation_matrix(&self, params: &KinematicParameters, state: &KinematicState) -> (r:
        Mat3) {
        Mat3 {
            r0: Vec3i { x: 1, y: 0, z: 0 },
            r1: Vec3i { x: 0, y: 1, z: 0 },
            r2: Vec3i { x: 0, y: 0, z: 1 },
        }
    }
}

/// Compute all six vertices of the arm — the origin, then each limb's end
/// — in chain order; this is what the visualization consumes.
pub fn compute_arm_vertices<F: ForwardKinematicAlgorithm>(
    algorithm: &F,
    params: &KinematicParameters,
    state: &KinematicState,
) -> (r: Vec<Vec3i>)
    requires
        params.wf(),
        state.wf(),
    ensures
        r@.len() == 6,
        r@[0] == (Vec3i { x: 0, y: 0, z: 0 }),
        r@[1] == algorithm.limb0_position_spec(*params, *state),
        r@[2] == algorithm.limb1_position_spec(*params, *state),
        r@[3] == algorithm.limb2_position_spec(*params, *state),
        r@[4] == algorithm.limb3_position_spec(*params, *state),
        r@[5] == algorithm.limb4_position_spec(*params, *state),
        forall|k: int| 0 <= k < 6 ==> (#[trigger] r@[k]).wf(),
{
    let mut out: Vec<Vec3i> = Vec::new();
    out.push(Vec3i::zero());
    out.push(algorithm.limb0_position_vector(params, state));
    out.push(algorithm.limb1_position_vector(params, state));
    out.push(algorithm.limb2_position_vector(params, state));
    out.push(algorithm.limb3_position_vector(params, state));
    out.push(algorithm.limb4_position_vector(params, state));
    out
}

} // verus!
