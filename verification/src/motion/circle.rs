//! A circular motion around a center, in a plane given by a pitch and a
//! yaw, at constant angular velocity, for a number of laps.
//!
//! The circular interpolation numerics are not modeled here: the curve
//! carries its geometry but yields no samples, reporting completion at
//! every time — the behavior the player sees is an empty trajectory.

use vstd::prelude::*;

use crate::kinematics::{Vec3i, MODEL_LIMIT};
use crate::motion::Motion;

verus! {

/// A circular motion. The yaw rotation is around the vertical axis, the
/// pitch rotation around the lateral axis.
#[derive(Clone, Copy, Debug, PartialEq, Eq, Structural)]
pub struct CircleMotion {
    /// The circle's center, in micrometers.
    pub center_position: Vec3i,
    /// The plane's pitch, in microradians.
    pub pitch: i64,
    /// The plane's yaw, in microradians.
    pub yaw: i64,
    /// The circle's radius, in micrometers.
    pub radius: i64,
    /// The angular velocity, in microradians per second.
    pub angular_velocity: i64,
    /// How many laps around the circle.
    pub laps: i64,
}

impl Motion for CircleMotion {
    open spec fn wf(&self) -> bool {
        &&& self.center_position.wf()
        &&& -MODEL_LIMIT <= self.pitch <= MODEL_LIMIT
        &&& -MODEL_LIMIT <= self.yaw <= MODEL_LIMIT
        &&& 0 <= self.radius <= MODEL_LIMIT
        &&& 1 <= self.angular_velocity <= MODEL_LIMIT
        &&& 0 <= self.laps <= MODEL_LIMIT
    }

    open spec fn duration_spec(&self) -> int {
        0
    }

    open spec fn position_spec(&self, t: int) -> Vec3i {
        self.center_position
    }

    proof fn lemma_duration_bounds(&self) {
    }

    proof fn lemma_position_wf(&self, t: int) {
    }

    fn interpolate(&self, t: i64) -> (r: Option<Vec3i>) {
        None
    }
}

} // verus!
