//! Motion curves: time-indexed trajectories for the end effector, sampled
//! by the motion player at a fixed step.
//!
//! A curve has a finite duration in microseconds and yields a workspace
//! position for every time strictly before it; from the duration on it
//! reports completion. It need not be restartable, but its positions are
//! pure functions of time.

use vstd::prelude::*;

use crate::kinematics::Vec3i;

pub mod circle;
pub mod linear;
pub mod player;

verus! {

/// No curve lasts longer than this (in microseconds; about 126 years),
/// so sampling times never overflow a 64-bit count of microseconds.
pub const MAX_DURATION_US: i64 = 4_000_000_000_000_000;

/// A time-indexed trajectory: `interpolate(t)` yields the target position
/// at `t` microseconds after the start, or `None` once the curve is
/// complete — exactly from its duration on.
pub trait Motion: Sized {
    /// Whether the curve is usable; for contracts.
    spec fn wf(&self) -> bool;

    /// The curve's duration in microseconds, for contracts.
    spec fn duration_spec(&self) -> int;

    /// The position at time `t`, for contracts; meaningful for
    /// `0 <= t < duration_spec()`.
    spec fn position_spec(&self, t: int) -> Vec3i;

    /// A usable curve's duration is nonnegative and bounded.
    proof fn lemma_duration_bounds(&self)
        requires
            self.wf(),
        ensures
            0 <= self.duration_spec() <= MAX_DURATION_US,
    ;

    /// A usable curve stays in the workspace while it lasts.
    proof fn lemma_position_wf(&self, t: int)
        requires
            self.wf(),
            0 <= t < self.duration_spec(),
        ensures
            self.position_spec(t).wf(),
    ;

    /// Interpolate the position at `t` microseconds, or report completion.
    fn interpolate(&self, t: i64) -> (r: Option<Vec3i>)
        requires
            self.wf(),
            0 <= t,
        ensures
            match r {
                Some(p) => t < self.duration_spec() && p == self.position_spec(t as int)
                    && p.wf(),
                None => t >= self.duration_spec(),
            },
    ;
}

} // verus!
