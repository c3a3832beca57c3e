//! A straight-line motion from an original position to a target position
//! at constant speed.
//!
//! The duration is the distance divided by the speed; the position at
//! time `t` is the original position plus the proportional share of the
//! displacement — it starts at the original position and ends at the
//! target.

use vstd::prelude::*;

use vstd::arithmetic::div_mod::{lemma_div_is_ordered, lemma_div_pos_is_pos};
use vstd::arithmetic::mul::{lemma_mul_inequality, lemma_mul_nonnegative};

use crate::kinematics::{is_isqrt, isqrt, dist_sq, spec_dist_sq, Vec3i, MODEL_LIMIT};
use crate::motion::{Motion, MAX_DURATION_US};

verus! {

/// Microseconds in a second: time is counted in microseconds, speed in
/// micrometers per second.
pub const US_PER_SECOND: i64 = 1_000_000;

/// A straight-line motion at constant speed.
#[derive(Clone, Copy, Debug, PartialEq, Eq, Structural)]
pub struct LinearMotion {
    /// Where the motion starts, in micrometers.
    pub original_position: Vec3i,
    /// Where the motion ends, in micrometers.
    pub target_position: Vec3i,
    /// The speed along the line, in micrometers per second.
    pub speed: i64,
    /// The straight-line distance, in micrometers; fixed at construction.
    pub distance_um: i64,
    /// The motion's duration, in microseconds; fixed at construction.
    pub duration_us: i64,
}

/// One coordinate of the interpolated position: the share `t / dur` of
/// the displacement, added to the origin, with the division carried out
/// on a nonnegative numerator.
pub open spec fn spec_component_at(o: i64, tgt: i64, t: int, dur: int) -> i64 {
    if dur <= 0 {
        o
    } else if tgt >= o {
        (o + (tgt - o) * t / dur) as i64
    } else {
        (o - (o - tgt) * t / dur) as i64
    }
}

/// A nonnegative share of a displacement never exceeds the displacement.
proof fn lemma_scale_bound(d: int, t: int, dur: int)
    requires
        0 <= d,
        0 <= t < dur,
    ensures
        0 <= d * t / dur <= d,
{
    lemma_mul_nonnegative(d, t);
    lemma_div_pos_is_pos(d * t, dur);
    lemma_mul_inequality(t, dur, d);
    assert(d * t == t * d) by (nonlinear_arith);
    assert(d * dur == dur * d) by (nonlinear_arith);
    lemma_div_is_ordered(d * t, d * dur, dur);
    assert(d * dur / dur == d) by (nonlinear_arith)
        requires
            dur > 0,
    ;
}

impl LinearMotion {
    /// A usable linear motion: workspace endpoints, a positive speed, and
    /// the stored distance and duration agreeing with them.
    pub open spec fn wf_linear(self) -> bool {
        &&& self.original_position.wf()
        &&& self.target_position.wf()
        &&& 1 <= self.speed <= MODEL_LIMIT
        &&& is_isqrt(
            spec_dist_sq(self.target_position, self.original_position),
            self.distance_um as int,
        )
        &&& self.distance_um <= 3_500_000_000
        &&& self.duration_us == self.distance_um * (US_PER_SECOND as int) / (self.speed as int)
    }

    /// Build the motion, measuring its distance and duration.
    pub fn new(original_position: Vec3i, target_position: Vec3i, speed: i64) -> (r: Self)
        requires
            original_position.wf(),
            target_position.wf(),
            1 <= speed <= MODEL_LIMIT,
        ensures
            r.original_position == original_position,
            r.target_position == target_position,
            r.speed == speed,
            r.wf_linear(),
            r.wf(),
    {
        let d2 = dist_sq(&target_position, &original_position);
        let distance = isqrt(d2 as u128);
        proof {
            assert((3_500_000_001 as int) * (3_500_000_001 as int)
                > 12_000_000_000_000_000_000) by (nonlinear_arith);
            if distance as int > 3_500_000_000 {
                lemma_mul_inequality(
                    3_500_000_001,
                    distance as int,
                    distance as int,
                );
                assert((3_500_000_001 as int) * (distance as int) >= (3_500_000_001 as int) * (
                3_500_000_001 as int)) by (nonlinear_arith)
                    requires
                        distance as int >= 3_500_000_001,
                ;
            }
        }
        let distance_um = distance as i64;
        let duration_us = distance_um * US_PER_SECOND / speed;
        proof {
            lemma_mul_nonnegative(distance_um as int, US_PER_SECOND as int);
            lemma_div_pos_is_pos(distance_um as int * (US_PER_SECOND as int), speed as int);
        }
        LinearMotion { original_position, target_position, speed, distance_um, duration_us }
    }
}

impl Motion for LinearMotion {
    open spec fn wf(&self) -> bool {
        self.wf_linear()
    }

    open spec fn duration_spec(&self) -> int {
        self.duration_us as int
    }

    open spec fn position_spec(&self, t: int) -> Vec3i {
        Vec3i {
            x: spec_component_at(
                self.original_position.x,
                self.target_position.x,
                t,
                self.duration_us as int,
            ),
            y: spec_component_at(
                self.original_position.y,
                self.target_position.y,
                t,
                self.duration_us as int,
            ),
            z: spec_component_at(
                self.original_position.z,
                self.target_position.z,
                t,
                self.duration_us as int,
            ),
        }
    }

    proof fn lemma_duration_bounds(&self) {
        lemma_mul_nonnegative(self.distance_um as int, US_PER_SECOND as int);
        lemma_div_pos_is_pos(self.distance_um as int * (US_PER_SECOND as int), self.speed as int);
        assert(self.distance_um as int * (US_PER_SECOND as int) <= (3_500_000_000 as int) * (
        1_000_000 as int)) by (nonlinear_arith)
            requires
                0 <= self.distance_um as int <= 3_500_000_000,
        ;
        lemma_div_is_ordered(
            self.distance_um as int * (US_PER_SECOND as int),
            3_500_000_000_000_000,
            self.speed as int,
        );
        lemma_div_is_ordered_by_one(3_500_000_000_000_000, self.speed as int);
    }

    proof fn lemma_position_wf(&self, t: int) {
        let dur = self.duration_us as int;
        lemma_component_wf(self.original_position.x, self.target_position.x, t, dur);
        lemma_component_wf(self.original_position.y, self.target_position.y, t, dur);
        lemma_component_wf(self.original_position.z, self.target_position.z, t, dur);
    }

    fn interpolate(&self, t: i64) -> (r: Option<Vec3i>) {
        if t >= self.duration_us {
            return None;
        }
        proof {
            self.lemma_position_wf(t as int);
        }
        let x = component_at(self.original_position.x, self.target_position.x, t, self.duration_us);
        let y = component_at(self.original_position.y, self.target_position.y, t, self.duration_us);
        let z = component_at(self.original_position.z, self.target_position.z, t, self.duration_us);
        Some(Vec3i { x, y, z })
    }
}

/// Dividing a nonnegative value by a positive divisor cannot grow it.
proof fn lemma_div_is_ordered_by_one(x: int, d: int)
    requires
        0 <= x,
        1 <= d,
    ensures
        x / d <= x,
{
    assert(x / d <= x) by (nonlinear_arith)
        requires
            0 <= x && 1 <= d,
    ;
}

/// An interpolated coordinate stays between its endpoints, hence in the
/// workspace.
proof fn lemma_component_wf(o: i64, tgt: i64, t: int, dur: int)
    requires
        -MODEL_LIMIT <= o <= MODEL_LIMIT,
        -MODEL_LIMIT <= tgt <= MODEL_LIMIT,
        0 <= t < dur,
    ensures
        -MODEL_LIMIT <= spec_component_at(o, tgt, t, dur) <= MODEL_LIMIT,
{
    if tgt >= o {
        lemma_scale_bound(tgt - o, t, dur);
    } else {
        lemma_scale_bound(o - tgt, t, dur);
    }
}

/// Compute one interpolated coordinate, the wide arithmetic in 128 bits.
fn component_at(o: i64, tgt: i64, t: i64, dur: i64) -> (r: i64)
    requires
        -MODEL_LIMIT <= o <= MODEL_LIMIT,
        -MODEL_LIMIT <= tgt <= MODEL_LIMIT,
        0 <= t < dur,
        dur <= MAX_DURATION_US,
    ensures
        r == spec_component_at(o, tgt, t as int, dur as int),
{
    proof {
        if tgt >= o {
            lemma_scale_bound((tgt - o) as int, t as int, dur as int);
            assert(((tgt - o) as int) * (t as int) < 170_141_183_460_469_231_731_687_303_715_884_105_727)
                by (nonlinear_arith)
                requires
                    0 <= (tgt - o) as int <= 2_000_000_000 && 0 <= t as int
                        <= 4_000_000_000_000_000,
            ;
        } else {
            lemma_scale_bound((o - tgt) as int, t as int, dur as int);
            assert(((o - tgt) as int) * (t as int) < 170_141_183_460_469_231_731_687_303_715_884_105_727)
                by (nonlinear_arith)
                requires
                    0 <= (o - tgt) as int <= 2_000_000_000 && 0 <= t as int
                        <= 4_000_000_000_000_000,
            ;
        }
    }
    if tgt >= o {
        let share = ((tgt - o) as i128) * (t as i128) / (dur as i128);
        o + (share as i64)
    } else {
        let share = ((o - tgt) as i128) * (t as i128) / (dur as i128);
        o - (share as i64)
    }
}

} // verus!
