//! The kinematic model of the five-joint arm, in fixed-point units:
//! positions in micrometers, joint angles in microradians.
//!
//! A bounded workspace keeps every intermediate quantity — coordinate
//! differences, squared distances — inside machine integers, so the solver
//! and the curves are proved free of overflow.

use vstd::prelude::*;

pub mod forward;
pub mod inverse;
pub mod solver;

verus! {

/// Every coordinate and angle of the model stays within this bound
/// (a kilometer in micrometers; far beyond any reachable workspace).
pub const MODEL_LIMIT: i64 = 1_000_000_000;

/// A Cartesian vector in micrometers.
#[derive(Clone, Copy, Debug, PartialEq, Eq, Structural)]
pub struct Vec3i {
    /// The x component.
    pub x: i64,
    /// The y component.
    pub y: i64,
    /// The z component.
    pub z: i64,
}

impl Vec3i {
    /// All components within `bound`.
    pub open spec fn bounded(self, bound: int) -> bool {
        &&& -bound <= self.x <= bound
        &&& -bound <= self.y <= bound
        &&& -bound <= self.z <= bound
    }

    /// A vector of the model's workspace.
    pub open spec fn wf(self) -> bool {
        self.bounded(MODEL_LIMIT as int)
    }

    /// The zero vector.
    pub fn zero() -> (r: Self)
        ensures
            r == (Vec3i { x: 0, y: 0, z: 0 }),
    {
        Vec3i { x: 0, y: 0, z: 0 }
    }
}

/// The component-wise difference `a - b`; bounded by twice the workspace
/// when both inputs are well-formed.
pub open spec fn spec_delta(a: Vec3i, b: Vec3i) -> Vec3i {
    Vec3i { x: (a.x - b.x) as i64, y: (a.y - b.y) as i64, z: (a.z - b.z) as i64 }
}

/// The squared Euclidean distance between `a` and `b`, exact.
pub open spec fn spec_dist_sq(a: Vec3i, b: Vec3i) -> int {
    (a.x - b.x) * (a.x - b.x) + (a.y - b.y) * (a.y - b.y) + (a.z - b.z) * (a.z - b.z)
}

/// Compute `a - b` for workspace vectors.
pub fn delta(a: &Vec3i, b: &Vec3i) -> (r: Vec3i)
    requires
        a.wf(),
        b.wf(),
    ensures
        r == spec_delta(*a, *b),
        r.bounded(2 * MODEL_LIMIT as int),
{
    Vec3i { x: a.x - b.x, y: a.y - b.y, z: a.z - b.z }
}

/// Squares of values up to twice the workspace bound stay small enough
/// that three of them fit comfortably in 127 bits.
proof fn lemma_delta_square_bound(d: int)
    by (nonlinear_arith)
    requires
        -2 * (MODEL_LIMIT as int) <= d <= 2 * (MODEL_LIMIT as int),
    ensures
        0 <= d * d <= 4_000_000_000_000_000_000,
{
}

/// Compute the squared distance between two workspace vectors.
pub fn dist_sq(a: &Vec3i, b: &Vec3i) -> (r: i128)
    requires
        a.wf(),
        b.wf(),
    ensures
        r == spec_dist_sq(*a, *b),
        0 <= r <= 12_000_000_000_000_000_000,
{
    let dx = a.x - b.x;
    let dy = a.y - b.y;
    let dz = a.z - b.z;
    proof {
        lemma_delta_square_bound(dx as int);
        lemma_delta_square_bound(dy as int);
        lemma_delta_square_bound(dz as int);
    }
    (dx as i128) * (dx as i128) + (dy as i128) * (dy as i128) + (dz as i128) * (dz as i128)
}

/// Whether `r` is the integer square root of `n`.
pub open spec fn is_isqrt(n: int, r: int) -> bool {
    0 <= r && r * r <= n && n < (r + 1) * (r + 1)
}

/// The integer square root of a nonnegative value, for contracts.
pub open spec fn spec_isqrt(n: int) -> int {
    choose|r: int| is_isqrt(n, r)
}

/// Squaring is monotonic on nonnegative values.
proof fn lemma_square_monotone(a: int, b: int)
    by (nonlinear_arith)
    requires
        0 <= a <= b,
    ensures
        a * a <= b * b,
{
}

/// The integer square root is unique.
pub proof fn lemma_isqrt_unique(n: int, a: int, b: int)
    requires
        is_isqrt(n, a),
        is_isqrt(n, b),
    ensures
        a == b,
{
    if a < b {
        lemma_square_monotone(a + 1, b);
    }
    if b < a {
        lemma_square_monotone(b + 1, a);
    }
}

/// Compute the integer square root: the largest `r` with `r * r <= n`.
pub fn isqrt(n: u128) -> (r: u64)
    ensures
        is_isqrt(n as int, r as int),
        r == spec_isqrt(n as int),
{
    let mut lo: u128 = 0;
    let mut hi: u128 = 18_446_744_073_709_551_616;
    proof {
        assert((18_446_744_073_709_551_616 as int) * (18_446_744_073_709_551_616 as int)
            > n as int);
    }
    while lo + 1 < hi
        invariant
            lo < hi <= 18_446_744_073_709_551_616u128,
            (lo as int) * (lo as int) <= n as int,
            (n as int) < (hi as int) * (hi as int),
        decreases hi - lo,
    {
        let mid = lo + (hi - lo) / 2;
        proof {
            assert(lo < mid < hi);
            assert((mid as int) * (mid as int) < (18_446_744_073_709_551_616 as int) * (
            18_446_744_073_709_551_616 as int)) by (nonlinear_arith)
                requires
                    0 <= (mid as int) < 18_446_744_073_709_551_616 as int,
            ;
        }
        let sq = mid * mid;
        if sq <= n {
            lo = mid;
        } else {
            hi = mid;
        }
    }
    proof {
        assert(is_isqrt(n as int, lo as int));
        lemma_isqrt_unique(n as int, lo as int, spec_isqrt(n as int));
    }
    lo as u64
}

/// The five joint angles, in microradians. The first three joints place
/// the wrist; the last two orient the end effector.
#[derive(Clone, Copy, Debug, PartialEq, Eq, Structural)]
pub struct KinematicState {
    /// Angle of the base joint.
    pub a0: i64,
    /// Angle of the shoulder joint.
    pub a1: i64,
    /// Angle of the elbow joint.
    pub a2: i64,
    /// Angle of the wrist pitch joint.
    pub a3: i64,
    /// Angle of the wrist roll joint.
    pub a4: i64,
}

impl KinematicState {
    /// Every angle within the model bound.
    pub open spec fn wf(self) -> bool {
        &&& -MODEL_LIMIT <= self.a0 <= MODEL_LIMIT
        &&& -MODEL_LIMIT <= self.a1 <= MODEL_LIMIT
        &&& -MODEL_LIMIT <= self.a2 <= MODEL_LIMIT
        &&& -MODEL_LIMIT <= self.a3 <= MODEL_LIMIT
        &&& -MODEL_LIMIT <= self.a4 <= MODEL_LIMIT
    }

    /// The state with every joint at zero.
    pub fn home() -> (r: Self)
        ensures
            r == (KinematicState { a0: 0, a1: 0, a2: 0, a3: 0, a4: 0 }),
            r.wf(),
    {
        KinematicState { a0: 0, a1: 0, a2: 0, a3: 0, a4: 0 }
    }

    /// The five angles as a sequence, for contracts over pose samples.
    pub open spec fn angles(self) -> Seq<i64> {
        seq![self.a0, self.a1, self.a2, self.a3, self.a4]
    }
}

/// The static description of the arm: one length per limb, in
/// micrometers. Immutable after construction.
#[derive(Clone, Copy, Debug, PartialEq, Eq, Structural)]
pub struct KinematicParameters {
    /// Length of the base limb.
    pub l0: i64,
    /// Length of the upper-arm limb.
    pub l1: i64,
    /// Length of the forearm limb.
    pub l2: i64,
    /// Length of the wrist limb.
    pub l3: i64,
    /// Length of the end-effector limb.
    pub l4: i64,
}

impl KinematicParameters {
    /// Every length nonnegative and within the model bound.
    pub open spec fn wf(self) -> bool {
        &&& 0 <= self.l0 <= MODEL_LIMIT
        &&& 0 <= self.l1 <= MODEL_LIMIT
        &&& 0 <= self.l2 <= MODEL_LIMIT
        &&& 0 <= self.l3 <= MODEL_LIMIT
        &&& 0 <= self.l4 <= MODEL_LIMIT
    }
}

/// What the inverse algorithm reports when it cannot produce a step.
#[derive(Clone, Copy, Debug, PartialEq, Eq, Structural)]
pub enum KinematicError {
    /// The requested incremental step leaves the reachable space.
    InversionFailure,
}

} // verus!
