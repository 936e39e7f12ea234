//! Three-component fixed-point vectors: the one representation used for
//! points, directions and colors. Every executable operation is proved
//! equal to a spec-level formula over unbounded integers, and the
//! randomized generators are pinned to the same formulas whenever the
//! random source is deterministic.

use vstd::prelude::*;
use crate::fx::{
    SCALE, MUL_IN_MAX, DIV_IN_MAX, iabs, mul_s, div_s, sqrt_s, clamp_s, fx_mul, fx_div, fx_sqrt,
    lemma_mul_s_bound, lemma_mul_s_square_nonneg,
};
use crate::rng::{RandomSource, source_wf, deterministic, next_val, next_src, random_bounded};

verus! {

/// Largest component magnitude accepted for scene geometry: points,
/// sphere centers and radii.
pub const GEOM_MAX: i64 = 1_000_000_000;

/// Largest component magnitude accepted for ray directions and dot
/// product operands.
pub const DIR_MAX: i64 = 1_000_000_000_000;

/// Rejection-sampling attempts before the unit-sphere generator falls
/// back to a fixed interior point.
pub const REJECT_CAP: u64 = 32;

/// The mathematical value of a vector: its components as unbounded
/// integers, still in raw fixed-point units.
pub struct V3 {
    pub x: int,
    pub y: int,
    pub z: int,
}

/// A 3-component fixed-point vector.
#[derive(Clone, Copy, Debug, PartialEq, Eq, Structural)]
pub struct Vec3 {
    pub x: i64,
    pub y: i64,
    pub z: i64,
}

impl View for Vec3 {
    type V = V3;

    open spec fn view(&self) -> V3 {
        V3 { x: self.x as int, y: self.y as int, z: self.z as int }
    }
}

/// All components at most `m` in magnitude.
pub open spec fn bounded(v: V3, m: int) -> bool {
    iabs(v.x) <= m && iabs(v.y) <= m && iabs(v.z) <= m
}

pub open spec fn add_s(a: V3, b: V3) -> V3 {
    V3 { x: a.x + b.x, y: a.y + b.y, z: a.z + b.z }
}

pub open spec fn sub_s(a: V3, b: V3) -> V3 {
    V3 { x: a.x - b.x, y: a.y - b.y, z: a.z - b.z }
}

pub open spec fn neg_s(a: V3) -> V3 {
    V3 { x: -a.x, y: -a.y, z: -a.z }
}

/// Component-wise product, rescaled.
pub open spec fn cmul_s(a: V3, b: V3) -> V3 {
    V3 { x: mul_s(a.x, b.x), y: mul_s(a.y, b.y), z: mul_s(a.z, b.z) }
}

/// Product by a fixed-point scalar.
pub open spec fn smul_s(a: V3, k: int) -> V3 {
    V3 { x: mul_s(a.x, k), y: mul_s(a.y, k), z: mul_s(a.z, k) }
}

/// Quotient by a positive fixed-point scalar.
pub open spec fn sdiv_s(a: V3, k: int) -> V3
    recommends
        k > 0,
{
    V3 { x: div_s(a.x, k), y: div_s(a.y, k), z: div_s(a.z, k) }
}

pub open spec fn dot_s(a: V3, b: V3) -> int {
    mul_s(a.x, b.x) + mul_s(a.y, b.y) + mul_s(a.z, b.z)
}

pub open spec fn cross_s(a: V3, b: V3) -> V3 {
    V3 {
        x: mul_s(a.y, b.z) - mul_s(a.z, b.y),
        y: mul_s(a.z, b.x) - mul_s(a.x, b.z),
        z: mul_s(a.x, b.y) - mul_s(a.y, b.x),
    }
}

pub open spec fn lsq_s(a: V3) -> int {
    dot_s(a, a)
}

pub open spec fn len_s(a: V3) -> int {
    sqrt_s(lsq_s(a))
}

/// Scaling to unit length; the direction of a vector.
pub open spec fn unit_s(a: V3) -> V3
    recommends
        len_s(a) > 0,
{
    sdiv_s(a, len_s(a))
}

/// Components clamped to a symmetric interval.
pub open spec fn clamp3_s(a: V3, m: int) -> V3 {
    V3 { x: clamp_s(a.x, -m, m), y: clamp_s(a.y, -m, m), z: clamp_s(a.z, -m, m) }
}

/// The direction of a vector, made total: a vector too short to carry a
/// direction at this resolution maps to the positive x axis, and each
/// component is saturated at twice the unit scale so that rounding slop
/// on degenerate inputs cannot escape the pipeline's bounds.
pub open spec fn unit_axis_s(a: V3) -> V3 {
    if len_s(a) == 0 {
        V3 { x: SCALE as int, y: 0, z: 0 }
    } else {
        clamp3_s(unit_s(a), 2 * (SCALE as int))
    }
}

/// Mirror reflection of `v` about the plane with normal `n`.
pub open spec fn reflect_s(v: V3, n: V3) -> V3 {
    V3 {
        x: v.x - 2 * mul_s(n.x, dot_s(v, n)),
        y: v.y - 2 * mul_s(n.y, dot_s(v, n)),
        z: v.z - 2 * mul_s(n.z, dot_s(v, n)),
    }
}

/// Below the degeneracy threshold: at this resolution, only the zero
/// vector.
pub open spec fn near_zero_s(a: V3) -> bool {
    a.x == 0 && a.y == 0 && a.z == 0
}

/// One draw per component, in `[0, 1)`.
pub open spec fn random_vector_s(rs: RandomSource) -> (V3, RandomSource) {
    let x = next_val(rs);
    let rs1 = next_src(rs);
    let y = next_val(rs1);
    let rs2 = next_src(rs1);
    let z = next_val(rs2);
    let rs3 = next_src(rs2);
    (V3 { x, y, z }, rs3)
}

/// One draw per component, each mapped to `[min, max]` as
/// `min + (max - min) * draw`.
pub open spec fn random_vector_bounded_s(rs: RandomSource, min: int, max: int) -> (
    V3,
    RandomSource,
) {
    let x = min + mul_s(max - min, next_val(rs));
    let rs1 = next_src(rs);
    let y = min + mul_s(max - min, next_val(rs1));
    let rs2 = next_src(rs1);
    let z = min + mul_s(max - min, next_val(rs2));
    let rs3 = next_src(rs2);
    (V3 { x, y, z }, rs3)
}

/// Rejection sampling of a point inside the unit sphere: draw a vector
/// with components in `[-1, 1]` until its squared length is below one,
/// falling back to a fixed interior point when the attempt budget runs
/// out.
pub open spec fn random_in_unit_sphere_s(rs: RandomSource, attempts: nat) -> (V3, RandomSource)
    decreases attempts,
{
    if attempts == 0 {
        (V3 { x: (SCALE as int) / 2, y: 0, z: 0 }, rs)
    } else {
        let (v, rs1) = random_vector_bounded_s(rs, -(SCALE as int), SCALE as int);
        if lsq_s(v) < SCALE as int {
            (v, rs1)
        } else {
            random_in_unit_sphere_s(rs1, (attempts - 1) as nat)
        }
    }
}

/// A point inside the unit sphere, scaled to unit length.
pub open spec fn random_unit_vector_s(rs: RandomSource) -> (V3, RandomSource) {
    let (v, rs1) = random_in_unit_sphere_s(rs, REJECT_CAP as nat);
    (unit_axis_s(v), rs1)
}

/// A point inside the unit sphere, flipped into the hemisphere of `n`.
pub open spec fn random_in_hemisphere_s(rs: RandomSource, n: V3) -> (V3, RandomSource) {
    let (v, rs1) = random_in_unit_sphere_s(rs, REJECT_CAP as nat);
    if dot_s(v, n) > 0 {
        (v, rs1)
    } else {
        (neg_s(v), rs1)
    }
}

/// Report whether every component of `v` has magnitude at most `m`.
pub fn check_bounded(v: &Vec3, m: i64) -> (r: bool)
    requires
        m >= 0,
    ensures
        r == bounded(v@, m as int),
{
    -m <= v.x && v.x <= m && -m <= v.y && v.y <= m && -m <= v.z && v.z <= m
}

impl Vec3 {
    pub fn add(&self, rhs: &Vec3) -> (r: Vec3)
        requires
            bounded(self@, 4_500_000_000_000_000_000),
            bounded(rhs@, 4_500_000_000_000_000_000),
        ensures
            r@ == add_s(self@, rhs@),
    {
        Vec3 { x: self.x + rhs.x, y: self.y + rhs.y, z: self.z + rhs.z }
    }

    pub fn sub(&self, rhs: &Vec3) -> (r: Vec3)
        requires
            bounded(self@, 4_500_000_000_000_000_000),
            bounded(rhs@, 4_500_000_000_000_000_000),
        ensures
            r@ == sub_s(self@, rhs@),
    {
        Vec3 { x: self.x - rhs.x, y: self.y - rhs.y, z: self.z - rhs.z }
    }

    pub fn neg(&self) -> (r: Vec3)
        requires
            bounded(self@, 4_500_000_000_000_000_000),
        ensures
            r@ == neg_s(self@),
    {
        Vec3 { x: -self.x, y: -self.y, z: -self.z }
    }

    /// Component-wise product: how an attenuation color filters light.
    pub fn mul(&self, rhs: &Vec3) -> (r: Vec3)
        requires
            bounded(self@, MUL_IN_MAX as int),
            bounded(rhs@, MUL_IN_MAX as int),
        ensures
            r@ == cmul_s(self@, rhs@),
    {
        Vec3 {
            x: fx_mul(self.x, rhs.x),
            y: fx_mul(self.y, rhs.y),
            z: fx_mul(self.z, rhs.z),
        }
    }

    /// Product by a fixed-point scalar.
    pub fn scale(&self, k: i64) -> (r: Vec3)
        requires
            bounded(self@, MUL_IN_MAX as int),
            -MUL_IN_MAX <= k <= MUL_IN_MAX,
        ensures
            r@ == smul_s(self@, k as int),
    {
        Vec3 { x: fx_mul(self.x, k), y: fx_mul(self.y, k), z: fx_mul(self.z, k) }
    }

    /// Quotient by a positive fixed-point scalar.
    pub fn div(&self, k: i64) -> (r: Vec3)
        requires
            bounded(self@, DIV_IN_MAX as int),
            k > 0,
        ensures
            r@ == sdiv_s(self@, k as int),
    {
        Vec3 { x: fx_div(self.x, k), y: fx_div(self.y, k), z: fx_div(self.z, k) }
    }

    pub fn add_assign(&mut self, rhs: &Vec3)
        requires
            bounded(old(self)@, 4_500_000_000_000_000_000),
            bounded(rhs@, 4_500_000_000_000_000_000),
        ensures
            final(self)@ == add_s(old(self)@, rhs@),
    {
        self.x = self.x + rhs.x;
        self.y = self.y + rhs.y;
        self.z = self.z + rhs.z;
    }

    pub fn mul_assign(&mut self, k: i64)
        requires
            bounded(old(self)@, MUL_IN_MAX as int),
            -MUL_IN_MAX <= k <= MUL_IN_MAX,
        ensures
            final(self)@ == smul_s(old(self)@, k as int),
    {
        self.x = fx_mul(self.x, k);
        self.y = fx_mul(self.y, k);
        self.z = fx_mul(self.z, k);
    }

    pub fn div_assign(&mut self, k: i64)
        requires
            bounded(old(self)@, DIV_IN_MAX as int),
            k > 0,
        ensures
            final(self)@ == sdiv_s(old(self)@, k as int),
    {
        self.x = fx_div(self.x, k);
        self.y = fx_div(self.y, k);
        self.z = fx_div(self.z, k);
    }

    /// Component selection; indices beyond the third component are a
    /// caller error and excluded.
    pub fn index(&self, idx: usize) -> (r: i64)
        requires
            idx < 3,
        ensures
            idx == 0 ==> r == self.x,
            idx == 1 ==> r == self.y,
            idx == 2 ==> r == self.z,
    {
        if idx == 0 {
            self.x
        } else if idx == 1 {
            self.y
        } else {
            self.z
        }
    }

    pub fn dot(&self, rhs: &Vec3) -> (r: i64)
        requires
            bounded(self@, DIR_MAX as int),
            bounded(rhs@, DIR_MAX as int),
        ensures
            r == dot_s(self@, rhs@),
    {
        proof {
            lemma_mul_s_bound(self@.x, rhs@.x, DIR_MAX as int, DIR_MAX as int);
            lemma_mul_s_bound(self@.y, rhs@.y, DIR_MAX as int, DIR_MAX as int);
            lemma_mul_s_bound(self@.z, rhs@.z, DIR_MAX as int, DIR_MAX as int);
        }
        fx_mul(self.x, rhs.x) + fx_mul(self.y, rhs.y) + fx_mul(self.z, rhs.z)
    }

    pub fn cross(&self, rhs: Vec3) -> (r: Vec3)
        requires
            bounded(self@, DIR_MAX as int),
            bounded(rhs@, DIR_MAX as int),
        ensures
            r@ == cross_s(self@, rhs@),
    {
        proof {
            lemma_mul_s_bound(self@.y, rhs@.z, DIR_MAX as int, DIR_MAX as int);
            lemma_mul_s_bound(self@.z, rhs@.y, DIR_MAX as int, DIR_MAX as int);
            lemma_mul_s_bound(self@.z, rhs@.x, DIR_MAX as int, DIR_MAX as int);
            lemma_mul_s_bound(self@.x, rhs@.z, DIR_MAX as int, DIR_MAX as int);
            lemma_mul_s_bound(self@.x, rhs@.y, DIR_MAX as int, DIR_MAX as int);
            lemma_mul_s_bound(self@.y, rhs@.x, DIR_MAX as int, DIR_MAX as int);
        }
        Vec3 {
            x: fx_mul(self.y, rhs.z) - fx_mul(self.z, rhs.y),
            y: fx_mul(self.z, rhs.x) - fx_mul(self.x, rhs.z),
            z: fx_mul(self.x, rhs.y) - fx_mul(self.y, rhs.x),
        }
    }

    /// Squared distance of the vector from the origin.
    pub fn length_squared(&self) -> (r: i64)
        requires
            bounded(self@, DIR_MAX as int),
        ensures
            r == lsq_s(self@),
            r >= 0,
    {
        proof {
            lemma_mul_s_square_nonneg(self@.x);
            lemma_mul_s_square_nonneg(self@.y);
            lemma_mul_s_square_nonneg(self@.z);
        }
        self.dot(self)
    }

    /// Distance of the vector from the origin.
    pub fn length(&self) -> (r: i64)
        requires
            bounded(self@, DIR_MAX as int),
        ensures
            r == len_s(self@),
            0 <= r <= 4_000_000_000_000,
    {
        fx_sqrt(self.length_squared())
    }

    /// The vector scaled to unit length; a vector of zero length at this
    /// resolution carries no direction and is excluded.
    pub fn unit_vector(&self) -> (r: Vec3)
        requires
            bounded(self@, DIR_MAX as int),
            len_s(self@) > 0,
        ensures
            r@ == unit_s(self@),
    {
        let l = self.length();
        self.div(l)
    }

    /// True when every component is below the degeneracy threshold in
    /// magnitude; at this resolution that means the zero vector.
    pub fn near_zero(&self) -> (r: bool)
        ensures
            r == near_zero_s(self@),
    {
        self.x == 0 && self.y == 0 && self.z == 0
    }

    /// Mirror reflection about the plane with unit normal `normal`; both
    /// vectors are expected at unit scale, as the scatter model supplies
    /// them.
    pub fn reflect(&self, normal: &Vec3) -> (r: Vec3)
        requires
            bounded(self@, 4_000_000),
            bounded(normal@, 2_000_000),
        ensures
            r@ == reflect_s(self@, normal@),
            bounded(r@, 100_000_000),
    {
        let d = self.dot(normal);
        proof {
            lemma_mul_s_bound(self@.x, normal@.x, 4_000_000, 2_000_000);
            lemma_mul_s_bound(self@.y, normal@.y, 4_000_000, 2_000_000);
            lemma_mul_s_bound(self@.z, normal@.z, 4_000_000, 2_000_000);
            lemma_mul_s_bound(normal@.x, dot_s(self@, normal@), 2_000_000, 24_000_000);
            lemma_mul_s_bound(normal@.y, dot_s(self@, normal@), 2_000_000, 24_000_000);
            lemma_mul_s_bound(normal@.z, dot_s(self@, normal@), 2_000_000, 24_000_000);
        }
        Vec3 {
            x: self.x - 2 * fx_mul(normal.x, d),
            y: self.y - 2 * fx_mul(normal.y, d),
            z: self.z - 2 * fx_mul(normal.z, d),
        }
    }

    /// The direction of the vector, made total and saturated as
    /// `unit_axis_s` describes.
    pub fn unit_direction(&self) -> (r: Vec3)
        requires
            bounded(self@, DIR_MAX as int),
        ensures
            r@ == unit_axis_s(self@),
            bounded(r@, 2_000_000),
    {
        let l = self.length();
        if l == 0 {
            Vec3 { x: SCALE, y: 0, z: 0 }
        } else {
            let u = self.div(l);
            Vec3 {
                x: crate::fx::clamp(u.x, -2_000_000, 2_000_000),
                y: crate::fx::clamp(u.y, -2_000_000, 2_000_000),
                z: crate::fx::clamp(u.z, -2_000_000, 2_000_000),
            }
        }
    }

    /// A vector with components drawn uniformly from `[0, 1)`.
    pub fn random_vector(rng: &mut RandomSource) -> (r: Vec3)
        requires
            source_wf(*old(rng)),
        ensures
            source_wf(*final(rng)),
            deterministic(*final(rng)) == deterministic(*old(rng)),
            *final(rng) == random_vector_s(*old(rng)).1,
            bounded(r@, SCALE as int),
            deterministic(*old(rng)) ==> r@ == random_vector_s(*old(rng)).0,
    {
        let x = rng.next_unit();
        let y = rng.next_unit();
        let z = rng.next_unit();
        Vec3 { x, y, z }
    }

    /// A vector with components drawn uniformly from `[min, max]`.
    pub fn random_vector_bounded(rng: &mut RandomSource, min: i64, max: i64) -> (r: Vec3)
        requires
            source_wf(*old(rng)),
            -2_000_000 <= min <= max <= 2_000_000,
        ensures
            source_wf(*final(rng)),
            deterministic(*final(rng)) == deterministic(*old(rng)),
            *final(rng) == random_vector_bounded_s(*old(rng), min as int, max as int).1,
            bounded(r@, 2_000_000),
            min <= r.x <= max && min <= r.y <= max && min <= r.z <= max,
            deterministic(*old(rng)) ==> r@ == random_vector_bounded_s(
                *old(rng),
                min as int,
                max as int,
            ).0,
    {
        let x = random_bounded(rng, min, max);
        let y = random_bounded(rng, min, max);
        let z = random_bounded(rng, min, max);
        Vec3 { x, y, z }
    }

    /// A point inside the unit sphere, by rejection sampling with a
    /// bounded attempt budget.
    #[verifier::rlimit(50)]
    pub fn random_vector_in_unit_sphere(rng: &mut RandomSource) -> (r: Vec3)
        requires
            source_wf(*old(rng)),
        ensures
            source_wf(*final(rng)),
            deterministic(*final(rng)) == deterministic(*old(rng)),
            bounded(r@, 2_000_000),
            lsq_s(r@) < SCALE as int,
            deterministic(*old(rng)) ==> (r@, *final(rng)) == random_in_unit_sphere_s(
                *old(rng),
                REJECT_CAP as nat,
            ),
            !deterministic(*old(rng)) ==> *final(rng) == *old(rng),
    {
        let ghost rs0 = *old(rng);
        let mut attempts: u64 = REJECT_CAP;
        while attempts > 0
            invariant
                rs0 == *old(rng),
                source_wf(*rng),
                attempts <= REJECT_CAP,
                deterministic(rs0) ==> deterministic(*rng) && random_in_unit_sphere_s(
                    rs0,
                    REJECT_CAP as nat,
                ) == random_in_unit_sphere_s(*rng, attempts as nat),
                !deterministic(rs0) ==> *rng == rs0,
            decreases attempts,
        {
            let ghost rs_pre = *rng;
            let v = Vec3::random_vector_bounded(rng, -SCALE, SCALE);
            let lsq = v.length_squared();
            if lsq < SCALE {
                proof {
                    if deterministic(rs0) {
                        let step = random_vector_bounded_s(rs_pre, -(SCALE as int), SCALE as int);
                        assert(v@ == step.0 && *rng == step.1);
                        assert(random_in_unit_sphere_s(rs_pre, attempts as nat) == (v@, *rng));
                        assert((v@, *rng) == random_in_unit_sphere_s(rs0, REJECT_CAP as nat));
                    } else {
                        assert(*rng == rs0);
                    }
                }
                return v;
            }
            proof {
                if deterministic(rs0) {
                    let step = random_vector_bounded_s(rs_pre, -(SCALE as int), SCALE as int);
                    assert(v@ == step.0 && *rng == step.1);
                    assert(random_in_unit_sphere_s(rs_pre, attempts as nat)
                        == random_in_unit_sphere_s(*rng, (attempts - 1) as nat));
                }
            }
            attempts = attempts - 1;
        }
        proof {
            lemma_mul_s_square_nonneg((SCALE as int) / 2);
            lemma_mul_s_bound((SCALE as int) / 2, (SCALE as int) / 2, 500_000, 500_000);
        }
        Vec3 { x: SCALE / 2, y: 0, z: 0 }
    }

    /// A random point on the unit sphere: a point inside it, scaled to
    /// unit length. Sampling this way and adding the surface normal
    /// approximates a Lambertian scatter distribution.
    pub fn random_unit_vector(rng: &mut RandomSource) -> (r: Vec3)
        requires
            source_wf(*old(rng)),
        ensures
            source_wf(*final(rng)),
            deterministic(*final(rng)) == deterministic(*old(rng)),
            bounded(r@, 2_000_000),
            deterministic(*old(rng)) ==> (r@, *final(rng)) == random_unit_vector_s(*old(rng)),
            !deterministic(*old(rng)) ==> *final(rng) == *old(rng),
    {
        let v = Vec3::random_vector_in_unit_sphere(rng);
        v.unit_direction()
    }

    /// A point inside the unit sphere, flipped into the hemisphere of
    /// `normal`: an alternative diffuse scatter direction.
    pub fn random_vector_in_hemisphere(rng: &mut RandomSource, normal: &Vec3) -> (r: Vec3)
        requires
            source_wf(*old(rng)),
            bounded(normal@, DIR_MAX as int),
        ensures
            source_wf(*final(rng)),
            deterministic(*final(rng)) == deterministic(*old(rng)),
            bounded(r@, 2_000_000),
            deterministic(*old(rng)) ==> (r@, *final(rng)) == random_in_hemisphere_s(
                *old(rng),
                normal@,
            ),
            !deterministic(*old(rng)) ==> *final(rng) == *old(rng),
    {
        let v = Vec3::random_vector_in_unit_sphere(rng);
        if v.dot(normal) > 0 {
            v
        } else {
            v.neg()
        }
    }
}

} // verus!
