use raytrace::fx::{fx_mul, fx_div, fx_sqrt, isqrt, clamp, SCALE};
use raytrace::vector::Vec3;
use raytrace::ray::Ray;
use raytrace::rng::{RandomSource, random_bounded};

#[test]
fn fixed_point_products_are_exact() {
    assert_eq!(fx_mul(2_500_000, 2_000_000), 5_000_000);
    assert_eq!(fx_mul(SCALE, SCALE), SCALE);
    assert_eq!(fx_mul(-2_500_000, 2_000_000), -5_000_000);
    assert_eq!(fx_mul(0, 123_456), 0);
    assert_eq!(fx_mul(333_333, 3_000_000), 999_999);
}

#[test]
fn fixed_point_quotients_are_exact() {
    assert_eq!(fx_div(5_000_000, 2_000_000), 2_500_000);
    assert_eq!(fx_div(-5_000_000, 2_000_000), -2_500_000);
    assert_eq!(fx_div(1_000_000, 3_000_000), 333_333);
}

#[test]
fn square_roots_round_down() {
    assert_eq!(isqrt(0), 0);
    assert_eq!(isqrt(1_000_000_000_000), 1_000_000);
    assert_eq!(isqrt(2_000_000_000_000), 1_414_213);
    assert_eq!(isqrt(999_999_999_999), 999_999);
    assert_eq!(fx_sqrt(4_000_000), 2_000_000);
    assert_eq!(fx_sqrt(250_000), 500_000);
    assert_eq!(fx_sqrt(0), 0);
}

#[test]
fn clamp_holds_the_interval() {
    assert_eq!(clamp(5, 0, 10), 5);
    assert_eq!(clamp(-5, 0, 10), 0);
    assert_eq!(clamp(15, 0, 10), 10);
}

#[test]
fn vector_algebra_matches_formulas() {
    let a = Vec3 { x: SCALE, y: 2 * SCALE, z: 3 * SCALE };
    let b = Vec3 { x: 4 * SCALE, y: 5 * SCALE, z: 6 * SCALE };
    let s = a.add(&b);
    assert_eq!(s, Vec3 { x: 5 * SCALE, y: 7 * SCALE, z: 9 * SCALE });
    let d = b.sub(&a);
    assert_eq!(d, Vec3 { x: 3 * SCALE, y: 3 * SCALE, z: 3 * SCALE });
    assert_eq!(a.dot(&b), 32 * SCALE);
    assert_eq!(a.neg(), Vec3 { x: -SCALE, y: -2 * SCALE, z: -3 * SCALE });
    let x_axis = Vec3 { x: SCALE, y: 0, z: 0 };
    let y_axis = Vec3 { x: 0, y: SCALE, z: 0 };
    assert_eq!(x_axis.cross(y_axis), Vec3 { x: 0, y: 0, z: SCALE });
    assert_eq!(a.length_squared(), 14 * SCALE);
    let v = Vec3 { x: 3 * SCALE, y: 4 * SCALE, z: 0 };
    assert_eq!(v.length(), 5 * SCALE);
    assert_eq!(
        v.unit_vector(),
        Vec3 { x: 600_000, y: 800_000, z: 0 }
    );
}

#[test]
fn near_zero_detects_only_the_zero_vector() {
    assert!(Vec3 { x: 0, y: 0, z: 0 }.near_zero());
    assert!(!Vec3 { x: 1, y: 0, z: 0 }.near_zero());
    assert!(!Vec3 { x: 0, y: -1, z: 0 }.near_zero());
}

#[test]
fn index_selects_components() {
    let v = Vec3 { x: 7, y: 8, z: 9 };
    assert_eq!(v.index(0), 7);
    assert_eq!(v.index(1), 8);
    assert_eq!(v.index(2), 9);
}

#[test]
fn reflection_mirrors_about_the_normal() {
    let v = Vec3 { x: SCALE, y: -SCALE, z: 0 };
    let n = Vec3 { x: 0, y: SCALE, z: 0 };
    assert_eq!(v.reflect(&n), Vec3 { x: SCALE, y: SCALE, z: 0 });
}

// A ray at parameter zero sits at its origin; at parameter one it has
// advanced by exactly its direction.
#[test]
fn ray_at_unit_endpoints() {
    let r = Ray {
        origin: Vec3 { x: SCALE, y: 2 * SCALE, z: -SCALE },
        direction: Vec3 { x: 600_000, y: -800_000, z: 0 },
    };
    assert_eq!(r.at(0), r.origin);
    assert_eq!(r.at(SCALE), r.origin.add(&r.direction));
}

#[test]
fn bounded_draws_stay_in_range() {
    let mut zero = RandomSource::fixed(0);
    assert_eq!(random_bounded(&mut zero, -SCALE, SCALE), -SCALE);
    let mut high = RandomSource::fixed(999_999);
    assert_eq!(random_bounded(&mut high, -SCALE, SCALE), 999_998);
    let mut seeded = RandomSource::seeded(7);
    for _ in 0..100 {
        let r = random_bounded(&mut seeded, -SCALE, SCALE);
        assert!(-SCALE <= r && r <= SCALE);
    }
}

#[test]
fn unit_sphere_samples_lie_inside() {
    let mut rng = RandomSource::seeded(11);
    for _ in 0..50 {
        let v = Vec3::random_vector_in_unit_sphere(&mut rng);
        assert!(v.length_squared() < SCALE);
    }
    // The all-zero stream rejects every attempt and falls back to a
    // fixed interior point.
    let mut zero = RandomSource::fixed(0);
    let v = Vec3::random_vector_in_unit_sphere(&mut zero);
    assert_eq!(v, Vec3 { x: SCALE / 2, y: 0, z: 0 });
    assert_eq!(
        Vec3::random_unit_vector(&mut zero),
        Vec3 { x: SCALE, y: 0, z: 0 }
    );
}
