use raytrace::fx::SCALE;
use raytrace::vector::Vec3;
use raytrace::ray::{Ray, T_MAX};
use raytrace::sphere::{Sphere, SceneError};
use raytrace::hittable::Hittable;
use raytrace::material::{Material, Lambertian};

fn gray() -> Material {
    Material::Lambertian(Lambertian { albedo: Vec3 { x: 500_000, y: 500_000, z: 500_000 } })
}

// A ray fired from outside a sphere straight at its center meets it at
// distance - radius and distance + radius, and the nearer root wins
// while the range admits it.
#[test]
fn head_on_ray_yields_both_roots() {
    let sphere = Sphere::new(Vec3 { x: 0, y: 0, z: -3 * SCALE }, SCALE, gray()).unwrap();
    let ray = Ray {
        origin: Vec3 { x: 0, y: 0, z: 0 },
        direction: Vec3 { x: 0, y: 0, z: -SCALE },
    };
    let (hit, record) = sphere.hit(&ray, 1_000, T_MAX);
    assert!(hit);
    assert_eq!(record.t, 2 * SCALE);
    assert_eq!(record.p, Vec3 { x: 0, y: 0, z: -2 * SCALE });
    assert_eq!(record.normal, Vec3 { x: 0, y: 0, z: SCALE });
    assert!(record.front_face);

    // With the nearer root below the range, the farther one is chosen.
    let (hit_far, record_far) = sphere.hit(&ray, 2_500_000, T_MAX);
    assert!(hit_far);
    assert_eq!(record_far.t, 4 * SCALE);
    assert!(!record_far.front_face);

    // With both roots outside the range, nothing is hit.
    let (hit_none, _) = sphere.hit(&ray, 4_500_000, T_MAX);
    assert!(!hit_none);
}

// A ray grazing a sphere (discriminant at the edge of zero) still
// reports a front-face hit whose normal is nearly perpendicular to the
// ray.
#[test]
fn tangent_ray_grazes_front_face() {
    let sphere = Sphere::new(Vec3 { x: 0, y: 0, z: -2 * SCALE }, SCALE, gray()).unwrap();
    let ray = Ray {
        origin: Vec3 { x: -3 * SCALE, y: 999_999, z: -2 * SCALE },
        direction: Vec3 { x: SCALE, y: 0, z: 0 },
    };
    let (hit, record) = sphere.hit(&ray, 1_000, T_MAX);
    assert!(hit);
    assert!(record.front_face);
    let alignment = ray.direction.dot(&record.normal);
    assert!(alignment.abs() < 2_000);
}

#[test]
fn miss_reports_nothing() {
    let sphere = Sphere::new(Vec3 { x: 0, y: 0, z: -3 * SCALE }, SCALE, gray()).unwrap();
    let ray = Ray {
        origin: Vec3 { x: 0, y: 0, z: 0 },
        direction: Vec3 { x: 0, y: 0, z: SCALE },
    };
    let (hit, _) = sphere.hit(&ray, 1_000, T_MAX);
    assert!(!hit);
}

#[test]
fn scene_scan_keeps_the_nearest_hit() {
    let near = Sphere::new(Vec3 { x: 0, y: 0, z: -2 * SCALE }, 500_000, gray()).unwrap();
    let far = Sphere::new(Vec3 { x: 0, y: 0, z: -4 * SCALE }, 500_000, gray()).unwrap();
    let ray = Ray {
        origin: Vec3 { x: 0, y: 0, z: 0 },
        direction: Vec3 { x: 0, y: 0, z: -SCALE },
    };
    for objects in [vec![near, far], vec![far, near]] {
        let (hit, record) = ray.hits_any_object(&objects, 1_000, T_MAX);
        assert!(hit);
        assert_eq!(record.t, 1_500_000);
    }
}

#[test]
fn non_positive_radius_is_rejected() {
    let center = Vec3 { x: 0, y: 0, z: 0 };
    assert_eq!(
        Sphere::new(center, 0, gray()),
        Err(SceneError::NonPositiveRadius)
    );
    assert_eq!(
        Sphere::new(center, -5 * SCALE, gray()),
        Err(SceneError::NonPositiveRadius)
    );
}

#[test]
fn out_of_range_configuration_is_rejected() {
    let far_center = Vec3 { x: 2_000_000_000, y: 0, z: 0 };
    assert_eq!(
        Sphere::new(far_center, SCALE, gray()),
        Err(SceneError::OutOfRange)
    );
    let bad_albedo = Material::Lambertian(Lambertian {
        albedo: Vec3 { x: 2 * SCALE, y: 0, z: 0 },
    });
    assert_eq!(
        Sphere::new(Vec3 { x: 0, y: 0, z: 0 }, SCALE, bad_albedo),
        Err(SceneError::OutOfRange)
    );
}

#[test]
fn valid_sphere_is_accepted_as_given() {
    let center = Vec3 { x: SCALE, y: -2 * SCALE, z: 0 };
    let s = Sphere::new(center, 500_000, gray()).unwrap();
    assert_eq!(s.center, center);
    assert_eq!(s.radius, 500_000);
    assert_eq!(s.material, gray());
}
