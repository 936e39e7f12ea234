use raytrace::fx::SCALE;
use raytrace::vector::Vec3;
use raytrace::ray::Ray;
use raytrace::sphere::Sphere;
use raytrace::material::{Material, Lambertian};
use raytrace::rng::RandomSource;

fn small_scene() -> Vec<Sphere> {
    let gray = Material::Lambertian(Lambertian {
        albedo: Vec3 { x: 500_000, y: 500_000, z: 500_000 },
    });
    vec![Sphere::new(Vec3 { x: 0, y: 0, z: -SCALE }, 500_000, gray).unwrap()]
}

// With the bounce budget spent, a ray gathers pure black whatever the
// scene and direction.
#[test]
fn exhausted_budget_is_black() {
    let objects = small_scene();
    let rays = [
        Ray { origin: Vec3 { x: 0, y: 0, z: 0 }, direction: Vec3 { x: 0, y: 0, z: -SCALE } },
        Ray { origin: Vec3 { x: 0, y: 0, z: 0 }, direction: Vec3 { x: 0, y: SCALE, z: 0 } },
        Ray { origin: Vec3 { x: SCALE, y: -SCALE, z: 0 }, direction: Vec3 { x: 300_000, y: 400_000, z: 500_000 } },
    ];
    for ray in rays {
        let mut rng = RandomSource::seeded(1);
        assert_eq!(
            ray.ray_color(&mut rng, &objects, 0),
            Vec3 { x: 0, y: 0, z: 0 }
        );
        let mut sys = RandomSource::system();
        assert_eq!(ray.ray_color(&mut sys, &objects, 0), Vec3 { x: 0, y: 0, z: 0 });
    }
}

// A ray that hits nothing gathers the analytic gradient: sky blue
// straight up, white straight down, a blend in between.
#[test]
fn missing_rays_gather_the_gradient() {
    let empty: Vec<Sphere> = Vec::new();
    let mut rng = RandomSource::fixed(0);

    let up = Ray { origin: Vec3 { x: 0, y: 0, z: 0 }, direction: Vec3 { x: 0, y: SCALE, z: 0 } };
    assert_eq!(
        up.ray_color(&mut rng, &empty, 50),
        Vec3 { x: 500_000, y: 700_000, z: SCALE }
    );

    let down = Ray { origin: Vec3 { x: 0, y: 0, z: 0 }, direction: Vec3 { x: 0, y: -SCALE, z: 0 } };
    assert_eq!(
        down.ray_color(&mut rng, &empty, 50),
        Vec3 { x: SCALE, y: SCALE, z: SCALE }
    );

    // A horizontal ray sits at the middle of the blend.
    let level = Ray { origin: Vec3 { x: 0, y: 0, z: 0 }, direction: Vec3 { x: SCALE, y: 0, z: 0 } };
    assert_eq!(
        level.ray_color(&mut rng, &empty, 50),
        Vec3 { x: 750_000, y: 850_000, z: SCALE }
    );
}

// The gradient also stands behind a populated scene when the ray avoids
// every object.
#[test]
fn missing_rays_ignore_the_scene() {
    let objects = small_scene();
    let mut rng = RandomSource::seeded(2);
    let up = Ray { origin: Vec3 { x: 0, y: 0, z: 0 }, direction: Vec3 { x: 0, y: SCALE, z: 0 } };
    assert_eq!(
        up.ray_color(&mut rng, &objects, 50),
        Vec3 { x: 500_000, y: 700_000, z: SCALE }
    );
}

// One bounce off a half-gray sphere against a known background: with the
// all-zero stream, the diffuse bounce direction is the normal plus the
// positive x axis, and the gathered color is half the background that
// bounce sees.
#[test]
fn one_bounce_attenuates_by_albedo() {
    let objects = small_scene();
    let ray = Ray {
        origin: Vec3 { x: 0, y: 0, z: 0 },
        direction: Vec3 { x: 0, y: 0, z: -SCALE },
    };
    let mut rng = RandomSource::fixed(0);
    let two_bounces = ray.ray_color(&mut rng, &objects, 2);
    // The first hit is at (0, 0, -0.5) with normal +z; the all-zero
    // stream turns the unit-sphere fallback into the +x axis, so the
    // scattered ray leaves along (1, 0, 1) and misses everything. Its
    // gradient value, halved by the 0.5 albedo, is what comes back.
    let mut rng2 = RandomSource::fixed(0);
    let scattered = Ray {
        origin: Vec3 { x: 0, y: 0, z: -500_000 },
        direction: Vec3 { x: SCALE, y: 0, z: SCALE },
    };
    let background = scattered.ray_color(&mut rng2, &Vec::new(), 1);
    let expected = Vec3 {
        x: background.x / 2,
        y: background.y / 2,
        z: background.z / 2,
    };
    assert_eq!(two_bounces, expected);
}
