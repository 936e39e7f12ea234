use raytrace::fx::SCALE;
use raytrace::vector::Vec3;
use raytrace::camera;
use raytrace::color::to_rgb;
use raytrace::sphere::Sphere;
use raytrace::material::{Material, Lambertian, Metallic};
use raytrace::rng::RandomSource;
use raytrace::render::render;

#[test]
fn camera_spans_the_reference_viewport() {
    let cam = camera::new();
    assert_eq!(cam.origin, Vec3 { x: 0, y: 0, z: 0 });
    assert_eq!(cam.horizontal, Vec3 { x: 3_555_554, y: 0, z: 0 });
    assert_eq!(cam.vertical, Vec3 { x: 0, y: 2 * SCALE, z: 0 });
    assert_eq!(
        cam.lower_left_corner,
        Vec3 { x: -1_777_777, y: -SCALE, z: -SCALE }
    );
}

#[test]
fn central_ray_points_down_the_axis() {
    let cam = camera::new();
    let ray = cam.get_ray(500_000, 500_000);
    assert_eq!(ray.origin, Vec3 { x: 0, y: 0, z: 0 });
    assert_eq!(ray.direction, Vec3 { x: 0, y: 0, z: -SCALE });
}

#[test]
fn corner_rays_span_the_plane() {
    let cam = camera::new();
    let lower_left = cam.get_ray(0, 0);
    assert_eq!(lower_left.direction, cam.lower_left_corner);
    let upper_right = cam.get_ray(SCALE, SCALE);
    assert_eq!(
        upper_right.direction,
        Vec3 { x: 1_777_777, y: SCALE, z: -SCALE }
    );
}

#[test]
fn output_mapping_averages_gammas_and_truncates() {
    // One sample: full red, quarter green, no blue.
    let sum = Vec3 { x: SCALE, y: 250_000, z: 0 };
    assert_eq!(to_rgb(&sum, 1), (255, 128, 0));
    // Four samples summing to the same averages.
    let sum4 = Vec3 { x: 4 * SCALE, y: SCALE, z: 0 };
    assert_eq!(to_rgb(&sum4, 4), (255, 128, 0));
    // The 0.999 clamp keeps a full channel below 256.
    let bright = Vec3 { x: 3 * SCALE, y: 0, z: 0 };
    assert_eq!(to_rgb(&bright, 3), (255, 0, 0));
}

fn reference_scene() -> Vec<Sphere> {
    let ground = Material::Lambertian(Lambertian {
        albedo: Vec3 { x: 800_000, y: 800_000, z: 0 },
    });
    let center = Material::Lambertian(Lambertian {
        albedo: Vec3 { x: 700_000, y: 300_000, z: 300_000 },
    });
    vec![
        Sphere::new(Vec3 { x: 0, y: -100_500_000, z: -SCALE }, 100 * SCALE, ground).unwrap(),
        Sphere::new(Vec3 { x: 0, y: 0, z: -SCALE }, 500_000, center).unwrap(),
    ]
}

// Rendering the two-sphere reference scene with one sample per pixel and
// an all-zero random stream is deterministic and reproducible.
#[test]
fn render_with_zero_stream_is_reproducible() {
    let cam = camera::new();
    let objects = reference_scene();
    let mut rng1 = RandomSource::fixed(0);
    let first = render(&cam, &objects, 16, 9, 1, 50, &mut rng1);
    assert_eq!(first.len(), 16 * 9);
    let mut rng2 = RandomSource::fixed(0);
    let second = render(&cam, &objects, 16, 9, 1, 50, &mut rng2);
    assert_eq!(first, second);
    // The sky shows at the top-left corner: the first emitted pixel is
    // neither black nor saturated white.
    let (r, g, b) = first[0];
    assert!(b > g && g > r);
}

// Re-running the full pipeline with an identical seeded stream and
// identical configuration yields an identical output stream.
#[test]
fn render_with_seeded_stream_is_idempotent() {
    let cam = camera::new();
    let ground = Material::Lambertian(Lambertian {
        albedo: Vec3 { x: 800_000, y: 800_000, z: 0 },
    });
    let shiny = Material::Metallic(Metallic {
        albedo: Vec3 { x: 800_000, y: 800_000, z: 800_000 },
        fuzz: 300_000,
    });
    let objects = vec![
        Sphere::new(Vec3 { x: 0, y: -100_500_000, z: -SCALE }, 100 * SCALE, ground).unwrap(),
        Sphere::new(Vec3 { x: 0, y: 0, z: -SCALE }, 500_000, shiny).unwrap(),
    ];
    let mut rng1 = RandomSource::seeded(20_220_822);
    let first = render(&cam, &objects, 12, 7, 3, 10, &mut rng1);
    let mut rng2 = RandomSource::seeded(20_220_822);
    let second = render(&cam, &objects, 12, 7, 3, 10, &mut rng2);
    assert_eq!(first, second);
    assert_eq!(first.len(), 12 * 7);
    // A different seed draws a different image.
    let mut rng3 = RandomSource::seeded(1);
    let third = render(&cam, &objects, 12, 7, 3, 10, &mut rng3);
    assert_ne!(first, third);
}
