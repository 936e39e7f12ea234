use raytrace::fx::SCALE;
use raytrace::vector::Vec3;
use raytrace::ray::Ray;
use raytrace::hittable::HitRecord;
use raytrace::material::{Material, Lambertian, Metallic};
use raytrace::rng::RandomSource;

fn hit_at_origin(material: Material) -> HitRecord {
    HitRecord {
        p: Vec3 { x: 0, y: 0, z: -SCALE },
        normal: Vec3 { x: 0, y: SCALE, z: 0 },
        t: SCALE,
        front_face: true,
        material,
    }
}

// A Lambertian surface always scatters and its attenuation is always
// exactly its albedo, whatever the random draws.
#[test]
fn lambertian_always_scatters_with_albedo() {
    let albedo = Vec3 { x: 800_000, y: 700_000, z: 300_000 };
    let material = Material::Lambertian(Lambertian { albedo });
    let ray_in = Ray {
        origin: Vec3 { x: 0, y: 2 * SCALE, z: 0 },
        direction: Vec3 { x: 0, y: -SCALE, z: -500_000 },
    };
    let hit = hit_at_origin(material);
    for mut rng in [
        RandomSource::fixed(0),
        RandomSource::fixed(999_999),
        RandomSource::seeded(5),
        RandomSource::system(),
    ] {
        let (attenuation, scattered, did_scatter) = material.scatter(&mut rng, &ray_in, &hit);
        assert!(did_scatter);
        assert_eq!(attenuation, albedo);
        assert_eq!(scattered.origin, hit.p);
    }
}

// A metallic surface with no fuzz scatters exactly into the mirror
// reflection of the unit incoming direction about the normal.
#[test]
fn polished_metal_reflects_exactly() {
    let albedo = Vec3 { x: 400_000, y: 100_000, z: 200_000 };
    let material = Material::Metallic(Metallic { albedo, fuzz: 0 });
    let ray_in = Ray {
        origin: Vec3 { x: -SCALE, y: SCALE, z: 0 },
        direction: Vec3 { x: SCALE, y: -SCALE, z: 0 },
    };
    let hit = hit_at_origin(material);
    let expected = ray_in.direction.unit_direction().reflect(&hit.normal);
    for mut rng in [
        RandomSource::fixed(0),
        RandomSource::seeded(99),
        RandomSource::system(),
    ] {
        let (attenuation, scattered, did_scatter) = material.scatter(&mut rng, &ray_in, &hit);
        assert!(did_scatter);
        assert_eq!(attenuation, albedo);
        assert_eq!(scattered.origin, hit.p);
        assert_eq!(scattered.direction, expected);
    }
}

// A fuzzy metal can push the scattered direction below the surface, and
// such a ray is absorbed rather than scattered.
#[test]
fn fuzzy_metal_absorbs_below_surface() {
    let material = Material::Metallic(Metallic {
        albedo: Vec3 { x: 800_000, y: 800_000, z: 800_000 },
        fuzz: SCALE,
    });
    // A grazing incoming ray: the reflection hugs the surface, so a
    // strong inward perturbation absorbs it.
    let ray_in = Ray {
        origin: Vec3 { x: -2 * SCALE, y: 2_000, z: 0 },
        direction: Vec3 { x: SCALE, y: -1_000, z: 0 },
    };
    let hit = hit_at_origin(material);
    let mut absorbed = 0;
    let mut scattered_count = 0;
    let mut rng = RandomSource::seeded(3);
    for _ in 0..200 {
        let (_, scattered, did_scatter) = material.scatter(&mut rng, &ray_in, &hit);
        if did_scatter {
            scattered_count += 1;
            assert!(scattered.direction.dot(&hit.normal) > 0);
        } else {
            absorbed += 1;
        }
    }
    assert!(absorbed > 0);
    assert!(scattered_count > 0);
}
