use raytracer::geometry::HitRecord;
use raytracer::material::Material;
use raytracer::scalar::Scalar;
use raytracer::tracing::Ray;
use raytracer::vector::Vec3;

fn s(x: f64) -> Scalar {
    Scalar::from_bits(x.to_bits())
}

fn f(x: Scalar) -> f64 {
    f64::from_bits(x.bits)
}

fn v(x: f64, y: f64, z: f64) -> Vec3 {
    Vec3::new(s(x), s(y), s(z))
}

fn hit_with(material: Material) -> HitRecord {
    HitRecord {
        p: v(0.0, 0.0, -0.5),
        material,
        normal: v(0.0, 0.0, 1.0),
        t: s(0.5),
        front_face: true,
    }
}

#[test]
fn albedo_is_read_from_both_materials() {
    let diffuse = Material::Lambertian { albedo: v(0.7, 0.3, 0.3) };
    let metal = Material::Metal { albedo: v(0.8, 0.6, 0.2), fuzziness: s(1.0) };
    assert_eq!(diffuse.albedo(), v(0.7, 0.3, 0.3));
    assert_eq!(metal.albedo(), v(0.8, 0.6, 0.2));
}

#[test]
fn a_diffuse_surface_scatters_along_the_candidate() {
    let diffuse = Material::Lambertian { albedo: v(0.7, 0.3, 0.3) };
    let hit = hit_with(diffuse);
    let result = diffuse.scatter(hit, v(0.5, 0.5, 1.5), s(1.5)).unwrap();
    assert_eq!(result.hit, hit);
    assert_eq!(result.attenuation, v(0.7, 0.3, 0.3));
    assert_eq!(result.scattered, Ray::new(v(0.0, 0.0, -0.5), v(0.5, 0.5, 1.5)));
}

#[test]
fn a_diffuse_surface_falls_back_to_the_normal() {
    let diffuse = Material::Lambertian { albedo: v(0.7, 0.3, 0.3) };
    let hit = hit_with(diffuse);
    let result = diffuse.scatter(hit, v(1.0e-9, -1.0e-9, 0.0), s(0.0)).unwrap();
    assert_eq!(result.scattered, Ray::new(v(0.0, 0.0, -0.5), v(0.0, 0.0, 1.0)));
    assert_eq!(result.attenuation, v(0.7, 0.3, 0.3));
}

#[test]
fn a_diffuse_surface_falls_back_to_the_normal_from_a_nan() {
    let diffuse = Material::Lambertian { albedo: v(0.7, 0.3, 0.3) };
    let hit = hit_with(diffuse);
    let zero_draw = 0.0f64 / 0.0f64.sqrt();
    assert!(zero_draw.is_nan());
    for candidate in [
        v(zero_draw, zero_draw, zero_draw),
        v(f64::NAN, 0.5, 1.5),
        v(0.5, -f64::NAN, 1.5),
        v(0.5, 0.5, f64::NAN),
    ] {
        let result = diffuse.scatter(hit, candidate, s(f64::NAN)).unwrap();
        assert_eq!(result.scattered, Ray::new(v(0.0, 0.0, -0.5), v(0.0, 0.0, 1.0)));
        assert_eq!(result.attenuation, v(0.7, 0.3, 0.3));
        assert_eq!(result.hit, hit);
    }
}

#[test]
fn a_diffuse_surface_falls_back_to_the_normal_from_an_infinity() {
    let diffuse = Material::Lambertian { albedo: v(0.7, 0.3, 0.3) };
    let hit = hit_with(diffuse);
    for candidate in [v(f64::INFINITY, 0.5, 1.5), v(0.5, f64::NEG_INFINITY, 1.5)] {
        let result = diffuse.scatter(hit, candidate, s(1.5)).unwrap();
        assert_eq!(result.scattered.direction(), v(0.0, 0.0, 1.0));
    }
}

#[test]
fn a_scattered_direction_is_finite_and_not_near_zero() {
    let diffuse = Material::Lambertian { albedo: v(0.7, 0.3, 0.3) };
    let hit = hit_with(diffuse);
    let candidates = [
        v(0.5, 0.5, 1.5),
        v(0.0, 0.0, 0.0),
        v(f64::NAN, f64::NAN, f64::NAN),
        v(1.0e-9, f64::INFINITY, 0.0),
        v(-1.0e-9, 1.0e-9, 1.0e-9),
        v(f64::MAX, 0.0, 0.0),
    ];
    for candidate in candidates {
        let direction = diffuse.scatter(hit, candidate, s(0.5)).unwrap().scattered.direction();
        assert!(direction.is_finite());
        for c in [f(direction.x), f(direction.y), f(direction.z)] {
            assert!(c.is_finite());
        }
        assert!(
            f(direction.x).abs() >= 1.0e-8
                || f(direction.y).abs() >= 1.0e-8
                || f(direction.z).abs() >= 1.0e-8
        );
    }
}

#[test]
fn a_diffuse_surface_scatters_even_into_the_surface() {
    let diffuse = Material::Lambertian { albedo: v(0.7, 0.3, 0.3) };
    let result = diffuse.scatter(hit_with(diffuse), v(0.0, 1.0, -0.5), s(-0.5)).unwrap();
    assert_eq!(result.scattered.direction(), v(0.0, 1.0, -0.5));
}

#[test]
fn a_metal_reflects_away_from_the_surface() {
    let metal = Material::Metal { albedo: v(0.8, 0.6, 0.2), fuzziness: s(0.3) };
    let hit = hit_with(metal);
    let result = metal.scatter(hit, v(0.25, 0.0, 1.0), s(1.0)).unwrap();
    assert_eq!(result.hit, hit);
    assert_eq!(result.attenuation, v(0.8, 0.6, 0.2));
    assert_eq!(result.scattered.origin(), v(0.0, 0.0, -0.5));
    assert_eq!(result.scattered.direction(), v(0.25, 0.0, 1.0));
}

#[test]
fn a_metal_absorbs_what_would_go_into_the_surface() {
    let metal = Material::Metal { albedo: v(0.8, 0.6, 0.2), fuzziness: s(1.0) };
    let hit = hit_with(metal);
    assert!(metal.scatter(hit, v(0.25, 0.0, -1.0), s(-1.0)).is_none());
    assert!(metal.scatter(hit, v(1.0, 0.0, 0.0), s(0.0)).is_none());
    assert!(metal.scatter(hit, v(1.0, 0.0, -0.0), s(-0.0)).is_none());
    assert!(metal.scatter(hit, v(f64::NAN, 0.0, 0.0), s(f64::NAN)).is_none());
}

#[test]
fn a_metal_absorbs_a_candidate_that_is_not_finite() {
    let metal = Material::Metal { albedo: v(0.8, 0.6, 0.2), fuzziness: s(0.5) };
    let hit = hit_with(metal);
    assert!(metal.scatter(hit, v(f64::NAN, 0.0, 1.0), s(1.0)).is_none());
    assert!(metal.scatter(hit, v(0.0, f64::INFINITY, 1.0), s(1.0)).is_none());
    assert!(metal.scatter(hit, v(0.0, 0.0, f64::NEG_INFINITY), s(f64::INFINITY)).is_none());
    assert!(metal.scatter(hit, v(0.0, 0.0, f64::MAX), s(f64::INFINITY)).is_some());
}

#[test]
fn materials_are_valid_with_a_fuzziness_in_the_unit_interval() {
    assert!(Material::Lambertian { albedo: v(0.7, 0.3, 0.3) }.is_valid());
    assert!(Material::Lambertian { albedo: v(7.0, -3.0, f64::NAN) }.is_valid());
    for fuzziness in [0.0, -0.0, 0.3, 1.0] {
        assert!(Material::Metal { albedo: v(0.8, 0.8, 0.8), fuzziness: s(fuzziness) }.is_valid());
    }
    for fuzziness in [-0.1, 1.0 + f64::EPSILON, 2.0, f64::INFINITY, f64::NAN] {
        assert!(!Material::Metal { albedo: v(0.8, 0.8, 0.8), fuzziness: s(fuzziness) }.is_valid());
    }
}

#[test]
fn a_metal_keeps_a_tiny_candidate() {
    let metal = Material::Metal { albedo: v(0.8, 0.8, 0.8), fuzziness: s(0.0) };
    let result = metal.scatter(hit_with(metal), v(0.0, 0.0, 1.0e-9), s(1.0e-9)).unwrap();
    assert_eq!(result.scattered.direction(), v(0.0, 0.0, 1.0e-9));
}

#[test]
fn attenuation_never_exceeds_an_albedo_of_at_most_one() {
    let candidates = [v(0.5, 0.5, 1.5), v(0.0, 0.0, 0.0), v(-1.0, 2.0, 0.25)];
    for albedo in [v(1.0, 1.0, 1.0), v(0.7, 0.3, 0.3), v(0.0, 1.0, 0.5)] {
        let diffuse = Material::Lambertian { albedo };
        for candidate in candidates {
            let result = diffuse.scatter(hit_with(diffuse), candidate, s(0.5)).unwrap();
            assert!(f(result.attenuation.x) <= 1.0);
            assert!(f(result.attenuation.y) <= 1.0);
            assert!(f(result.attenuation.z) <= 1.0);
            assert_eq!(result.attenuation, albedo);
        }
    }
}
