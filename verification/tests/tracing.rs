use raytracer::scalar::Scalar;
use raytracer::tracing::trace_window;
use raytracer::tracing::Found;
use raytracer::tracing::Ray;
use raytracer::tracing::Step;
use raytracer::tracing::Terminal;
use raytracer::tracing::SHADOW_BIAS_BITS;
use raytracer::vector::Vec3;
use raytracer::HEIGHT;
use raytracer::MAX_DEPTH;
use raytracer::SAMPLES;
use raytracer::WIDTH;

fn s(x: f64) -> Scalar {
    Scalar::from_bits(x.to_bits())
}

fn v(x: f64, y: f64, z: f64) -> Vec3 {
    Vec3::new(s(x), s(y), s(z))
}

#[test]
fn the_renderer_is_sixteen_by_nine() {
    assert_eq!(WIDTH, 800);
    assert_eq!(HEIGHT, 450);
    assert_eq!(HEIGHT, (WIDTH as f64 / (16.0 / 9.0)) as u32);
    assert_eq!(SAMPLES, 50);
    assert_eq!(MAX_DEPTH, 100);
}

#[test]
fn rays_are_traced_from_the_shadow_bias_to_infinity() {
    assert_eq!(SHADOW_BIAS_BITS, 0.001f64.to_bits());
    let (t_min, t_max) = trace_window();
    assert_eq!(f64::from_bits(t_min.bits), 0.001);
    assert_eq!(f64::from_bits(t_max.bits), f64::INFINITY);
}

#[test]
fn a_ray_keeps_origin_and_direction() {
    let ray = Ray::new(v(0.0, 1.0, 2.0), v(0.0, 0.0, -1.0));
    assert_eq!(ray.origin(), v(0.0, 1.0, 2.0));
    assert_eq!(ray.direction(), v(0.0, 0.0, -1.0));
    assert_eq!(ray, Ray { origin: v(0.0, 1.0, 2.0), direction: v(0.0, 0.0, -1.0) });
}

#[test]
fn no_budget_is_black_at_once() {
    assert_eq!(Step::first(0), Step::Done(Terminal::Black));
}

#[test]
fn a_budget_starts_a_trace() {
    assert_eq!(Step::first(1), Step::Trace { depth: 1 });
    assert_eq!(Step::first(100), Step::Trace { depth: 100 });
    assert_eq!(Step::first(usize::MAX), Step::Trace { depth: usize::MAX });
}

#[test]
fn a_miss_ends_in_the_background() {
    assert_eq!(Step::after(1, Found::Miss), Step::Done(Terminal::Background));
    assert_eq!(Step::after(100, Found::Miss), Step::Done(Terminal::Background));
}

#[test]
fn absorption_ends_in_black() {
    assert_eq!(Step::after(1, Found::Absorbed), Step::Done(Terminal::Black));
    assert_eq!(Step::after(100, Found::Absorbed), Step::Done(Terminal::Black));
}

#[test]
fn scattering_spends_one_bounce() {
    assert_eq!(Step::after(100, Found::Scattered), Step::Trace { depth: 99 });
    assert_eq!(Step::after(2, Found::Scattered), Step::Trace { depth: 1 });
}

#[test]
fn the_last_bounce_ends_in_black() {
    assert_eq!(Step::after(1, Found::Scattered), Step::Done(Terminal::Black));
    assert_eq!(Step::after(0, Found::Scattered), Step::Done(Terminal::Black));
}

#[test]
fn a_path_of_mirrors_traces_exactly_its_budget() {
    for budget in [0usize, 1, 2, 7, 100] {
        let mut traced = 0;
        let mut step = Step::first(budget);
        while let Step::Trace { depth } = step {
            traced += 1;
            step = Step::after(depth, Found::Scattered);
        }
        assert_eq!(traced, budget);
        assert_eq!(step, Step::Done(Terminal::Black));
    }
}
