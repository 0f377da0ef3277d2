use softrays::material::{metal_scatters, reflects_by_chance, refraction_ratio, totally_reflected};
use softrays::Scalar;
use ultraviolet::Vec3;

fn s(x: f32) -> Scalar {
    Scalar::from_bits(x.to_bits())
}

#[test]
fn metal_scatters_away_from_the_surface_only() {
    assert!(metal_scatters(s(0.5)));
    assert!(metal_scatters(s(1.0e-30)));
    assert!(!metal_scatters(s(0.0)));
    assert!(!metal_scatters(s(-0.5)));
    assert!(!metal_scatters(s(f32::NAN)));
}

#[test]
fn metal_without_fuzz_mirrors_the_ray() {
    let normal = Vec3::new(0.0, 1.0, 0.0);
    let incoming = Vec3::new(1.0, -1.0, 0.0);
    let outgoing = incoming.reflected(normal);
    assert_eq!(outgoing.dot(normal), -incoming.dot(normal));
    assert!(metal_scatters(s(outgoing.dot(normal))));
    // a fuzzed direction that dips under the surface is absorbed
    let dipped = outgoing + Vec3::new(0.0, -1.5, 0.0);
    assert!(!metal_scatters(s(dipped.dot(normal))));
}

#[test]
fn dielectric_ratio_depends_on_the_side() {
    assert_eq!(refraction_ratio(true, s(1.5), s(1.0 / 1.5)), s(1.0 / 1.5));
    assert_eq!(refraction_ratio(false, s(1.5), s(1.0 / 1.5)), s(1.5));
}

#[test]
fn dielectric_reflects_totally_beyond_the_critical_angle() {
    // leaving glass at 60 degrees: 1.5 * sin(60 deg) > 1
    let sin_theta = (1.0f32 - 0.5 * 0.5).sqrt();
    assert!(totally_reflected(s(1.5 * sin_theta)));
    // entering glass at the same angle
    assert!(!totally_reflected(s(sin_theta / 1.5)));
    assert!(!totally_reflected(s(1.0)));
    assert!(totally_reflected(s(1.0000001)));
    assert!(!totally_reflected(s(f32::NAN)));
}

#[test]
fn dielectric_mirrors_when_the_draw_falls_below_the_reflectance() {
    assert!(reflects_by_chance(s(0.03), s(0.04)));
    assert!(!reflects_by_chance(s(0.04), s(0.04)));
    assert!(!reflects_by_chance(s(0.5), s(0.04)));
    assert!(!reflects_by_chance(s(0.0), s(0.0)));
    assert!(reflects_by_chance(s(0.999), s(1.0)));
    assert!(!reflects_by_chance(s(0.5), s(f32::NAN)));
}
