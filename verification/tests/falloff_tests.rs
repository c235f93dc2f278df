use magic_light_2d::falloff::attenuation;
use magic_light_2d::scalar::MICRO;
use magic_light_2d::scene::Falloff;

fn reference_falloff() -> Falloff {
    // The curve (1, 10, 0.01) in micro-units.
    Falloff { constant: MICRO, linear: 10 * MICRO, quadratic: 10_000 }
}

#[test]
fn attenuation_at_zero_distance_is_one() {
    let f = reference_falloff();
    assert_eq!(attenuation(&f, 0), MICRO);
}

#[test]
fn center_is_brighter_than_corners() {
    // A light at the origin on a screen whose corners sit about 11.3
    // units away: the center pixel outshines every corner.
    let f = reference_falloff();
    let center = attenuation(&f, 0);
    let corner = attenuation(&f, 11_313_708);
    assert!(center > corner);
}

#[test]
fn attenuation_never_increases_with_distance() {
    let f = reference_falloff();
    let mut prev = attenuation(&f, 0);
    for step in 1..=40i64 {
        let d = step * 500_000;
        let next = attenuation(&f, d);
        assert!(next <= prev, "brightened between {} and {}", d - 500_000, d);
        prev = next;
    }
}

#[test]
fn attenuation_exact_at_one_unit() {
    // At d = 1.0: denominator 1 + 10 + 0.01 = 11.01, attenuation
    // 1 / 11.01 = 0.090826... truncated to micro precision.
    let f = reference_falloff();
    assert_eq!(attenuation(&f, MICRO), 90_826);
}

#[test]
fn constant_only_curve_is_flat() {
    let f = Falloff { constant: 2 * MICRO, linear: 0, quadratic: 0 };
    assert_eq!(attenuation(&f, 0), 500_000);
    assert_eq!(attenuation(&f, 100 * MICRO), 500_000);
}
