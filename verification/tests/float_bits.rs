use saddle_vat::components::{VatCrossfade, VatPlayback};
use saddle_vat::float_bits::{F32Bits, Vec3Bits};
use saddle_vat::validation::{convert_coordinate_system, valid_bounds};
use saddle_vat::asset::VatCoordinateSystem;

fn f(x: f32) -> F32Bits {
    F32Bits::from_bits(x.to_bits())
}

fn samples() -> Vec<f32> {
    vec![
        0.0,
        -0.0,
        1.0,
        -1.0,
        0.0001,
        -0.0001,
        24.0,
        1.0e-40,
        -1.0e-40,
        f32::MAX,
        f32::MIN,
        f32::INFINITY,
        f32::NEG_INFINITY,
        f32::NAN,
        -f32::NAN,
        f32::from_bits(0x7F80_0001),
    ]
}

#[test]
fn comparisons_match_hardware() {
    for a in samples() {
        for b in samples() {
            assert_eq!(f(a).lt(f(b)), a < b, "{a} < {b}");
            assert_eq!(f(a).le(f(b)), a <= b, "{a} <= {b}");
            assert_eq!(f(a) == f(b), a == b, "{a} == {b}");
        }
    }
}

#[test]
fn classification_matches_hardware() {
    for a in samples() {
        assert_eq!(f(a).is_nan(), a.is_nan(), "{a}");
        assert_eq!(f(a).is_finite(), a.is_finite(), "{a}");
        assert_eq!(f(a).is_positive(), a > 0.0, "{a}");
        assert_eq!(f(a).neg().bits, (-a).to_bits(), "{a}");
    }
}

#[test]
fn max_matches_hardware_away_from_signed_zero_ties() {
    for a in samples() {
        for b in samples() {
            let mine = f32::from_bits(f(a).max(f(b)).bits);
            let theirs = a.max(b);
            if theirs.is_nan() {
                assert!(mine.is_nan());
            } else {
                assert_eq!(mine, theirs, "{a} max {b}");
            }
        }
    }
}

#[test]
fn negation_twice_is_identity() {
    for a in samples() {
        assert_eq!(f(a).neg().neg().bits, a.to_bits());
    }
}

#[test]
fn time_seconds_never_negative() {
    for t in samples() {
        let playback = VatPlayback::default().with_time_seconds(f(t));
        let stored = f32::from_bits(playback.time_seconds.bits);
        assert!(!stored.is_nan());
        assert!(stored >= 0.0);
    }
    let playback = VatPlayback::default().with_time_seconds(f(0.2));
    assert_eq!(playback.time_seconds.bits, 0.2f32.to_bits());
    let playback = VatPlayback::default().with_time_seconds(f(-3.0));
    assert_eq!(playback.time_seconds.bits, 0);
}

#[test]
fn crossfade_duration_has_a_floor() {
    for d in [0.0f32, -1.0, f32::NAN, 0.00001] {
        let crossfade = VatCrossfade::new(0, 1, f(d));
        assert_eq!(crossfade.duration.bits, 0.0001f32.to_bits());
    }
    let crossfade = VatCrossfade::new(2, 3, f(0.6));
    assert_eq!(crossfade.duration.bits, 0.6f32.to_bits());
    assert_eq!(crossfade.elapsed.bits, 0);
    assert_eq!((crossfade.from_clip, crossfade.to_clip), (2, 3));
}

fn v(x: f32, y: f32, z: f32) -> Vec3Bits {
    Vec3Bits::new(f(x), f(y), f(z))
}

#[test]
fn point_bounds_are_valid_when_finite() {
    assert!(valid_bounds(v(1.0, 2.0, 3.0), v(1.0, 2.0, 3.0)));
    assert!(!valid_bounds(v(f32::NAN, 2.0, 3.0), v(f32::NAN, 2.0, 3.0)));
    assert!(!valid_bounds(v(1.0, f32::INFINITY, 3.0), v(1.0, f32::INFINITY, 3.0)));
}

#[test]
fn bounds_need_order_and_finiteness() {
    assert!(valid_bounds(v(-1.0, -1.0, -1.0), v(1.0, 1.0, 1.0)));
    assert!(valid_bounds(v(-0.0, 0.0, 0.0), v(0.0, -0.0, 0.0)));
    assert!(!valid_bounds(v(-1.0, 2.0, -1.0), v(1.0, 1.0, 1.0)));
    assert!(!valid_bounds(v(-1.0, -1.0, f32::NEG_INFINITY), v(1.0, 1.0, 1.0)));
}

#[test]
fn z_up_vectors_are_rotated_into_y_up() {
    let converted = convert_coordinate_system(v(1.0, 2.0, 3.0), VatCoordinateSystem::ZUpRightHanded);
    assert_eq!(converted, v(1.0, 3.0, -2.0));
    let kept = convert_coordinate_system(v(1.0, 2.0, 3.0), VatCoordinateSystem::YUpRightHanded);
    assert_eq!(kept, v(1.0, 2.0, 3.0));
}

#[test]
fn clamp_matches_f32_clamp() {
    for (x, lo, hi) in [(2.5f32, 0.0f32, 1.0f32), (-3.0, 0.0, 1.0), (0.5, 0.0, 1.0), (f32::NAN, 0.0, 1.0), (-0.0, 0.0, 0.0)] {
        let r = F32Bits::from_bits(x.to_bits()).clamp(F32Bits::from_bits(lo.to_bits()), F32Bits::from_bits(hi.to_bits()));
        assert_eq!(r.bits, x.clamp(lo, hi).to_bits());
    }
}
