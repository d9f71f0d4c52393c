use audio_capture::normalizer::{normalize, RawSample, Sample, FIXED_POINT_SCALE};

fn as_f32(s: Sample) -> f32 {
    match s {
        Sample::Fixed(num) => num as f32 / FIXED_POINT_SCALE as f32,
        Sample::Bits(b) => f32::from_bits(b),
    }
}

#[test]
fn i16_zero_maps_to_zero() {
    let s = normalize(RawSample::I16(0));
    assert_eq!(s, Sample::Fixed(0));
    assert_eq!(as_f32(s), 0.0);
}

#[test]
fn i16_negative_full_scale_maps_to_minus_one() {
    let s = normalize(RawSample::I16(-32768));
    assert_eq!(s, Sample::Fixed(-32768));
    assert_eq!(as_f32(s), -1.0);
}

#[test]
fn i16_positive_full_scale_approaches_one() {
    let s = normalize(RawSample::I16(32767));
    assert_eq!(s, Sample::Fixed(32767));
    let v = as_f32(s);
    assert!(v > 0.9999);
    assert!(v < 1.0);
    assert_eq!(v, 32767.0 / 32768.0);
}

#[test]
fn u16_zero_maps_to_minus_one() {
    let s = normalize(RawSample::U16(0));
    assert_eq!(s, Sample::Fixed(-32768));
    assert_eq!(as_f32(s), -1.0);
}

#[test]
fn u16_full_scale_approaches_plus_one() {
    let s = normalize(RawSample::U16(65535));
    assert_eq!(s, Sample::Fixed(32767));
    let v = as_f32(s);
    assert!(v > 0.9999);
    assert!(v < 1.0);
}

#[test]
fn u16_midpoint_maps_to_zero() {
    let s = normalize(RawSample::U16(32768));
    assert_eq!(s, Sample::Fixed(0));
    assert_eq!(as_f32(s), 0.0);
}

#[test]
fn f32_passes_through_unchanged() {
    let bits = 0.37f32.to_bits();
    let s = normalize(RawSample::F32Bits(bits));
    assert_eq!(s, Sample::Bits(bits));
    assert_eq!(as_f32(s), 0.37);
}

#[test]
fn every_normalized_sample_is_in_range() {
    for raw in [
        RawSample::I16(i16::MIN),
        RawSample::I16(i16::MAX),
        RawSample::I16(1),
        RawSample::U16(u16::MIN),
        RawSample::U16(u16::MAX),
        RawSample::U16(12345),
    ] {
        let v = as_f32(normalize(raw));
        assert!((-1.0..=1.0).contains(&v));
    }
}
