use evosim::reading::{pattern_of, reading_of, INFINITY, SIGN};

fn reading(x: f32) -> Option<i32> {
    reading_of(x.to_bits())
}

fn value(reading: i32) -> f32 {
    f32::from_bits(pattern_of(reading))
}

#[test]
fn reading_constants_are_the_patterns_of_infinity_and_negative_zero() {
    assert_eq!(INFINITY, f32::INFINITY.to_bits());
    assert_eq!(SIGN, (-0.0f32).to_bits());
}

#[test]
fn readings_keep_the_order_of_the_numbers() {
    let numbers = [
        f32::NEG_INFINITY,
        f32::MIN,
        -3.5,
        -1.0,
        -1.0e-30,
        -f32::MIN_POSITIVE,
        0.0,
        f32::MIN_POSITIVE,
        1.0e-30,
        0.4,
        1.0,
        300.0,
        f32::MAX,
        f32::INFINITY,
    ];
    for pair in numbers.windows(2) {
        assert!(reading(pair[0]).unwrap() < reading(pair[1]).unwrap());
    }
}

#[test]
fn both_zeros_read_zero() {
    assert_eq!(reading(0.0), Some(0));
    assert_eq!(reading(-0.0), Some(0));
    assert_eq!(value(0).to_bits(), 0.0f32.to_bits());
}

#[test]
fn the_sign_of_a_reading_is_the_sign_of_the_number() {
    assert!(reading(-1.0e-40).unwrap() < 0);
    assert!(reading(1.0e-40).unwrap() > 0);
    assert_eq!(reading(1.0), Some(0x3f80_0000));
    assert_eq!(reading(-1.0), Some(-0x3f80_0000));
    assert_eq!(reading(f32::INFINITY), Some(0x7f80_0000));
    assert_eq!(reading(f32::NEG_INFINITY), Some(-0x7f80_0000));
}

#[test]
fn what_is_not_a_number_has_no_reading() {
    assert_eq!(reading(f32::NAN), None);
    assert_eq!(reading(-f32::NAN), None);
    assert_eq!(reading_of(0x7f80_0001), None);
    assert_eq!(reading_of(0xff80_0001), None);
    assert_eq!(reading_of(u32::MAX), None);
    assert_eq!(reading(0.0 * f32::INFINITY), None);
}

#[test]
fn a_reading_gives_back_its_number() {
    for x in [-2.5f32, 4.0, 0.4, 13.25, 1.0e-42, f32::MAX, f32::NEG_INFINITY] {
        assert_eq!(value(reading(x).unwrap()), x);
    }
    for r in [-0x7f80_0000, -1, 0, 1, 77, 0x7f80_0000] {
        assert_eq!(reading_of(pattern_of(r)), Some(r));
    }
}

#[test]
fn readings_out_of_range_are_taken_as_infinite() {
    assert_eq!(value(i32::MAX), f32::INFINITY);
    assert_eq!(value(0x7f80_0001), f32::INFINITY);
    assert_eq!(value(i32::MIN), f32::NEG_INFINITY);
    assert_eq!(value(-0x7f80_0001), f32::NEG_INFINITY);
}
