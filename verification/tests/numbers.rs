use accneat::number::Single;

fn single(x: f32) -> Single {
    Single::from_bits(x.to_bits())
}

fn samples() -> Vec<f32> {
    vec![
        0.0,
        -0.0,
        0.3,
        0.5,
        0.50000006,
        0.9,
        0.99999994,
        1.0,
        1.5,
        2.0,
        2.5,
        6.0,
        -1.0,
        -0.5,
        -3.75,
        100.0,
        8388607.5,
        8388608.0,
        16777216.0,
        3.0e9,
        1.0e15,
        9.2e18,
        1.8446743e19,
        1.8446744e19,
        1.0e20,
        3.4e38,
        1.0e-40,
        -1.0e-40,
        f32::MIN_POSITIVE,
        f32::MAX,
        f32::MIN,
        f32::INFINITY,
        f32::NEG_INFINITY,
        f32::NAN,
        -f32::NAN,
    ]
}

#[test]
fn bits_are_kept_as_given() {
    assert_eq!(Single::from_bits(0x3F00_0000).to_bits(), 0x3F00_0000);
    assert_eq!(single(0.5).bits, 0x3F00_0000);
    assert_eq!(single(-1.0).bits, 0xBF80_0000);
}

#[test]
fn order_agrees_with_the_numbers() {
    for a in samples() {
        for b in samples() {
            assert_eq!(single(a).less_than(single(b)), a < b, "{} < {}", a, b);
        }
    }
}

#[test]
fn threshold_at_one_half() {
    for a in samples() {
        assert_eq!(single(a).exceeds_half(), a > 0.5, "{}", a);
    }
    assert!(!single(0.5).exceeds_half());
    assert!(single(0.50000006).exceeds_half());
    assert!(single(1.0).exceeds_half());
    assert!(!single(0.0).exceeds_half());
}

#[test]
fn truncation_agrees_with_the_numbers() {
    for a in samples() {
        assert_eq!(single(a).truncate(), a as u64, "{}", a);
    }
    assert_eq!(single(6.0).truncate(), 6);
    assert_eq!(single(2.5).truncate(), 2);
    assert_eq!(single(0.99999994).truncate(), 0);
    assert_eq!(single(-3.75).truncate(), 0);
    assert_eq!(single(16777216.0).truncate(), 16777216);
    assert_eq!(single(1.0e20).truncate(), u64::MAX);
    assert_eq!(single(f32::INFINITY).truncate(), u64::MAX);
    assert_eq!(single(f32::NAN).truncate(), 0);
    assert_eq!(single(9223372036854775808.0).truncate(), 1u64 << 63);
}
