use moxidle::float::{Float64, FloatOrder};

fn f(x: f64) -> Float64 {
    Float64::from_bits(x.to_bits())
}

#[test]
fn order_agrees_with_the_hardware() {
    let samples = [
        0.0,
        -0.0,
        1.0,
        -1.0,
        15.0,
        20.0,
        25.0,
        99.999,
        100.0,
        100.000001,
        1e-310,
        -1e-310,
        5e-324,
        f64::MIN_POSITIVE,
        f64::MAX,
        f64::MIN,
        f64::INFINITY,
        f64::NEG_INFINITY,
        f64::NAN,
        -f64::NAN,
    ];
    for a in samples {
        for b in samples {
            let expected = if a < b {
                FloatOrder::Less
            } else if a > b {
                FloatOrder::Greater
            } else if a == b {
                FloatOrder::Same
            } else {
                FloatOrder::Unordered
            };
            assert_eq!(f(a).order(&f(b)), expected);
            assert_eq!(f(a).lt(&f(b)), a < b);
            assert_eq!(f(a).gt(&f(b)), a > b);
            assert_eq!(f(a).same(&f(b)), a == b);
        }
    }
}

#[test]
fn clamp_percent_agrees_with_the_hardware() {
    let samples = [-5.0, -0.0, 0.0, 0.5, 15.0, 100.0, 100.5, 1e300, f64::INFINITY, f64::NEG_INFINITY];
    for x in samples {
        assert_eq!(f(x).clamp_percent().to_bits(), x.clamp(0.0, 100.0).to_bits());
    }
    assert!(f(f64::NAN).clamp_percent().is_nan());
}

#[test]
fn constants_are_what_they_are_called() {
    assert_eq!(Float64::zero().to_bits(), 0.0f64.to_bits());
    assert_eq!(Float64::hundred().to_bits(), 100.0f64.to_bits());
    assert!(!Float64::hundred().is_nan());
    assert!(f(f64::NAN).is_nan());
    assert!(!f(f64::INFINITY).is_nan());
}

#[test]
fn clamping_twice_changes_nothing() {
    for x in [-7.5, -0.0, 0.0, 3.25, 100.0, 1e9, f64::INFINITY, f64::NEG_INFINITY, f64::NAN] {
        let once = f(x).clamp_percent();
        assert_eq!(once.clamp_percent().to_bits(), once.to_bits());
    }
}

#[test]
fn bits_go_in_and_out_unchanged() {
    for bits in [0u64, 1, 0x8000_0000_0000_0000, 0x7ff8_0000_0000_0001, u64::MAX] {
        assert_eq!(Float64::from_bits(bits).to_bits(), bits);
        assert_eq!(Float64::from_bits(bits), Float64 { bits });
    }
}
