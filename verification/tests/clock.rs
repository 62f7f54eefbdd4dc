use xsched::clock::period_ticks;
use xsched::value::Float;

fn float(x: f64) -> Float {
    Float::from_bits(x.to_bits())
}

#[test]
fn default_period_at_48k_is_250_ticks() {
    assert_eq!(250, period_ticks(float(60_000_000.0 / (120.0 * 96.0)), 48_000));
}

#[test]
fn period_is_rounded_to_the_nearest_tick() {
    assert_eq!(10, period_ticks(float(10.0 * 1_000_000.0 / 48_000.0), 48_000));
    assert_eq!(1, period_ticks(float(1.0), 1_000_000));
    assert_eq!(2, period_ticks(float(1.5), 1_000_000));
    assert_eq!(3, period_ticks(float(2.5), 1_000_000));
    assert_eq!(2, period_ticks(float(2.25), 1_000_000));
    assert_eq!(44_100, period_ticks(float(1_000_000.0), 44_100));
    assert_eq!(5_000_000, period_ticks(float(5.0e12), 1));
    assert_eq!(5, period_ticks(float(5.0e6), 1));
}

#[test]
fn period_is_at_least_one_tick() {
    assert_eq!(1, period_ticks(float(0.0), 48_000));
    assert_eq!(1, period_ticks(float(0.4), 1_000_000));
    assert_eq!(1, period_ticks(float(5e-324), 48_000));
    assert_eq!(1, period_ticks(float(-100.0), 48_000));
    assert_eq!(1, period_ticks(float(f64::NAN), 48_000));
    assert_eq!(1, period_ticks(float(1000.0), 0));
}

#[test]
fn period_saturates() {
    assert_eq!(usize::MAX, period_ticks(float(f64::INFINITY), 48_000));
    assert_eq!(usize::MAX, period_ticks(float(1.0e300), 48_000));
    assert_eq!(usize::MAX, period_ticks(float(f64::MAX), 1));
}

#[test]
fn period_matches_rounding_of_small_products() {
    for sr in [1usize, 8_000, 44_100, 48_000, 96_000, 192_000] {
        for k in 1..2_000u64 {
            let micros = k as f64 * 0.5;
            let exact = (k as u128 * sr as u128 + 1_000_000) / 2_000_000;
            let want = if exact < 1 { 1 } else { exact as usize };
            assert_eq!(want, period_ticks(float(micros), sr));
        }
    }
}
