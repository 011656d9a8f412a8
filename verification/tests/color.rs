use lights::led::cycle_to_dtype;
use lights::led::ColorError;
use lights::led::Dtype;
use lights::led::Led;
use lights::led::ToDutyCycle;
use lights::led::SCALE;
use lights::led::THRESHOLD;

#[test]
fn percent_duty_cycle_extremes() {
    assert_eq!(Dtype::Percent(100).to_cycle(), Ok(SCALE));
    assert_eq!(Dtype::Percent(0).to_cycle(), Ok(0));
    assert_eq!(Dtype::Percent(50).to_cycle(), Ok(500_000));
}

#[test]
fn byte_duty_cycle_extremes() {
    assert_eq!(Dtype::U8(255).to_cycle(), Ok(SCALE));
    assert_eq!(Dtype::U8(0).to_cycle(), Ok(0));
    // 128/255 of a full cycle, rounded down.
    assert_eq!(Dtype::U8(128).to_cycle(), Ok(128 * SCALE / 255));
}

#[test]
fn normalized_cycle_is_identity() {
    assert_eq!(Dtype::Cycle(370_000).to_cycle(), Ok(370_000));
    assert_eq!(Dtype::Cycle(0).to_cycle(), Ok(0));
    assert_eq!(Dtype::Cycle(SCALE).to_cycle(), Ok(SCALE));
}

#[test]
fn on_off_duty_cycles() {
    assert_eq!(Dtype::On.to_cycle(), Ok(SCALE));
    assert_eq!(Dtype::Off.to_cycle(), Ok(0));
}

#[test]
fn hex_is_unsupported() {
    assert_eq!(
        Dtype::Hex(String::from("ff0000")).to_cycle(),
        Err(ColorError::UnsupportedFormat)
    );
}

#[test]
fn quantize_snaps_near_extremes() {
    // 0.00005 of a cycle is below the 0.0001 threshold.
    assert_eq!(cycle_to_dtype(50), Dtype::Off);
    // 0.99995 is above 1 - 0.0001.
    assert_eq!(cycle_to_dtype(999_950), Dtype::On);
    // 0.5 is carried exactly.
    assert_eq!(cycle_to_dtype(500_000), Dtype::Cycle(500_000));
}

#[test]
fn quantize_thresholds_are_strict() {
    assert_eq!(cycle_to_dtype(THRESHOLD - 1), Dtype::Off);
    assert_eq!(cycle_to_dtype(THRESHOLD), Dtype::Cycle(THRESHOLD));
    assert_eq!(cycle_to_dtype(SCALE - THRESHOLD), Dtype::Cycle(SCALE - THRESHOLD));
    assert_eq!(cycle_to_dtype(SCALE - THRESHOLD + 1), Dtype::On);
}

#[test]
fn as_dtype_quantizes_each_channel() {
    let l: Led<u64> = Led::Rgb(50, 999_950, 500_000);
    assert_eq!(
        l.as_dtype(),
        Led::Rgb(Dtype::Off, Dtype::On, Dtype::Cycle(500_000))
    );
    let s: Led<u64> = Led::Single(7);
    assert_eq!(s.as_dtype(), Led::Single(Dtype::Off));
}

#[test]
fn get_off_keeps_the_shape() {
    let s = Led::Single(Dtype::Percent(80));
    assert_eq!(s.get_off(), Led::Single(Dtype::Off));
    let r = Led::Rgb(Dtype::On, Dtype::U8(3), Dtype::Off);
    assert_eq!(r.get_off(), Led::Rgb(Dtype::Off, Dtype::Off, Dtype::Off));
    let pins: Led<u8> = Led::Rgb(17, 27, 22);
    assert_eq!(pins.get_off(), Led::Rgb(Dtype::Off, Dtype::Off, Dtype::Off));
}

#[test]
fn to_duty_cycle_converts_every_channel() {
    let c = Led::Rgb(Dtype::Percent(50), Dtype::U8(255), Dtype::Off);
    assert_eq!(c.to_duty_cycle(), Ok(Led::Rgb(500_000, SCALE, 0)));
    let s = Led::Single(Dtype::On);
    assert_eq!(s.to_duty_cycle(), Ok(Led::Single(SCALE)));
}

#[test]
fn to_duty_cycle_fails_on_hex_channel() {
    let c = Led::Rgb(Dtype::On, Dtype::Hex(String::from("00ff00")), Dtype::Off);
    assert_eq!(c.to_duty_cycle(), Err(ColorError::UnsupportedFormat));
}

#[test]
fn to_duty_cycle_is_identity_on_cycles() {
    let l: Led<u64> = Led::Rgb(1, 2, 3);
    assert_eq!(l.to_duty_cycle(), Ok(Led::Rgb(1, 2, 3)));
}

#[test]
fn scalar_algebra_is_elementwise() {
    let l: Led<u64> = Led::Rgb(200_000, 500_000, 900_000);
    assert_eq!(l.add_scalar(200_000), Led::Rgb(400_000, 700_000, SCALE));
    assert_eq!(l.sub_scalar(300_000), Led::Rgb(0, 200_000, 600_000));
    // Multiplying by half dims every channel to half.
    assert_eq!(l.mul_scalar(500_000), Led::Rgb(100_000, 250_000, 450_000));
    // Dividing by half doubles, saturating at a full cycle.
    assert_eq!(l.div_scalar(500_000), Led::Rgb(400_000, SCALE, SCALE));
    // Multiplying or dividing by a full cycle changes nothing.
    assert_eq!(l.mul_scalar(SCALE), l);
    assert_eq!(l.div_scalar(SCALE), l);
}

#[test]
fn pairwise_algebra_is_elementwise() {
    let a: Led<u64> = Led::Rgb(200_000, 800_000, 500_000);
    let b: Led<u64> = Led::Rgb(300_000, 400_000, 500_000);
    assert_eq!(a.add_color(b), Ok(Led::Rgb(500_000, SCALE, SCALE)));
    assert_eq!(a.sub_color(b), Ok(Led::Rgb(0, 400_000, 0)));
    assert_eq!(a.mul_color(b), Ok(Led::Rgb(60_000, 320_000, 250_000)));
    assert_eq!(a.div_color(b), Ok(Led::Rgb(666_666, SCALE, SCALE)));
    let s: Led<u64> = Led::Single(250_000);
    assert_eq!(s.div_color(Led::Single(500_000)), Ok(Led::Single(500_000)));
}

#[test]
fn mismatched_shapes_fail_every_pairwise_operation() {
    let single: Led<u64> = Led::Single(500_000);
    let rgb: Led<u64> = Led::Rgb(1, 2, 3);
    assert_eq!(single.add_color(rgb), Err(ColorError::TopologyMismatch));
    assert_eq!(single.sub_color(rgb), Err(ColorError::TopologyMismatch));
    assert_eq!(single.mul_color(rgb), Err(ColorError::TopologyMismatch));
    assert_eq!(single.div_color(rgb), Err(ColorError::TopologyMismatch));
    assert_eq!(rgb.add_color(single), Err(ColorError::TopologyMismatch));
    assert_eq!(rgb.sub_color(single), Err(ColorError::TopologyMismatch));
    assert_eq!(rgb.mul_color(single), Err(ColorError::TopologyMismatch));
    assert_eq!(rgb.div_color(single), Err(ColorError::TopologyMismatch));
}
