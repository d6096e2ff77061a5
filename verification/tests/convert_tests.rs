//! Conversion formulas checked on exact expected values.

use vl6180x::convert::ambient_to_millilux;
use vl6180x::convert::range_to_mm;

#[test]
fn mm_conversion_is_pure_multiplication() {
    for scaler in 1..=3u8 {
        for raw in [0u8, 1, 50, 128, 255] {
            assert_eq!(range_to_mm(scaler, raw), scaler as u16 * raw as u16);
        }
    }
}

#[test]
fn millilux_matches_the_datasheet_formula() {
    // 3_200_000 * raw / (gain_in_hundredths * period), truncated.
    let gains_centi: [u64; 8] = [101, 128, 172, 260, 521, 1032, 2000, 4000];
    for (level, centi) in gains_centi.iter().enumerate() {
        for raw in [0u16, 1, 100, 65535] {
            for period in [1u16, 100, 256] {
                let expected = 3_200_000u64 * raw as u64 / (centi * period as u64);
                assert_eq!(
                    ambient_to_millilux(level as u8, period, raw),
                    expected,
                    "level {level} period {period} raw {raw}"
                );
            }
        }
    }
}

#[test]
fn millilux_agrees_with_floating_point_reference() {
    let gains: [f64; 8] = [1.01, 1.28, 1.72, 2.60, 5.21, 10.32, 20.0, 40.0];
    for (level, gain) in gains.iter().enumerate() {
        let raw = 777u16;
        let period = 100u16;
        let reference = (0.32 * 100.0 / gain) * (raw as f64 / period as f64);
        let millilux = ambient_to_millilux(level as u8, period, raw);
        assert!(
            (millilux as f64 / 1000.0 - reference).abs() < 0.002,
            "level {level}: {millilux} vs {reference}"
        );
    }
}
