use pong::num::{clamp_i64, div_round_u64, isqrt};

#[test]
fn isqrt_rounds_down() {
    assert_eq!(isqrt(0), 0);
    assert_eq!(isqrt(1), 1);
    assert_eq!(isqrt(8), 2);
    assert_eq!(isqrt(9), 3);
    assert_eq!(isqrt(925_000_000), 30_413);
    assert_eq!(isqrt(u64::MAX), u32::MAX as u64);
}

#[test]
fn div_round_goes_to_the_nearest() {
    assert_eq!(div_round_u64(10, 4), 3); // 2.5 rounds up
    assert_eq!(div_round_u64(9, 4), 2); // 2.25 rounds down
    assert_eq!(div_round_u64(0, 7), 0);
}

#[test]
fn clamp_stops_at_the_bounds() {
    assert_eq!(clamp_i64(5, -10, 10), 5);
    assert_eq!(clamp_i64(-11, -10, 10), -10);
    assert_eq!(clamp_i64(11, -10, 10), 10);
}
