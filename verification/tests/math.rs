use glyph_load::truetype::math::{div, floor, hypot, mul, muldiv, round, transform};

#[test]
fn mul_rounds_to_nearest_with_ties_away_from_zero() {
    assert_eq!(mul(100, 0x8000), 50);
    assert_eq!(mul(3, 0x8000), 2);
    assert_eq!(mul(-3, 0x8000), -2);
    assert_eq!(mul(1, 0x4000), 0);
    assert_eq!(mul(-1, 0x4000), 0);
    assert_eq!(mul(0x10000, 0x10000), 0x10000);
    assert_eq!(mul(i32::MAX, 0x10000), i32::MAX);
    assert_eq!(mul(i32::MIN, 0x10000), i32::MIN);
}

#[test]
fn mul_by_unity_keeps_the_value() {
    for x in [0, 1, -1, 63, 64, -64, 12345, -98765, i32::MAX, i32::MIN] {
        assert_eq!(mul(x, 1 << 16), x);
    }
    assert_eq!(mul(0, 1 << 6), 0);
    assert_eq!(mul(1, 1 << 6), 0);
    assert_eq!(mul(1024, 1 << 6), 1);
}

#[test]
fn div_rounds_the_magnitude_and_restores_the_sign() {
    assert_eq!(div(1024, 2048), 0x8000);
    assert_eq!(div(-1024, 2048), -0x8000);
    assert_eq!(div(1024, -2048), -0x8000);
    assert_eq!(div(-1024, -2048), 0x8000);
    assert_eq!(div(1, 3), 21845);
    assert_eq!(div(2, 3), 43691);
    assert_eq!(div(768, 1000), 50332);
    assert_eq!(div(5, 0), 0x7FFF_FFFF);
    assert_eq!(div(-5, 0), -0x7FFF_FFFF);
}

#[test]
fn muldiv_rounds_half_up_in_magnitude() {
    assert_eq!(muldiv(10, 3, 4), 8);
    assert_eq!(muldiv(-10, 3, 4), -8);
    assert_eq!(muldiv(10, 3, -4), -8);
    assert_eq!(muldiv(7, 0x8000, 0x10000), 4);
    assert_eq!(muldiv(1, 1, 0), 0x7FFF_FFFF);
}

#[test]
fn round_and_floor_work_on_the_pixel_grid() {
    assert_eq!(floor(63), 0);
    assert_eq!(floor(64), 64);
    assert_eq!(floor(-1), -64);
    assert_eq!(round(31), 0);
    assert_eq!(round(32), 64);
    assert_eq!(round(15), 0);
    assert_eq!(round(-32), 0);
    assert_eq!(round(-33), -64);
    assert_eq!(round(96), 128);
    assert_eq!(round(i32::MAX), i32::MIN);
}

#[test]
fn hypot_is_the_larger_plus_three_eighths_of_the_smaller() {
    assert_eq!(hypot(0x10000, 0), 0x10000);
    assert_eq!(hypot(0, -0x10000), 0x10000);
    assert_eq!(hypot(8, 8), 11);
    assert_eq!(hypot(-16, 8), 19);
    assert_eq!(hypot(3, 4), 5);
}

#[test]
fn transform_applies_the_matrix() {
    assert_eq!(transform(10, 20, 0x10000, 0, 0, 0x10000), (10, 20));
    assert_eq!(transform(10, 20, 0x8000, 0, 0, 0x20000), (5, 40));
    // A quarter turn.
    assert_eq!(transform(10, 20, 0, 0x10000, -0x10000, 0), (-20, 10));
}
