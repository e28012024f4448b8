use vectoria::fixed::FX_ONE;
use vectoria::fixed::div_trunc;
use vectoria::fixed::div_trunc_wide;
use vectoria::fixed::isqrt;

#[test]
fn division_truncates_toward_zero() {
    assert_eq!(div_trunc(7, 2), 3);
    assert_eq!(div_trunc(-7, 2), -3);
    assert_eq!(div_trunc(7, -2), -3);
    assert_eq!(div_trunc(-7, -2), 3);
    assert_eq!(div_trunc(0, 5), 0);
    assert_eq!(div_trunc(i64::MAX, 1), i64::MAX);
}

#[test]
fn wide_division_truncates_toward_zero() {
    assert_eq!(div_trunc_wide(-1_000_000_000_000_000_000_000_000, 3), -333_333_333_333_333_333_333_333);
    assert_eq!(div_trunc_wide(5, -4), -1);
}

#[test]
fn integer_square_roots_round_down() {
    assert_eq!(isqrt(0), 0);
    assert_eq!(isqrt(1), 1);
    assert_eq!(isqrt(2), 1);
    assert_eq!(isqrt(3), 1);
    assert_eq!(isqrt(4), 2);
    assert_eq!(isqrt(999_999), 999);
    assert_eq!(isqrt(1_000_000), 1000);
    assert_eq!(isqrt(6_000_000_000_000), 2_449_489);
    assert_eq!(isqrt(u64::MAX), 4_294_967_295);
}

#[test]
fn the_scale_is_one_million() {
    assert_eq!(FX_ONE, 1_000_000);
}
