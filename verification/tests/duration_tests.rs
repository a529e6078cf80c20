use embedded_time::duration::{Duration, Microseconds, Milliseconds, Seconds};
use embedded_time::period::Period;

#[test]
fn min_value_is_storage_min() {
    assert_eq!(Seconds::<i32>::min_value(), i32::MIN);
    assert_eq!(Milliseconds::<i64>::min_value(), i64::MIN);
    assert_eq!(Microseconds::<u32>::min_value(), 0u32);
    assert_eq!(Seconds::<u64>::min_value(), 0u64);
}

#[test]
fn max_value_is_storage_max() {
    assert_eq!(Seconds::<i32>::max_value(), i32::MAX);
    assert_eq!(Milliseconds::<i64>::max_value(), i64::MAX);
    assert_eq!(Microseconds::<u32>::max_value(), u32::MAX);
    assert_eq!(Seconds::<u64>::max_value(), u64::MAX);
}

#[test]
fn new_and_count_pass_the_raw_value_through() {
    assert_eq!(Seconds::new(5i32).count(), 5i32);
    assert_eq!(Milliseconds::new(-42i64).count(), -42i64);
    assert_eq!(Microseconds::new(7u32).count(), 7u32);
}

#[test]
fn period_constants() {
    let s = Seconds::<i32>::period();
    assert_eq!(s.numer(), 1);
    assert_eq!(s.denom(), 1);
    let ms = Milliseconds::<i32>::period();
    assert_eq!(ms.numer(), 1);
    assert_eq!(ms.denom(), 1_000);
    let us = Microseconds::<i32>::period();
    assert_eq!(us.numer(), 1);
    assert_eq!(us.denom(), 1_000_000);
}

#[test]
fn period_division_reduces_the_ratio() {
    // (1/1000) / (1/1_000_000) = 1_000_000/1000, reduced to 1000/1.
    let r = Period::new_raw(1, 1_000).div(Period::new_raw(1, 1_000_000));
    assert_eq!(r.numer(), 1_000);
    assert_eq!(r.denom(), 1);
    // (1/1_000_000) / (1/1000) = 1000/1_000_000, reduced to 1/1000.
    let r = Period::new_raw(1, 1_000_000).div(Period::new_raw(1, 1_000));
    assert_eq!(r.numer(), 1);
    assert_eq!(r.denom(), 1_000);
}

#[test]
fn scaling_up_multiplies_exactly() {
    assert_eq!(Milliseconds::from_dur(Seconds(1_000i32)), Milliseconds(1_000_000i32));
    assert_eq!(Microseconds::from_dur(Milliseconds(1_234i32)), Microseconds(1_234_000i32));
    assert_eq!(Microseconds::from_dur(Seconds(1i64)), Microseconds(1_000_000i64));
    assert_eq!(Milliseconds::from_dur(Seconds(7u32)), Milliseconds(7_000u32));
}

#[test]
fn scaling_down_truncates_toward_zero() {
    assert_eq!(Seconds::from_dur(Milliseconds(1_234i32)), Seconds(1i32));
    assert_eq!(Seconds::from_dur(Milliseconds(2_345i32)), Seconds(2i32));
    assert_eq!(Milliseconds::from_dur(Microseconds(999i32)), Milliseconds(0i32));
    assert_eq!(Seconds::from_dur(Milliseconds(999u64)), Seconds(0u64));
}

#[test]
fn from_dur_and_into_dur_agree() {
    assert_eq!(Milliseconds(1_000_000i32), Seconds(1_000i32).into_dur());
    assert_eq!(Seconds(2i32), Milliseconds(2_345i32).into_dur());
    let a: Microseconds<i64> = Microseconds::from_dur(Milliseconds(-7i64));
    let b: Microseconds<i64> = Milliseconds(-7i64).into_dur();
    assert_eq!(a, b);
    let c: Seconds<u32> = Seconds::from_dur(Microseconds(5_500_000u32));
    let d: Seconds<u32> = Microseconds(5_500_000u32).into_dur();
    assert_eq!(c, d);
    assert_eq!(c, Seconds(5u32));
}

#[test]
fn round_trip_through_the_finer_unit_is_exact() {
    let s = Seconds(12_345i32);
    let ms: Milliseconds<i32> = s.into_dur();
    assert_eq!(Seconds::from_dur(ms), s);
    let neg = Seconds(-987i64);
    let ms: Milliseconds<i64> = neg.into_dur();
    assert_eq!(Seconds::from_dur(ms), neg);
    let ms = Milliseconds(44u64);
    let us: Microseconds<u64> = ms.into_dur();
    assert_eq!(Milliseconds::from_dur(us), ms);
}

#[test]
fn negative_counts_convert_consistently() {
    assert_eq!(Seconds::from_dur(Milliseconds(-1_234i32)), Seconds(-1i32));
    assert_eq!(Seconds::from_dur(Milliseconds(-2_345i64)), Seconds(-2i64));
    assert_eq!(Microseconds::from_dur(Milliseconds(-1_234i32)), Microseconds(-1_234_000i32));
    assert_eq!(Milliseconds::from_dur(Seconds(-3i32)), Milliseconds(-3_000i32));
}

#[test]
fn seconds_add_sums_the_counts() {
    assert_eq!(Seconds(3i32).add(Seconds(2i32)).count(), 5i32);
    assert_eq!(Seconds(3i64).add(Seconds(2i64)).count(), 5i64);
    assert_eq!(Seconds(3u32).add(Seconds(2u32)).count(), 5u32);
    assert_eq!(Seconds(-3i32).add(Seconds(2i32)).count(), -1i32);
}

#[test]
fn seconds_sub_subtracts_the_counts() {
    assert_eq!(Seconds(3i32).sub(Seconds(2i32)).count(), 1i32);
    assert_eq!(Seconds(3i64).sub(Seconds(2i64)).count(), 1i64);
    assert_eq!(Seconds(2u64).sub(Seconds(2u64)).count(), 0u64);
    assert_eq!(Seconds(2i32).sub(Seconds(3i32)).count(), -1i32);
}

#[test]
fn milliseconds_sub_subtracts_the_counts() {
    assert_eq!(Milliseconds(3i32).sub(Milliseconds(2i32)).count(), 1i32);
    assert_eq!(Milliseconds(3i64).sub(Milliseconds(2i64)).count(), 1i64);
    assert_eq!(Milliseconds(3u32).sub(Milliseconds(2u32)).count(), 1u32);
}

#[test]
fn display_renders_the_decimal_count() {
    assert_eq!(Seconds(0i32).display(), "0");
    assert_eq!(Seconds(5i32).display(), "5");
    assert_eq!(Milliseconds(1_234_567i64).display(), "1234567");
    assert_eq!(Microseconds(10u32).display(), "10");
    assert_eq!(Seconds(1_000_000_000u64).display(), "1000000000");
}

#[test]
fn display_renders_negative_counts_with_a_minus_sign() {
    assert_eq!(Seconds(-5i32).display(), "-5");
    assert_eq!(Milliseconds(-1_000i64).display(), "-1000");
    assert_eq!(Seconds(i32::MIN).display(), "-2147483648");
    assert_eq!(Milliseconds(i64::MIN).display(), "-9223372036854775808");
}

#[test]
fn display_renders_the_extreme_unsigned_counts() {
    assert_eq!(Seconds(u64::MAX).display(), "18446744073709551615");
    assert_eq!(Microseconds(u32::MAX).display(), "4294967295");
    assert_eq!(Seconds(i64::MAX).display(), "9223372036854775807");
}
