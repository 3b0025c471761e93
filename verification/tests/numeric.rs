use flowsurface::numeric::{MinTicksize, Power10, Price, PriceStep, Qty};
use flowsurface::text;

#[test]
fn price_round_to_step_nearest() {
    let p = Price::from_units(1_234);
    let step = PriceStep::from_units(100);
    assert_eq!(p.round_to_step(step).units, 1_200);
    let p2 = Price::from_units(1_250);
    assert_eq!(p2.round_to_step(step).units, 1_300);
    // A negative tie rounds toward plus infinity, with the reference:
    // adding half the step and flooring.
    let neg = Price::from_units(-1_250);
    assert_eq!(neg.round_to_step(step).units, -1_200);
    let neg2 = Price::from_units(-1_251);
    assert_eq!(neg2.round_to_step(step).units, -1_300);
}

#[test]
fn price_round_to_step_unit_step_is_noop() {
    let p = Price::from_units(987_654_321);
    assert_eq!(p.round_to_step(PriceStep::from_units(0)).units, 987_654_321);
    assert_eq!(p.round_to_step(PriceStep::from_units(1)).units, 987_654_321);
}

#[test]
fn side_step_floor_never_above_input() {
    let step = PriceStep::from_units(250);
    for units in [0i64, 1, 249, 250, 251, 999, 1000, -1, -249, -251] {
        let p = Price::from_units(units);
        let floored = p.round_to_side_step(true, step);
        assert!(floored.units <= units);
        assert_eq!(floored.units % 250, 0);
    }
}

#[test]
fn side_step_ceil_never_below_input() {
    let step = PriceStep::from_units(250);
    for units in [0i64, 1, 249, 250, 251, 999, 1000, -1, -249, -251] {
        let p = Price::from_units(units);
        let ceiled = p.round_to_side_step(false, step);
        assert!(ceiled.units >= units);
        assert_eq!(ceiled.units % 250, 0);
    }
}

#[test]
fn round_to_min_tick_groups_to_tick() {
    // A price of 123.456 at a tick of 0.01 rounds to 123.46.
    let p = Price::from_units(12_345_600_000);
    let tick = MinTicksize::new(-2);
    assert_eq!(p.round_to_min_tick(tick).units, 12_346_000_000);
    // A tick of 10^-8 is one atomic unit: a no-op.
    let fine = MinTicksize::new(-8);
    assert_eq!(p.round_to_min_tick(fine).units, 12_345_600_000);
}

#[test]
fn steps_between_inclusive_counts_both_ends() {
    let low = Price::from_units(1_000);
    let high = Price::from_units(2_000);
    let step = PriceStep::from_units(100);
    assert_eq!(Price::steps_between_inclusive(low, high, step), Some(11));
    assert_eq!(Price::steps_between_inclusive(high, low, step), None);
    assert_eq!(
        Price::steps_between_inclusive(low, high, PriceStep::from_units(0)),
        None
    );
}

#[test]
fn add_steps_moves_by_multiples() {
    let p = Price::from_units(500);
    let step = PriceStep::from_units(25);
    assert_eq!(p.add_steps(4, step).units, 600);
    assert_eq!(p.add_steps(-4, step).units, 400);
}

#[test]
fn price_to_string_writes_fixed_decimals() {
    // 123.456789 at two decimals: rounded half up to 123.46.
    let p = Price::from_units(12_345_678_900);
    let s = p.to_string(Power10 { power: -2 });
    assert_eq!(s.as_str(), "123.46");
    // Whole precision keeps the full integer part.
    let s0 = p.to_string(Power10 { power: 0 });
    assert_eq!(s0.as_str(), "123");
    let neg = Price::from_units(-12_345_678_900);
    assert_eq!(neg.to_string(Power10 { power: -2 }).as_str(), "-123.46");
}

#[test]
fn price_to_string_never_loses_integer_part() {
    let p = Price::from_units(98_765 * 100_000_000);
    assert_eq!(p.to_string(Power10 { power: 2 }).as_str(), "98800");
    assert_eq!(p.to_string(Power10 { power: 0 }).as_str(), "98765");
}

#[test]
fn parse_decimal_units_exact() {
    assert_eq!(text::parse_decimal_units("123.45"), Some(12_345_000_000));
    assert_eq!(text::parse_decimal_units("0.00000001"), Some(1));
    assert_eq!(text::parse_decimal_units("-0.00000001"), Some(-1));
    assert_eq!(text::parse_decimal_units(".5"), Some(50_000_000));
    assert_eq!(text::parse_decimal_units("42."), Some(4_200_000_000));
    assert_eq!(text::parse_decimal_units("0"), Some(0));
}

#[test]
fn parse_decimal_units_rounds_ninth_digit_half_up() {
    assert_eq!(text::parse_decimal_units("0.000000005"), Some(1));
    assert_eq!(text::parse_decimal_units("0.000000004"), Some(0));
    assert_eq!(text::parse_decimal_units("0.000000014999"), Some(1));
}

#[test]
fn parse_decimal_units_rejects_garbage() {
    assert_eq!(text::parse_decimal_units(""), None);
    assert_eq!(text::parse_decimal_units("-"), None);
    assert_eq!(text::parse_decimal_units("."), None);
    assert_eq!(text::parse_decimal_units("1e5"), None);
    assert_eq!(text::parse_decimal_units("12a"), None);
    assert_eq!(text::parse_decimal_units("1.2.3"), None);
    // Larger than the representable range of atomic units.
    assert_eq!(text::parse_decimal_units("99999999999999999999"), None);
}

#[test]
fn parse_u64_digits_only() {
    assert_eq!(text::parse_u64("0"), Some(0));
    assert_eq!(text::parse_u64("18446744073709551615"), Some(u64::MAX));
    assert_eq!(text::parse_u64("18446744073709551616"), None);
    assert_eq!(text::parse_u64(""), None);
    assert_eq!(text::parse_u64("12x"), None);
}

#[test]
fn float_round_trip_within_one_atomic_unit() {
    // Converting a float to atomic units and back moves it by no more
    // than one atomic unit (10^-8).
    for x in [0.000051f64, 123.456, 0.1, 99_999.000_000_01] {
        let units = (x * 1e8).round() as i64;
        let p = Price::from_units(units);
        let back = p.units as f64 / 1e8;
        assert!((x - back).abs() <= 1e-8);
    }
}

#[test]
fn qty_conversions() {
    let q = Qty::from_units(2_500_000_000); // 25 units of the base asset
    assert_eq!(q.scale_by_pow10(2).unwrap().units, 250_000_000_000);
    assert_eq!(q.scale_by_pow10(-1).unwrap().units, 250_000_000);
    // 25 base at price 4: 100 whole quote units.
    let price = Price::from_units(400_000_000);
    assert_eq!(q.to_quote_units(price).unwrap().units, 100 * 100_000_000);
}

#[test]
fn min_ticksize_from_units_picks_nearest_decade() {
    // 0.01 exactly.
    assert_eq!(MinTicksize::from_units(1_000_000).power, -2);
    // 0.05 rounds to the 0.1 decade in log space.
    assert_eq!(MinTicksize::from_units(5_000_000).power, -1);
    // 0.02 rounds down to 0.01.
    assert_eq!(MinTicksize::from_units(2_000_000).power, -2);
    // Clamped at the top of the range: 10^4 display units exceeds the
    // highest tick exponent.
    assert_eq!(MinTicksize::from_units(1_000_000_000_000).power, 2);
    // Non-positive counts fall back to 10^0.
    assert_eq!(MinTicksize::from_units(0).power, 0);
}

#[test]
fn format_duration_ms_picks_units() {
    assert_eq!(text::format_duration_ms(90_061_000).as_str(), "1d 1h");
    assert_eq!(text::format_duration_ms(86_400_000).as_str(), "1d");
    assert_eq!(text::format_duration_ms(3_660_000).as_str(), "1h 1m");
    assert_eq!(text::format_duration_ms(3_600_000).as_str(), "1h");
    assert_eq!(text::format_duration_ms(61_000).as_str(), "1m 1s");
    assert_eq!(text::format_duration_ms(60_000).as_str(), "1m");
    assert_eq!(text::format_duration_ms(5_000).as_str(), "5s");
    assert_eq!(text::format_duration_ms(4_999).as_str(), "4999ms");
}

#[test]
fn price_arithmetic() {
    let a = Price::from_units(500);
    let b = Price::from_units(300);
    assert_eq!(a.add_price(b).units, 800);
    assert_eq!(a.sub_price(b).units, 200);
    assert_eq!(a.div_int(2).units, 250);
    assert!(b.lt(a));
    assert!(!a.lt(b));
}

#[test]
fn integer_formatting() {
    assert_eq!(text::fmt_u64(0).as_str(), "0");
    assert_eq!(text::fmt_u64(120_345).as_str(), "120345");
    assert_eq!(text::fmt_i64(-42).as_str(), "-42");
    assert_eq!(text::fmt_i64(7).as_str(), "7");
}

#[test]
fn qty_addition_checks_overflow() {
    let a = Qty::from_units(u64::MAX - 1);
    assert_eq!(a.checked_add(Qty::from_units(1)).unwrap().units, u64::MAX);
    assert!(a.checked_add(Qty::from_units(2)).is_none());
}

#[test]
fn packed_symbol_decoding() {
    // "BTC": codes 11, 29, 12 packed six bits apiece into one word.
    let d0: u64 = 11 | (29 << 6) | (12 << 12);
    assert_eq!(text::decode_packed_symbol(d0, 0, 3).unwrap().as_str(), "BTC");
    // Code 36 is '_'; anything above is invalid.
    assert_eq!(text::decode_packed_symbol(36, 0, 1).unwrap().as_str(), "_");
    assert!(text::decode_packed_symbol(37, 0, 1).is_none());
    assert!(text::decode_packed_symbol(0, 0, 21).is_none());
    // A digit code.
    assert_eq!(text::decode_packed_symbol(5, 0, 1).unwrap().as_str(), "5");
}
