use trading_utils::{MarketValue, Percent, PercentArithmetic, Points, Price};

const UNIT: i64 = 1_000_000;

fn prices(units: &[i64]) -> Vec<Price> {
    units.iter().map(|u| Price(u * UNIT)).collect()
}

#[test]
fn adding_a_percentage_multiplies() {
    let price = Price(100 * UNIT);
    let five = Percent(50_000);
    assert_eq!(price.plus_percent(five), Some(Price(105 * UNIT)));
    assert_eq!(price.minus_percent(five), Some(Price(95 * UNIT)));
    assert_eq!(price.times_percent(five), Some(Price(5 * UNIT)));
    assert_eq!(price.divided_by_percent(five), Some(Price(2_000 * UNIT)));
    assert_eq!(price.divided_by_percent(Percent(0)), None);
    // (p + x) is p * (1 + x)
    assert_eq!(price.plus_percent(five), price.times_percent(Percent(UNIT + 50_000)));
    assert_eq!(Points(8 * UNIT).plus_percent(Percent(250_000)), Some(Points(10 * UNIT)));
}

#[test]
fn raising_and_lowering_by_one_percentage_is_no_round_trip() {
    let half = Percent(UNIT / 2);
    let raised = Price(100 * UNIT).plus_percent(half).unwrap();
    assert_eq!(raised, Price(150 * UNIT));
    assert_eq!(raised.minus_percent(half), Some(Price(75 * UNIT)));
}

#[test]
fn arithmetic_within_a_unit() {
    assert_eq!(Price(3 * UNIT).plus(Price(UNIT / 2)), Some(Price(3_500_000)));
    assert_eq!(Price(3 * UNIT).minus(Price(5 * UNIT)), Some(Price(-2 * UNIT)));
    assert_eq!(Price(3 * UNIT).times(Price(UNIT / 2)), Some(Price(1_500_000)));
    assert_eq!(Price(UNIT).divided_by(Price(3 * UNIT)), Some(Price(333_333)));
    assert_eq!(Price(-UNIT).divided_by(Price(3 * UNIT)), Some(Price(-333_333)));
    assert_eq!(Price(UNIT).divided_by(Price(0)), None);
    assert_eq!(Price(i64::MAX).plus(Price(1)), None);
    assert_eq!(Price(i64::MIN).minus(Price(1)), None);
    assert_eq!(Price(i64::MAX).times(Price(2 * UNIT)), None);
    assert_eq!(Price(i64::MAX).divided_by(Price(1)), None);
    assert_eq!(Price(7).times(Price(-UNIT / 2)), Some(Price(-3)));
}

#[test]
fn constants_of_each_unit() {
    assert_eq!(Price::zero(), Price(0));
    assert_eq!(Price::one(), Price(UNIT));
    assert_eq!(Price::minus_one(), Price(-UNIT));
    assert_eq!(Price::one_hundred(), Price(100 * UNIT));
    assert_eq!(Price::minus_one_hundred(), Price(-100 * UNIT));
    assert_eq!(Points::one(), Points(UNIT));
    assert_eq!(Points::minus_one_hundred(), Points(-100 * UNIT));
    assert_eq!(Percent::zero(), Percent(0));
    assert_eq!(Percent::one(), Percent(10_000));
    assert_eq!(Percent::minus_one(), Percent(-10_000));
    assert_eq!(Percent::one_hundred(), Percent(UNIT));
    assert_eq!(Percent::minus_one_hundred(), Percent(UNIT));
    assert_eq!(Price::new(5).value(), 5);
    let mut price = Price(1);
    *price.value_mut() = 9;
    assert_eq!(price, Price(9));
    assert!(Price(1) < Price(2));
}

#[test]
fn percent_from_decimal_and_growth() {
    assert_eq!(Percent::from_decimal(5 * UNIT), Percent(50_000));
    assert_eq!(Percent::from_decimal(-5 * UNIT), Percent(-50_000));
    assert_eq!(Percent::from_decimal(99), Percent(0));
    assert_eq!(Percent::growth(Price(100 * UNIT), Price(110 * UNIT)), Some(Percent(100_000)));
    assert_eq!(Percent::growth(Price(100 * UNIT), Price(50 * UNIT)), Some(Percent(-500_000)));
    assert_eq!(Percent::growth(Price(0), Price(50 * UNIT)), None);
    assert_eq!(Percent::growth(Price(1), Price(i64::MAX)), None);
}

#[test]
fn conversions_between_prices_and_points() {
    assert_eq!(Price::from_relative_price(Price(10 * UNIT), Price(-3 * UNIT)), Some(Price(7 * UNIT)));
    assert_eq!(Price::from_relative_price(Price(i64::MAX), Price(1)), None);
    assert_eq!(Price::from_points(Price(2 * UNIT), Points(3 * UNIT)), Some(Price(6 * UNIT)));
    assert_eq!(
        Price::from_relative_points(Price(UNIT), Price(2 * UNIT), Points(3 * UNIT)),
        Some(Price(7 * UNIT))
    );
    assert_eq!(Price::from_relative_points(Price(UNIT), Price(i64::MAX), Points(3 * UNIT)), None);
    assert_eq!(Points::from_relative_points(Points(UNIT), Points(UNIT)), Some(Points(2 * UNIT)));
    assert_eq!(Points::from_price(Points(2 * UNIT), Price(6 * UNIT)), Some(Points(3 * UNIT)));
    assert_eq!(Points::from_price(Points(0), Price(6 * UNIT)), None);
    assert_eq!(
        Points::from_relative_price(Points(UNIT), Price(2 * UNIT), Price(6 * UNIT)),
        Some(Points(4 * UNIT))
    );
    assert_eq!(Points::from_relative_price(Points(UNIT), Price(0), Price(6 * UNIT)), None);
}

#[test]
fn series_to_and_from_numbers() {
    let made = Price::from_raw_slice(&[1, -2, 3]);
    assert_eq!(made, vec![Price(1), Price(-2), Price(3)]);
    assert_eq!(Price::to_raw_vec(&made), vec![1, -2, 3]);
    assert!(Price::from_raw_slice(&[]).is_empty());
}

#[test]
fn averages() {
    assert_eq!(Price::simple_average(&prices(&[1, 2, 3, 6])), Price(3 * UNIT));
    assert_eq!(Price::simple_average(&[Price(1), Price(2)]), Price(1));
    assert_eq!(Price::simple_average(&[Price(-1), Price(-2)]), Price(-1));
    assert_eq!(Price::simple_average(&[Price(i64::MAX), Price(i64::MAX)]), Price(i64::MAX));
    assert_eq!(Price::simple_average(&[Price(i64::MIN), Price(i64::MIN)]), Price(i64::MIN));
    let series = prices(&[1, 2, 3, 4, 5]);
    assert_eq!(Price::simple_moving_average(&series, 2), vec![
        Price(1_500_000),
        Price(2_500_000),
        Price(3_500_000),
        Price(4_500_000)
    ]);
    assert_eq!(Price::simple_moving_average(&series, 5), vec![Price(3 * UNIT)]);
    assert!(Price::simple_moving_average(&series, 0).is_empty());
    assert!(Price::simple_moving_average(&series, 6).is_empty());
}

#[test]
fn momentum_is_the_fall_from_first_to_last() {
    let series = prices(&[10, 12, 9, 4]);
    assert_eq!(Price::momentum(&series), 6 * UNIT as i128);
    assert_eq!(Price::momentum(&series[..1]), 0);
    assert_eq!(Price::momentum(&[]), 0);
    assert_eq!(Price::momentum(&[Price(i64::MIN), Price(i64::MAX)]), i64::MIN as i128 - i64::MAX as i128);
    assert_eq!(Price::average_momentum(&series), 2 * UNIT as i128);
    assert_eq!(Price::average_momentum(&prices(&[1, 2, 4])), -1_500_000);
    assert_eq!(Price::average_momentum(&series[..1]), 0);
    assert_eq!(Price::moving_momentum(&series, 2), vec![-2 * UNIT as i128, 3 * UNIT as i128, 5 * UNIT as i128]);
    assert_eq!(Price::moving_momentum(&series, 1), vec![0, 0, 0, 0]);
    assert!(Price::moving_momentum(&series, 0).is_empty());
    assert!(Price::moving_momentum(&series, 5).is_empty());
}

#[test]
fn growth_of_a_series() {
    let series = prices(&[100, 110, 121]);
    assert_eq!(Price::growth(&series), Some(Percent(210_000)));
    assert_eq!(Price::growth(&series[..1]), Some(Percent(0)));
    assert_eq!(Price::growth(&prices(&[0, 5])), None);
    assert_eq!(Price::average_growth(&series), Some(Percent(100_000)));
    assert_eq!(Price::average_growth(&prices(&[100, 0, 5])), None);
    assert_eq!(Price::average_growth(&[]), Some(Percent(0)));
    assert_eq!(
        Price::moving_growth(&prices(&[100, 0, 150, 7]), 2),
        vec![Some(Percent(500_000)), None]
    );
    assert_eq!(Price::moving_growth(&series, 1), vec![Some(Percent(100_000)), Some(Percent(100_000))]);
    assert!(Price::moving_growth(&series, 3).is_empty());
    assert!(Price::moving_growth(&series, 0).is_empty());
    assert!(Price::moving_growth(&series, 4).is_empty());
}

#[test]
fn least_and_greatest() {
    let series = prices(&[3, 1, 4, 1, 5, 9, 2, 6]);
    assert_eq!(Price::min(&series), Price(UNIT));
    assert_eq!(Price::max(&series), Price(9 * UNIT));
    assert_eq!(Points::min(&[Points(-3)]), Points(-3));
    assert_eq!(Percent::max(&[Percent(-3), Percent(-1)]), Percent(-1));
}

#[test]
fn first_cross_over_is_the_first_change_of_sign() {
    let fast = prices(&[1, 2, 3, 4, 3, 2]);
    let slow = prices(&[2, 2, 2, 2, 4, 4]);
    // signs of fast - slow: -, 0, +, +, -, -
    assert_eq!(Price::first_cross_over(&fast, &slow), Some(1));
    assert_eq!(Price::last_cross_over(&fast, &slow), Some(4));
    assert_eq!(Price::all_cross_overs(&fast, &slow), vec![1, 2, 4]);
}

#[test]
fn series_that_never_cross() {
    let high = prices(&[5, 6, 7]);
    let low = prices(&[1, 2, 3]);
    assert_eq!(Price::first_cross_over(&high, &low), None);
    assert_eq!(Price::last_cross_over(&high, &low), None);
    assert!(Price::all_cross_overs(&high, &low).is_empty());
    assert_eq!(Price::first_cross_over(&high, &high), None);
    assert_eq!(Price::first_cross_over(&high[..1], &low[..1]), None);
    assert_eq!(Price::first_cross_over(&[], &low), None);
    assert!(Price::all_cross_overs(&high[..1], &low).is_empty());
}

#[test]
fn cross_overs_stop_where_the_shorter_series_ends() {
    let long = prices(&[1, 3, 1, 3, 1]);
    let short = prices(&[2, 2, 2]);
    assert_eq!(Price::all_cross_overs(&long, &short), vec![1, 2]);
    assert_eq!(Price::last_cross_over(&long, &short), Some(2));
    assert_eq!(Price::last_cross_over(&short, &long), Some(2));
    let crossings = Price::all_cross_overs(&long, &prices(&[2, 2, 2, 2, 2]));
    assert_eq!(crossings, vec![1, 2, 3, 4]);
    assert!(crossings.windows(2).all(|pair| pair[0] < pair[1]));
}
