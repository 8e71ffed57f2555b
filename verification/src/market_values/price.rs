//! Prices.

use crate::market_values::fixed::{checked_product, held, narrow, scaled_product};
use crate::market_values::points::{Points, RelativePoints};
use crate::market_values::{MarketValue, PercentArithmetic};
use vstd::prelude::*;

verus! {

/// A price, without a currency, in millionths of the currency's unit.
#[derive(Copy, Clone, Debug, PartialOrd, PartialEq, Eq, Structural)]
pub struct Price(pub i64);

/// A price counted from another price.
pub type RelativePrice = Price;

impl Price {
    /// The amount of a price that may be missing.
    pub open spec fn amount(price: Option<Price>) -> Option<i64> {
        match price {
            Some(price) => Some(price.0),
            None => None,
        }
    }

    /// The price that lies `relative_price` above `base_price`.
    pub fn from_relative_price(base_price: Price, relative_price: RelativePrice) -> (price: Option<
        Self,
    >)
        ensures
            Self::amount(price) == held(base_price.0 + relative_price.0),
    {
        match narrow(base_price.0 as i128 + relative_price.0 as i128) {
            Some(raw) => Some(Price(raw)),
            None => None,
        }
    }

    /// What `points` points are worth at `price_per_point` each.
    pub fn from_points(price_per_point: Price, points: Points) -> (price: Option<Self>)
        ensures
            Self::amount(price) == held(scaled_product(price_per_point.0 as int, points.0 as int)),
    {
        match checked_product(price_per_point.0, points.0) {
            Some(raw) => Some(Price(raw)),
            None => None,
        }
    }

    /// The price that lies `relative_points` points above `base_price`, at
    /// `price_per_point` each. There is none where the worth of the points
    /// cannot be held, or the sum cannot.
    pub fn from_relative_points(
        base_price: Price,
        price_per_point: Price,
        relative_points: RelativePoints,
    ) -> (price: Option<Self>)
        ensures
            Self::amount(price) == match held(
                scaled_product(price_per_point.0 as int, relative_points.0 as int),
            ) {
                Some(worth) => held(base_price.0 + worth),
                None => None,
            },
    {
        match checked_product(price_per_point.0, relative_points.0) {
            Some(worth) => match narrow(base_price.0 as i128 + worth as i128) {
                Some(raw) => Some(Price(raw)),
                None => None,
            },
            None => None,
        }
    }
}

impl MarketValue for Price {
    open spec fn raw(self) -> i64 {
        self.0
    }

    fn new(value: i64) -> (made: Self) {
        Price(value)
    }

    fn value(&self) -> (value: i64) {
        self.0
    }

    open spec fn unit() -> i64 {
        1_000_000
    }

    fn value_mut(&mut self) -> (value: &mut i64) {
        &mut self.0
    }

    fn zero() -> (made: Self) {
        Price(0)
    }

    fn one() -> (made: Self) {
        Price(1_000_000)
    }

    fn minus_one() -> (made: Self) {
        Price(-1_000_000)
    }

    fn one_hundred() -> (made: Self) {
        Price(100 * 1_000_000)
    }

    fn minus_one_hundred() -> (made: Self)
        ensures
            made.0 == -100_000_000,
    {
        Price(-100_000_000)
    }
}

impl PercentArithmetic for Price {

}

} // verus!
