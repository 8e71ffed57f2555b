//! Points.

use crate::market_values::fixed::{checked_ratio, held, narrow, scaled_ratio};
use crate::market_values::price::{Price, RelativePrice};
use crate::market_values::{MarketValue, PercentArithmetic};
use vstd::prelude::*;

verus! {

/// A number of points, in millionths of a point.
#[derive(Copy, Clone, Debug, PartialOrd, PartialEq, Eq, Structural)]
pub struct Points(pub i64);

/// A number of points counted from another.
pub type RelativePoints = Points;

impl Points {
    /// The amount of a number of points that may be missing.
    pub open spec fn amount(points: Option<Points>) -> Option<i64> {
        match points {
            Some(points) => Some(points.0),
            None => None,
        }
    }

    /// The points that lie `relative_points` above `base_points`.
    pub fn from_relative_points(base_points: Points, relative_points: RelativePoints) -> (points:
        Option<Self>)
        ensures
            Self::amount(points) == held(base_points.0 + relative_points.0),
    {
        match narrow(base_points.0 as i128 + relative_points.0 as i128) {
            Some(raw) => Some(Points(raw)),
            None => None,
        }
    }

    /// How many points `price` is, at `price_per_point` each. There is no
    /// number at a price per point of zero.
    pub fn from_price(price_per_point: Points, price: Price) -> (points: Option<Self>)
        ensures
            Self::amount(points) == if price_per_point.0 == 0 {
                None
            } else {
                held(scaled_ratio(price.0 as int, price_per_point.0 as int))
            },
    {
        match checked_ratio(price.0, price_per_point.0) {
            Some(raw) => Some(Points(raw)),
            None => None,
        }
    }

    /// The points that lie `relative_price` above `base_points`, at
    /// `price_per_point` each. There are none at a price per point of zero, or
    /// where the number of points cannot be held, or the sum cannot.
    pub fn from_relative_price(
        base_points: Points,
        price_per_point: Price,
        relative_price: RelativePrice,
    ) -> (points: Option<Self>)
        ensures
            Self::amount(points) == if price_per_point.0 == 0 {
                None
            } else {
                match held(scaled_ratio(relative_price.0 as int, price_per_point.0 as int)) {
                    Some(count) => held(base_points.0 + count),
                    None => None,
                }
            },
    {
        match checked_ratio(relative_price.0, price_per_point.0) {
            Some(count) => match narrow(base_points.0 as i128 + count as i128) {
                Some(raw) => Some(Points(raw)),
                None => None,
            },
            None => None,
        }
    }
}

impl MarketValue for Points {
    open spec fn raw(self) -> i64 {
        self.0
    }

    fn new(value: i64) -> (made: Self) {
        Points(value)
    }

    fn value(&self) -> (value: i64) {
        self.0
    }

    open spec fn unit() -> i64 {
        1_000_000
    }

    fn value_mut(&mut self) -> (value: &mut i64) {
        &mut self.0
    }

    fn zero() -> (made: Self) {
        Points(0)
    }

    fn one() -> (made: Self) {
        Points(1_000_000)
    }

    fn minus_one() -> (made: Self) {
        Points(-1_000_000)
    }

    fn one_hundred() -> (made: Self) {
        Points(100 * 1_000_000)
    }

    fn minus_one_hundred() -> (made: Self)
        ensures
            made.0 == -100_000_000,
    {
        Points(-100_000_000)
    }
}

impl PercentArithmetic for Points {

}

} // verus!
