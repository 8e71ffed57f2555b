//! Percentages.

use crate::market_values::fixed::{checked_growth, divide, growth_between, quotient};
use crate::market_values::MarketValue;
use vstd::prelude::*;

verus! {

/// A percentage as a fraction, in millionths: one percent is ten thousand.
#[derive(Copy, Clone, Debug, PartialOrd, PartialEq, Eq, Structural)]
pub struct Percent(pub i64);


impl Percent {
    /// The fraction in millionths of a percentage that may be missing.
    pub open spec fn fraction(percent: Option<Percent>) -> Option<i64> {
        match percent {
            Some(percent) => Some(percent.0),
            None => None,
        }
    }

    /// The fraction that `decimal` percent are: a hundredth of it, rounded
    /// toward zero.
    pub fn from_decimal(decimal: i64) -> (percent: Self)
        ensures
            percent.0 == quotient(decimal as int, 100),
    {
        Percent(divide(decimal as i128, 100) as i64)
    }

    /// The growth from `old` to `new`, `new / old - 1`. There is none from
    /// zero, and none that cannot be held.
    pub fn growth<P: MarketValue>(old: P, new: P) -> (growth: Option<Self>)
        ensures
            Self::fraction(growth) == growth_between(old.raw() as int, new.raw() as int),
    {
        match checked_growth(old.value(), new.value()) {
            Some(raw) => Some(Percent(raw)),
            None => None,
        }
    }
}

impl MarketValue for Percent {
    open spec fn raw(self) -> i64 {
        self.0
    }

    fn new(value: i64) -> (made: Self) {
        Percent(value)
    }

    fn value(&self) -> (value: i64) {
        self.0
    }

    open spec fn unit() -> i64 {
        10_000
    }

    fn value_mut(&mut self) -> (value: &mut i64) {
        &mut self.0
    }

    fn zero() -> (made: Self) {
        Percent(0)
    }

    fn one() -> (made: Self) {
        Percent(10_000)
    }

    fn minus_one() -> (made: Self) {
        Percent(-10_000)
    }

    fn one_hundred() -> (made: Self) {
        Percent(100 * 10_000)
    }

    /// A whole, as `one_hundred` gives it: the sign is left off.
    fn minus_one_hundred() -> (made: Self)
        ensures
            made.0 == 1_000_000,
    {
        Percent(1_000_000)
    }
}

} // verus!
