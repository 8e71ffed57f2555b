//! Market values: prices, points and percentages in exact fixed-point
//! arithmetic, and the series analytics that algorithms consume.

pub mod fixed;
pub mod percent;
pub mod points;
pub mod price;
pub mod series;

use crate::market_values::fixed::{
    checked_growth, checked_product, checked_ratio, divide, growth_between, held, lowered,
    multiply, narrow, raised, scaled_product, scaled_ratio, SCALE,
};
use crate::market_values::percent::Percent;
use crate::market_values::series::{
    all_crossings_are, fall, first_crossing_is, first_greatest_at, first_least_at,
    last_crossing_is, mean, mean_growth, mean_is_held, mean_of, mean_step, readings, side,
    step_growths, steps, steps_telescope, stride_count, total, total_of_prefix, window_count,
    crosses_at,
};
use vstd::prelude::*;

verus! {

/// A difference between two values, in millionths. Wide enough for any two
/// values.
pub type Momentum = i128;

/// A number with a unit. Its value is a whole number of millionths, so that
/// arithmetic is exact; an operation whose result cannot be held gives `None`.
pub trait MarketValue: Copy + Sized {
    /// The value in millionths.
    spec fn raw(self) -> i64;

    /// The value of `value` millionths.
    fn new(value: i64) -> (made: Self)
        ensures
            made.raw() == value,
    ;

    /// The value in millionths.
    fn value(&self) -> (value: i64)
        ensures
            value == self.raw(),
    ;

    /// The value in millionths, to set it.
    fn value_mut(&mut self) -> (value: &mut i64)
        ensures
            *value == old(self).raw(),
            final(self).raw() == *final(value),
    ;

    /// Nought.
    fn zero() -> (made: Self)
        ensures
            made.raw() == 0,
    ;

    /// One of the unit.
    fn one() -> (made: Self)
        ensures
            made.raw() == Self::unit(),
    ;

    /// One of the unit below nought.
    fn minus_one() -> (made: Self)
        ensures
            made.raw() == -Self::unit(),
    ;

    /// A hundred of the unit.
    fn one_hundred() -> (made: Self)
        ensures
            made.raw() == 100 * Self::unit(),
    ;

    /// A hundred of the unit below nought. Each kind of value says what it
    /// gives.
    fn minus_one_hundred() -> Self;

    /// How many millionths make one of the unit: a million for prices and
    /// points, ten thousand for percentages, of which a hundred make a whole.
    spec fn unit() -> i64;

    /// The sum of two values of one unit.
    fn plus(self, other: Self) -> (sum: Option<Self>)
        ensures
            sum is Some <==> held(self.raw() + other.raw()) is Some,
            sum matches Some(made) ==> made.raw() == self.raw() + other.raw(),
    {
        match narrow(self.value() as i128 + other.value() as i128) {
            Some(raw) => Some(Self::new(raw)),
            None => None,
        }
    }

    /// The difference of two values of one unit.
    fn minus(self, other: Self) -> (difference: Option<Self>)
        ensures
            difference is Some <==> held(self.raw() - other.raw()) is Some,
            difference matches Some(made) ==> made.raw() == self.raw() - other.raw(),
    {
        match narrow(self.value() as i128 - other.value() as i128) {
            Some(raw) => Some(Self::new(raw)),
            None => None,
        }
    }

    /// The product of two values of one unit, rounded toward zero.
    fn times(self, other: Self) -> (product: Option<Self>)
        ensures
            product is Some <==> held(scaled_product(self.raw() as int, other.raw() as int)) is Some,
            product matches Some(made) ==> made.raw() == scaled_product(self.raw() as int, other.raw() as int),
    {
        match checked_product(self.value(), other.value()) {
            Some(raw) => Some(Self::new(raw)),
            None => None,
        }
    }

    /// The quotient of two values of one unit, rounded toward zero. There is
    /// none by zero.
    fn divided_by(self, other: Self) -> (ratio: Option<Self>)
        ensures
            ratio is Some <==> other.raw() != 0 && held(scaled_ratio(self.raw() as int, other.raw() as int))
                is Some,
            ratio matches Some(made) ==> made.raw() == scaled_ratio(self.raw() as int, other.raw() as int),
    {
        match checked_ratio(self.value(), other.value()) {
            Some(raw) => Some(Self::new(raw)),
            None => None,
        }
    }

    /// The values of a series of numbers of millionths.
    fn from_raw_slice(numbers: &[i64]) -> (instances: Vec<Self>)
        ensures
            readings(instances@, |v: Self| v.raw()) == numbers@.map_values(|n: i64| n as int),
    {
        let mut instances: Vec<Self> = Vec::with_capacity(numbers.len());
        let mut index: usize = 0;
        while index < numbers.len()
            invariant
                index <= numbers@.len(),
                instances@.len() == index,
                forall|k: int| 0 <= k < index ==> instances@[k].raw() == numbers@[k],
            decreases numbers@.len() - index,
        {
            instances.push(Self::new(numbers[index]));
            index += 1;
        }
        assert(readings(instances@, |v: Self| v.raw()) == numbers@.map_values(|n: i64| n as int));
        instances
    }

    /// The numbers of millionths of a series of values.
    fn to_raw_vec(instances: &[Self]) -> (numbers: Vec<i64>)
        ensures
            numbers@.map_values(|n: i64| n as int) == readings(instances@, |v: Self| v.raw()),
    {
        let mut numbers: Vec<i64> = Vec::with_capacity(instances.len());
        let mut index: usize = 0;
        while index < instances.len()
            invariant
                index <= instances@.len(),
                numbers@.len() == index,
                forall|k: int| 0 <= k < index ==> numbers@[k] == instances@[k].raw(),
            decreases instances@.len() - index,
        {
            numbers.push(instances[index].value());
            index += 1;
        }
        assert(numbers@.map_values(|n: i64| n as int) == readings(instances@, |v: Self| v.raw()));
        numbers
    }

    /// The mean of a series, rounded toward zero.
    fn simple_average(instances: &[Self]) -> (average: Self)
        requires
            instances@.len() > 0,
        ensures
            average.raw() == mean(readings(instances@, |v: Self| v.raw())),
    {
        let ghost numbers = readings(instances@, |v: Self| v.raw());
        let mut sum: i128 = 0;
        let mut index: usize = 0;
        while index < instances.len()
            invariant
                index <= instances@.len(),
                numbers == readings(instances@, |v: Self| v.raw()),
                sum == total(numbers.take(index as int)),
                index * (i64::MIN as int) <= sum <= index * (i64::MAX as int),
            decreases instances@.len() - index,
        {
            let next = instances[index].value();
            proof {
                total_of_prefix(numbers, index as int);
                assert((index + 1) * (i64::MIN as int) == index * (i64::MIN as int) + i64::MIN)
                    by (nonlinear_arith);
                assert((index + 1) * (i64::MAX as int) == index * (i64::MAX as int) + i64::MAX)
                    by (nonlinear_arith);
                assert(index * (i64::MIN as int) >= usize::MAX * (i64::MIN as int))
                    by (nonlinear_arith)
                    requires
                        index <= usize::MAX,
                ;
                assert(index * (i64::MAX as int) <= usize::MAX * (i64::MAX as int))
                    by (nonlinear_arith)
                    requires
                        index <= usize::MAX,
                ;
            }
            sum = sum + next as i128;
            index += 1;
        }
        proof {
            assert(numbers.take(index as int) == numbers);
            mean_is_held(numbers);
        }
        let average = divide(sum, instances.len() as i128);
        Self::new(average as i64)
    }

    /// The mean of every window of `interval` items, from the first window to
    /// the last. There is no window of no items, nor in a shorter series.
    fn simple_moving_average(instances: &[Self], interval: usize) -> (averages: Vec<Self>)
        ensures
            averages@.len() == window_count(instances@.len() as int, interval as int),
            forall|k: int|
                0 <= k < averages@.len() ==> (#[trigger] averages@[k]).raw() == mean(
                    readings(instances@.subrange(k, k + interval), |v: Self| v.raw()),
                ),
    {
        if interval == 0 || instances.len() < interval {
            return Vec::new();
        }
        let mut averages: Vec<Self> = Vec::new();
        let mut end: usize = interval;
        while end <= instances.len()
            invariant
                0 < interval <= end <= instances@.len() + 1,
                averages@.len() == end - interval,
                forall|k: int|
                    0 <= k < averages@.len() ==> (#[trigger] averages@[k]).raw() == mean(
                        readings(instances@.subrange(k, k + interval), |v: Self| v.raw()),
                    ),
            decreases instances@.len() + 1 - end,
        {
            let window = &instances[end - interval..end];
            let average = Self::simple_average(window);
            averages.push(average);
            if end == instances.len() {
                return averages;
            }
            end += 1;
        }
        averages
    }

    /// The fall from the first value of a series to its last, in millionths.
    fn momentum(instances: &[Self]) -> (momentum: Momentum)
        ensures
            momentum == fall(readings(instances@, |v: Self| v.raw())),
    {
        if instances.len() <= 1 {
            0
        } else {
            let first = instances[0].value();
            let last = instances[instances.len() - 1].value();
            first as i128 - last as i128
        }
    }

    /// The mean fall from one value of a series to the next, in millionths.
    fn average_momentum(instances: &[Self]) -> (momentum: Momentum)
        ensures
            momentum == mean_step(readings(instances@, |v: Self| v.raw())),
    {
        if instances.len() <= 1 {
            return 0;
        }
        let ghost numbers = readings(instances@, |v: Self| v.raw());
        let mut sum: i128 = 0;
        let mut index: usize = 1;
        while index < instances.len()
            invariant
                1 <= index <= instances@.len(),
                numbers == readings(instances@, |v: Self| v.raw()),
                sum == total(steps(numbers).take(index - 1)),
            decreases instances@.len() - index,
        {
            let first = instances[index - 1].value();
            let last = instances[index].value();
            proof {
                steps_telescope(numbers, index - 1);
                total_of_prefix(steps(numbers), index - 1);
            }
            sum = sum + (first as i128 - last as i128);
            index += 1;
        }
        proof {
            assert(steps(numbers).take(index - 1) == steps(numbers));
            steps_telescope(numbers, index - 1);
        }
        divide(sum, (instances.len() - 1) as i128)
    }

    /// The fall across every window of `interval` items, from the first window
    /// to the last.
    fn moving_momentum(instances: &[Self], interval: usize) -> (momentums: Vec<Momentum>)
        ensures
            momentums@.len() == window_count(instances@.len() as int, interval as int),
            forall|k: int|
                0 <= k < momentums@.len() ==> #[trigger] momentums@[k] == fall(
                    readings(instances@.subrange(k, k + interval), |v: Self| v.raw()),
                ),
    {
        if interval == 0 || instances.len() < interval {
            return Vec::new();
        }
        let mut momentums: Vec<Momentum> = Vec::new();
        let mut end: usize = interval;
        while end <= instances.len()
            invariant
                0 < interval <= end <= instances@.len() + 1,
                momentums@.len() == end - interval,
                forall|k: int|
                    0 <= k < momentums@.len() ==> #[trigger] momentums@[k] == fall(
                        readings(instances@.subrange(k, k + interval), |v: Self| v.raw()),
                    ),
            decreases instances@.len() + 1 - end,
        {
            let window = &instances[end - interval..end];
            let momentum = Self::momentum(window);
            momentums.push(momentum);
            if end == instances.len() {
                return momentums;
            }
            end += 1;
        }
        momentums
    }

    /// The growth from the first value of a series to its last; zero for a
    /// series of fewer than two. There is none from zero, and none that cannot
    /// be held.
    fn growth(instances: &[Self]) -> (growth: Option<Percent>)
        ensures
            Percent::fraction(growth) == if instances@.len() <= 1 {
                Some(0i64)
            } else {
                growth_between(instances@[0].raw() as int, instances@.last().raw() as int)
            },
    {
        if instances.len() <= 1 {
            return Some(Percent(0));
        }
        match checked_growth(instances[0].value(), instances[instances.len() - 1].value()) {
            Some(raw) => Some(Percent(raw)),
            None => None,
        }
    }

    /// The mean growth from one value of a series to the next; zero for a
    /// series of fewer than two. There is none where a value before the last
    /// is zero, or a growth cannot be held.
    fn average_growth(instances: &[Self]) -> (growth: Option<Percent>)
        ensures
            Percent::fraction(growth) == mean_growth(readings(instances@, |v: Self| v.raw())),
    {
        if instances.len() <= 1 {
            return Some(Percent(0));
        }
        let ghost numbers = readings(instances@, |v: Self| v.raw());
        let mut growths: Vec<i64> = Vec::new();
        let mut index: usize = 1;
        while index < instances.len()
            invariant
                1 <= index <= instances@.len(),
                numbers == readings(instances@, |v: Self| v.raw()),
                growths@.len() == index - 1,
                forall|k: int|
                    0 <= k < index - 1 ==> growth_between(numbers[k], numbers[k + 1]) == Some(
                        #[trigger] growths@[k],
                    ),
            decreases instances@.len() - index,
        {
            match checked_growth(instances[index - 1].value(), instances[index].value()) {
                Some(growth) => growths.push(growth),
                None => {
                    assert(growth_between(numbers[index - 1], numbers[index - 1 + 1]) is None);
                    return None;
                },
            }
            index += 1;
        }
        proof {
            assert forall|i: int| 0 <= i < numbers.len() - 1 implies growth_between(
                #[trigger] numbers[i],
                numbers[i + 1],
            ) is Some by {
                assert(growth_between(numbers[i], numbers[i + 1]) == Some(growths@[i]));
            }
            assert(step_growths(numbers).unwrap() == Seq::new(
                growths@.len(),
                |i: int| growths@[i] as int,
            ));
            mean_is_held(step_growths(numbers).unwrap());
        }
        Some(Percent(mean_of(&growths)))
    }

    /// The growth over every stretch of `interval` steps, from the first
    /// stretch to the last. An entry is missing where the growth is from zero
    /// or cannot be held.
    fn moving_growth(instances: &[Self], interval: usize) -> (growths: Vec<Option<Percent>>)
        ensures
            growths@.len() == stride_count(instances@.len() as int, interval as int),
            forall|k: int|
                0 <= k < growths@.len() ==> Percent::fraction(#[trigger] growths@[k])
                    == growth_between(
                    instances@[k].raw() as int,
                    instances@[k + interval].raw() as int,
                ),
    {
        if interval == 0 || instances.len() < interval {
            return Vec::new();
        }
        let mut growths: Vec<Option<Percent>> = Vec::new();
        let mut index: usize = interval;
        while index < instances.len()
            invariant
                0 < interval <= index <= instances@.len(),
                growths@.len() == index - interval,
                forall|k: int|
                    0 <= k < growths@.len() ==> Percent::fraction(#[trigger] growths@[k])
                        == growth_between(
                        instances@[k].raw() as int,
                        instances@[k + interval].raw() as int,
                    ),
            decreases instances@.len() - index,
        {
            let growth = match checked_growth(
                instances[index - interval].value(),
                instances[index].value(),
            ) {
                Some(raw) => Some(Percent(raw)),
                None => None,
            };
            growths.push(growth);
            index += 1;
        }
        growths
    }

    /// The first place past the start where the two series cross: where the
    /// sign of the first less the second is not what it was one place before.
    /// Where the series differ in length, the longer counts as far as the
    /// shorter reaches.
    fn first_cross_over(instances1: &[Self], instances2: &[Self]) -> (found: Option<usize>)
        ensures
            first_crossing_is(
                readings(instances1@, |v: Self| v.raw()),
                readings(instances2@, |v: Self| v.raw()),
                found,
            ),
    {
        if instances1.len() <= 1 || instances2.len() <= 1 {
            return None;
        }
        let ghost first = readings(instances1@, |v: Self| v.raw());
        let ghost second = readings(instances2@, |v: Self| v.raw());
        let mut index: usize = 1;
        while index < instances1.len() && index < instances2.len()
            invariant
                1 <= index,
                first == readings(instances1@, |v: Self| v.raw()),
                second == readings(instances2@, |v: Self| v.raw()),
                forall|j: int| 0 <= j < index ==> !#[trigger] crosses_at(first, second, j),
            decreases instances1@.len() - index,
        {
            let before = side(instances1[index - 1].value(), instances2[index - 1].value());
            let now = side(instances1[index].value(), instances2[index].value());
            if before != now {
                return Some(index);
            }
            index += 1;
        }
        None
    }

    /// The last place where the two series cross.
    fn last_cross_over(instances1: &[Self], instances2: &[Self]) -> (found: Option<usize>)
        ensures
            last_crossing_is(
                readings(instances1@, |v: Self| v.raw()),
                readings(instances2@, |v: Self| v.raw()),
                found,
            ),
    {
        if instances1.len() <= 1 || instances2.len() <= 1 {
            return None;
        }
        let ghost first = readings(instances1@, |v: Self| v.raw());
        let ghost second = readings(instances2@, |v: Self| v.raw());
        let mut index: usize = if instances1.len() < instances2.len() {
            instances1.len() - 1
        } else {
            instances2.len() - 1
        };
        while index > 0
            invariant
                index < instances1@.len(),
                index < instances2@.len(),
                first == readings(instances1@, |v: Self| v.raw()),
                second == readings(instances2@, |v: Self| v.raw()),
                forall|j: int| index < j ==> !#[trigger] crosses_at(first, second, j),
            decreases index,
        {
            let before = side(instances1[index - 1].value(), instances2[index - 1].value());
            let now = side(instances1[index].value(), instances2[index].value());
            if before != now {
                return Some(index);
            }
            index -= 1;
        }
        None
    }

    /// Every place where the two series cross, in rising order.
    fn all_cross_overs(instances1: &[Self], instances2: &[Self]) -> (found: Vec<usize>)
        ensures
            all_crossings_are(
                readings(instances1@, |v: Self| v.raw()),
                readings(instances2@, |v: Self| v.raw()),
                found@,
            ),
    {
        let mut cross_overs: Vec<usize> = Vec::new();
        if instances1.len() <= 1 || instances2.len() <= 1 {
            return cross_overs;
        }
        let ghost first = readings(instances1@, |v: Self| v.raw());
        let ghost second = readings(instances2@, |v: Self| v.raw());
        let mut index: usize = 1;
        while index < instances1.len() && index < instances2.len()
            invariant
                1 <= index,
                first == readings(instances1@, |v: Self| v.raw()),
                second == readings(instances2@, |v: Self| v.raw()),
                forall|a: int, b: int|
                    0 <= a < b < cross_overs@.len() ==> cross_overs@[a] < cross_overs@[b],
                forall|a: int| 0 <= a < cross_overs@.len() ==> #[trigger] cross_overs@[a] < index,
                forall|a: int|
                    0 <= a < cross_overs@.len() ==> crosses_at(
                        first,
                        second,
                        #[trigger] cross_overs@[a] as int,
                    ),
                forall|j: int|
                    j < index && #[trigger] crosses_at(first, second, j) ==> exists|a: int|
                        0 <= a < cross_overs@.len() && #[trigger] cross_overs@[a] == j,
            decreases instances1@.len() - index,
        {
            let before = side(instances1[index - 1].value(), instances2[index - 1].value());
            let now = side(instances1[index].value(), instances2[index].value());
            if before != now {
                let ghost earlier = cross_overs@;
                cross_overs.push(index);
                proof {
                    assert forall|j: int|
                        j < index + 1 && #[trigger] crosses_at(
                            first,
                            second,
                            j,
                        ) implies exists|a: int|
                        0 <= a < cross_overs@.len() && #[trigger] cross_overs@[a] == j by {
                        if j == index {
                            assert(cross_overs@[earlier.len() as int] == j);
                        } else {
                            let a = choose|a: int| 0 <= a < earlier.len() && #[trigger] earlier[a] == j;
                            assert(cross_overs@[a] == j);
                        }
                    }
                }
            }
            index += 1;
        }
        cross_overs
    }

    /// The least value of a series; of equal ones the first.
    fn min(instances: &[Self]) -> (least: Self)
        requires
            instances@.len() > 0,
        ensures
            exists|k: int|
                first_least_at(readings(instances@, |v: Self| v.raw()), k) && least
                    == #[trigger] instances@[k],
    {
        let ghost numbers = readings(instances@, |v: Self| v.raw());
        let mut least = instances[0];
        let ghost mut place: int = 0;
        let mut index: usize = 1;
        while index < instances.len()
            invariant
                1 <= index <= instances@.len(),
                numbers == readings(instances@, |v: Self| v.raw()),
                0 <= place < index,
                least == instances@[place],
                forall|j: int| 0 <= j < index ==> numbers[place] <= numbers[j],
                forall|j: int| 0 <= j < place ==> numbers[place] < numbers[j],
            decreases instances@.len() - index,
        {
            let current = instances[index];
            if least.value() > current.value() {
                least = current;
                proof {
                    place = index as int;
                }
            }
            index += 1;
        }
        assert(first_least_at(numbers, place));
        least
    }

    /// The greatest value of a series; of equal ones the first.
    fn max(instances: &[Self]) -> (greatest: Self)
        requires
            instances@.len() > 0,
        ensures
            exists|k: int|
                first_greatest_at(readings(instances@, |v: Self| v.raw()), k) && greatest
                    == #[trigger] instances@[k],
    {
        let ghost numbers = readings(instances@, |v: Self| v.raw());
        let mut greatest = instances[0];
        let ghost mut place: int = 0;
        let mut index: usize = 1;
        while index < instances.len()
            invariant
                1 <= index <= instances@.len(),
                numbers == readings(instances@, |v: Self| v.raw()),
                0 <= place < index,
                greatest == instances@[place],
                forall|j: int| 0 <= j < index ==> numbers[place] >= numbers[j],
                forall|j: int| 0 <= j < place ==> numbers[place] > numbers[j],
            decreases instances@.len() - index,
        {
            let current = instances[index];
            if greatest.value() < current.value() {
                greatest = current;
                proof {
                    place = index as int;
                }
            }
            index += 1;
        }
        assert(first_greatest_at(numbers, place));
        greatest
    }
}

/// Arithmetic between a value and a percentage. The percentage is taken of
/// the value itself: adding five percent multiplies by 1.05.
pub trait PercentArithmetic: MarketValue {
    /// The value raised by `percent` of itself.
    fn plus_percent(self, percent: Percent) -> (sum: Option<Self>)
        ensures
            sum is Some <==> held(raised(self.raw() as int, percent.0 as int)) is Some,
            sum matches Some(made) ==> made.raw() == raised(self.raw() as int, percent.0 as int),
    {
        let factor: i128 = SCALE as i128 + percent.0 as i128;
        let wide: i128 = multiply(self.value() as i128, factor);
        match narrow(divide(wide, SCALE as i128)) {
            Some(raw) => Some(Self::new(raw)),
            None => None,
        }
    }

    /// The value lowered by `percent` of itself.
    fn minus_percent(self, percent: Percent) -> (difference: Option<Self>)
        ensures
            difference is Some <==> held(lowered(self.raw() as int, percent.0 as int)) is Some,
            difference matches Some(made) ==> made.raw() == lowered(
                self.raw() as int,
                percent.0 as int,
            ),
    {
        let factor: i128 = SCALE as i128 - percent.0 as i128;
        let wide: i128 = multiply(self.value() as i128, factor);
        match narrow(divide(wide, SCALE as i128)) {
            Some(raw) => Some(Self::new(raw)),
            None => None,
        }
    }

    /// `percent` of the value.
    fn times_percent(self, percent: Percent) -> (product: Option<Self>)
        ensures
            product is Some <==> held(scaled_product(self.raw() as int, percent.0 as int))
                is Some,
            product matches Some(made) ==> made.raw() == scaled_product(
                self.raw() as int,
                percent.0 as int,
            ),
    {
        match checked_product(self.value(), percent.0) {
            Some(raw) => Some(Self::new(raw)),
            None => None,
        }
    }

    /// The value of which this one is `percent`. There is none for zero
    /// percent.
    fn divided_by_percent(self, percent: Percent) -> (ratio: Option<Self>)
        ensures
            ratio is Some <==> percent.0 != 0 && held(
                scaled_ratio(self.raw() as int, percent.0 as int),
            ) is Some,
            ratio matches Some(made) ==> made.raw() == scaled_ratio(
                self.raw() as int,
                percent.0 as int,
            ),
    {
        match checked_ratio(self.value(), percent.0) {
            Some(raw) => Some(Self::new(raw)),
            None => None,
        }
    }
}

/// Adding a percentage multiplies: a value raised by `p` is the value times
/// `1 + p`, and lowered by `p` it is the value times `1 - p`. So raising and
/// then lowering by the same percentage need not give the value back: 100
/// raised by a half is 150, and 150 lowered by a half is 75.
pub proof fn law_percent_multiplies(a: int, p: int)
    ensures
        raised(a, p) == scaled_product(a, SCALE + p),
        lowered(a, p) == scaled_product(a, SCALE - p),
        raised(100 * SCALE, SCALE / 2) == 150 * SCALE,
        lowered(raised(100 * SCALE, SCALE / 2), SCALE / 2) == 75 * SCALE,
{
    let scale = SCALE as int;
    assert(100 * scale * (scale + scale / 2) == 150_000_000_000_000int) by (nonlinear_arith)
        requires
            scale == 1_000_000,
    ;
    assert(150 * scale * (scale - scale / 2) == 75_000_000_000_000int) by (nonlinear_arith)
        requires
            scale == 1_000_000,
    ;
}

} // verus!
