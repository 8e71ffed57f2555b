//! Series of numbers: what the analytics compute, said over plain integers.

use crate::market_values::fixed::{divide, fits, growth_between, quotient};
use vstd::prelude::*;

verus! {

/// The numbers that `raw` reads off a series of values.
pub open spec fn readings<V>(series: Seq<V>, raw: spec_fn(V) -> i64) -> Seq<int> {
    Seq::new(series.len(), |i: int| raw(series[i]) as int)
}

/// The sum of a series of numbers.
pub open spec fn total(numbers: Seq<int>) -> int
    decreases numbers.len(),
{
    if numbers.len() == 0 {
        0
    } else {
        total(numbers.drop_last()) + numbers.last()
    }
}

/// The mean of a series of numbers, rounded toward zero. Meant for a series
/// that is not empty.
pub open spec fn mean(numbers: Seq<int>) -> int {
    quotient(total(numbers), numbers.len() as int)
}

/// The fall from the first number of a series to its last; zero for a series
/// of fewer than two.
pub open spec fn fall(numbers: Seq<int>) -> int {
    if numbers.len() <= 1 {
        0
    } else {
        numbers[0] - numbers.last()
    }
}

/// The falls from each number of a series to the next.
pub open spec fn steps(numbers: Seq<int>) -> Seq<int> {
    Seq::new((numbers.len() - 1) as nat, |i: int| numbers[i] - numbers[i + 1])
}

/// The mean fall from one number to the next, rounded toward zero; zero for a
/// series of fewer than two.
pub open spec fn mean_step(numbers: Seq<int>) -> int {
    if numbers.len() <= 1 {
        0
    } else {
        mean(steps(numbers))
    }
}

/// `index` is the first place of the least number.
pub open spec fn first_least_at(numbers: Seq<int>, index: int) -> bool {
    &&& 0 <= index < numbers.len()
    &&& forall|j: int| 0 <= j < numbers.len() ==> numbers[index] <= numbers[j]
    &&& forall|j: int| 0 <= j < index ==> numbers[index] < numbers[j]
}

/// `index` is the first place of the greatest number.
pub open spec fn first_greatest_at(numbers: Seq<int>, index: int) -> bool {
    &&& 0 <= index < numbers.len()
    &&& forall|j: int| 0 <= j < numbers.len() ==> numbers[index] >= numbers[j]
    &&& forall|j: int| 0 <= j < index ==> numbers[index] > numbers[j]
}

/// The falls from step to step add up to the fall from the first number to
/// the one reached.
pub proof fn steps_telescope(numbers: Seq<int>, count: int)
    requires
        0 <= count < numbers.len(),
    ensures
        total(steps(numbers).take(count)) == numbers[0] - numbers[count],
    decreases count,
{
    if count > 0 {
        steps_telescope(numbers, count - 1);
        total_of_prefix(steps(numbers), count - 1);
    }
}

/// How many windows of `interval` items a series of `len` items has.
pub open spec fn window_count(len: int, interval: int) -> int {
    if interval <= 0 || len < interval {
        0
    } else {
        len - interval + 1
    }
}

/// The sum of the first `count + 1` numbers is the sum of the first `count`
/// and the next.
pub proof fn total_of_prefix(numbers: Seq<int>, count: int)
    requires
        0 <= count < numbers.len(),
    ensures
        total(numbers.take(count + 1)) == total(numbers.take(count)) + numbers[count],
{
    assert(numbers.take(count + 1).drop_last() == numbers.take(count));
}

/// A sum of `count` numbers that each lie between `low` and `high` lies
/// between `count * low` and `count * high`.
pub proof fn total_is_bounded(numbers: Seq<int>, low: int, high: int)
    requires
        forall|i: int| 0 <= i < numbers.len() ==> low <= #[trigger] numbers[i] <= high,
    ensures
        numbers.len() * low <= total(numbers) <= numbers.len() * high,
    decreases numbers.len(),
{
    if numbers.len() > 0 {
        total_is_bounded(numbers.drop_last(), low, high);
        assert((numbers.len() - 1) * low + low == numbers.len() * low) by (nonlinear_arith);
        assert((numbers.len() - 1) * high + high == numbers.len() * high) by (nonlinear_arith);
    } else {
        assert(0 * low == 0 && 0 * high == 0);
    }
}

/// The mean of numbers that can each be held can be held.
pub proof fn mean_is_held(numbers: Seq<int>)
    requires
        numbers.len() > 0,
        forall|i: int| 0 <= i < numbers.len() ==> fits(#[trigger] numbers[i]),
    ensures
        fits(mean(numbers)),
{
    total_is_bounded(numbers, i64::MIN as int, i64::MAX as int);
    let n = numbers.len() as int;
    let sum = total(numbers);
    if sum >= 0 {
        assert(sum / n <= i64::MAX) by (nonlinear_arith)
            requires
                n > 0,
                0 <= sum <= n * i64::MAX,
        ;
        assert(sum / n >= 0) by (nonlinear_arith)
            requires
                n > 0,
                0 <= sum,
        ;
    } else {
        assert((-sum) / n <= -(i64::MIN as int)) by (nonlinear_arith)
            requires
                n > 0,
                0 <= -sum <= n * (-(i64::MIN as int)),
        ;
        assert((-sum) / n >= 0) by (nonlinear_arith)
            requires
                n > 0,
                0 <= -sum,
        ;
    }
}

/// The sign of a number: minus one, zero or one.
pub open spec fn sign(x: int) -> int {
    if x < 0 {
        -1
    } else if x == 0 {
        0
    } else {
        1
    }
}

/// The two series cross at `index`: the sign of the first less the second is
/// not at `index` what it was just before.
pub open spec fn crosses_at(first: Seq<int>, second: Seq<int>, index: int) -> bool {
    &&& 0 < index < first.len()
    &&& index < second.len()
    &&& sign(first[index - 1] - second[index - 1]) != sign(first[index] - second[index])
}

/// `found` is the first place where the two series cross, or nothing where
/// they never do.
pub open spec fn first_crossing_is(first: Seq<int>, second: Seq<int>, found: Option<usize>) -> bool {
    match found {
        Some(index) => {
            &&& crosses_at(first, second, index as int)
            &&& forall|j: int| 0 <= j < index ==> !#[trigger] crosses_at(first, second, j)
        },
        None => forall|j: int| !#[trigger] crosses_at(first, second, j),
    }
}

/// `found` is the last place where the two series cross, or nothing where
/// they never do.
pub open spec fn last_crossing_is(first: Seq<int>, second: Seq<int>, found: Option<usize>) -> bool {
    match found {
        Some(index) => {
            &&& crosses_at(first, second, index as int)
            &&& forall|j: int| index < j ==> !#[trigger] crosses_at(first, second, j)
        },
        None => forall|j: int| !#[trigger] crosses_at(first, second, j),
    }
}

/// `found` holds every place where the two series cross, once each and in
/// rising order.
pub open spec fn all_crossings_are(first: Seq<int>, second: Seq<int>, found: Seq<usize>) -> bool {
    &&& forall|a: int, b: int| 0 <= a < b < found.len() ==> found[a] < found[b]
    &&& forall|a: int| 0 <= a < found.len() ==> crosses_at(first, second, #[trigger] found[a] as int)
    &&& forall|j: int| #[trigger]
        crosses_at(first, second, j) ==> exists|a: int|
            0 <= a < found.len() && #[trigger] found[a] == j
}

/// The sign of `a - b`.
pub(crate) fn side(a: i64, b: i64) -> (side: i8)
    ensures
        side == sign(a - b),
{
    if a < b {
        -1
    } else if a == b {
        0
    } else {
        1
    }
}

/// The growths from each number of a series to the next, where every one of
/// them exists.
pub open spec fn step_growths(numbers: Seq<int>) -> Option<Seq<int>> {
    if forall|i: int|
        0 <= i < numbers.len() - 1 ==> growth_between(#[trigger] numbers[i], numbers[i + 1])
            is Some {
        Some(
            Seq::new(
                (numbers.len() - 1) as nat,
                |i: int| growth_between(numbers[i], numbers[i + 1]).unwrap() as int,
            ),
        )
    } else {
        None
    }
}

/// The mean growth from one number of a series to the next, rounded toward
/// zero: zero for a series of fewer than two, and none where one of the
/// growths does not exist.
pub open spec fn mean_growth(numbers: Seq<int>) -> Option<i64> {
    if numbers.len() <= 1 {
        Some(0i64)
    } else {
        match step_growths(numbers) {
            Some(growths) => Some(mean(growths) as i64),
            None => None,
        }
    }
}

/// How many growths over `interval` steps a series of `len` items has.
pub open spec fn stride_count(len: int, interval: int) -> int {
    if interval <= 0 || len < interval {
        0
    } else {
        len - interval
    }
}

/// The mean of the numbers held in `amounts`, rounded toward zero.
pub(crate) fn mean_of(amounts: &Vec<i64>) -> (average: i64)
    requires
        amounts@.len() > 0,
    ensures
        average == mean(Seq::new(amounts@.len(), |i: int| amounts@[i] as int)),
{
    let ghost numbers = Seq::new(amounts@.len(), |i: int| amounts@[i] as int);
    let mut sum: i128 = 0;
    let mut index: usize = 0;
    while index < amounts.len()
        invariant
            index <= amounts@.len(),
            numbers == Seq::new(amounts@.len(), |i: int| amounts@[i] as int),
            sum == total(numbers.take(index as int)),
            index * (i64::MIN as int) <= sum <= index * (i64::MAX as int),
        decreases amounts@.len() - index,
    {
        let next = amounts[index];
        proof {
            total_of_prefix(numbers, index as int);
            assert((index + 1) * (i64::MIN as int) == index * (i64::MIN as int) + i64::MIN)
                by (nonlinear_arith);
            assert((index + 1) * (i64::MAX as int) == index * (i64::MAX as int) + i64::MAX)
                by (nonlinear_arith);
            assert(index * (i64::MIN as int) >= usize::MAX * (i64::MIN as int))
                by (nonlinear_arith)
                requires
                    index <= usize::MAX,
            ;
            assert(index * (i64::MAX as int) <= usize::MAX * (i64::MAX as int))
                by (nonlinear_arith)
                requires
                    index <= usize::MAX,
            ;
        }
        sum = sum + next as i128;
        index += 1;
    }
    proof {
        assert(numbers.take(index as int) == numbers);
        mean_is_held(numbers);
    }
    divide(sum, amounts.len() as i128) as i64
}

} // verus!
