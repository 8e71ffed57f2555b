//! The portfolio ledger of one account: cash, open orders, open positions.

use crate::brokers::BrokerErrorKind;
use crate::market_values::fixed::fits;
use crate::market_values::price::Price;
use crate::market_values::MarketValue;
use crate::order::{first_record_at, Order};
use crate::position::Position;
use crate::time::Timestamp;
use crate::venue::Currency;
use crate::{hash_raw_id, raw_id_hash};
use vstd::prelude::*;

verus! {

/// `index` is the first place in `orders` of an order that holds the id `id`.
pub open spec fn first_order_at(orders: Seq<Order>, id: u64, index: int) -> bool {
    &&& 0 <= index < orders.len()
    &&& orders[index].holds(id)
    &&& forall|j: int| 0 <= j < index ==> !orders[j].holds(id)
}

/// No order in `orders` holds the id `id`.
pub open spec fn no_order_with(orders: Seq<Order>, id: u64) -> bool {
    forall|j: int| 0 <= j < orders.len() ==> !orders[j].holds(id)
}

/// `index` is the first place in `positions` of a position with the id `id`.
pub open spec fn first_position_at(positions: Seq<Position>, id: u64, index: int) -> bool {
    &&& 0 <= index < positions.len()
    &&& positions[index].id_of() == id
    &&& forall|j: int| 0 <= j < index ==> positions[j].id_of() != id
}

/// No position in `positions` has the id `id`.
pub open spec fn no_position_with(positions: Seq<Position>, id: u64) -> bool {
    forall|j: int| 0 <= j < positions.len() ==> positions[j].id_of() != id
}

/// The series without the item at `index`: the last item takes its place.
pub open spec fn swap_removed<T>(series: Seq<T>, index: int) -> Seq<T> {
    series.update(index, series.last()).drop_last()
}

/// No id is held by two of the orders.
pub open spec fn order_ids_unique(orders: Seq<Order>) -> bool {
    forall|i: int, j: int, id: u64|
        0 <= i < j < orders.len() && #[trigger] orders[i].holds(id) ==> !#[trigger] orders[j].holds(
            id,
        )
}

/// No two of the positions have one id.
pub open spec fn position_ids_unique(positions: Seq<Position>) -> bool {
    forall|i: int, j: int|
        0 <= i < j < positions.len() ==> (#[trigger] positions[i]).id_of()
            != (#[trigger] positions[j]).id_of()
}

/// Taking an order out of the ledger leaves the ids of the others unique, and
/// the id by which it was found is then held by none.
pub proof fn law_order_removal(orders: Seq<Order>, id: u64, index: int)
    requires
        order_ids_unique(orders),
        first_order_at(orders, id, index),
    ensures
        order_ids_unique(swap_removed(orders, index)),
        no_order_with(swap_removed(orders, index), id),
        swap_removed(orders, index).len() == orders.len() - 1,
{
    let rest = swap_removed(orders, index);
    let last = orders.len() - 1;
    assert forall|i: int, j: int, other: u64|
        0 <= i < j < rest.len() && #[trigger] rest[i].holds(other) implies !#[trigger] rest[j].holds(
        other,
    ) by {
        let from_i = if i == index {
            last
        } else {
            i
        };
        let from_j = if j == index {
            last
        } else {
            j
        };
        assert(rest[i] == orders[from_i]);
        assert(rest[j] == orders[from_j]);
        if from_i < from_j {
            assert(orders[from_i].holds(other) ==> !orders[from_j].holds(other));
        } else {
            assert(orders[from_j].holds(other) ==> !orders[from_i].holds(other));
        }
    }
    assert forall|j: int| 0 <= j < rest.len() implies !rest[j].holds(id) by {
        let from_j = if j == index {
            last
        } else {
            j
        };
        assert(rest[j] == orders[from_j]);
        if from_j < index {
        } else {
            assert(orders[index].holds(id) ==> !orders[from_j].holds(id));
        }
    }
}

/// Taking a position out of the ledger leaves the ids of the others unique,
/// and its id is then that of none.
pub proof fn law_position_removal(positions: Seq<Position>, id: u64, index: int)
    requires
        position_ids_unique(positions),
        first_position_at(positions, id, index),
    ensures
        position_ids_unique(swap_removed(positions, index)),
        no_position_with(swap_removed(positions, index), id),
        swap_removed(positions, index).len() == positions.len() - 1,
{
    let rest = swap_removed(positions, index);
    let last = positions.len() - 1;
    assert forall|i: int, j: int| 0 <= i < j < rest.len() implies (#[trigger] rest[i]).id_of()
        != (#[trigger] rest[j]).id_of() by {
        let from_i = if i == index {
            last
        } else {
            i
        };
        let from_j = if j == index {
            last
        } else {
            j
        };
        assert(rest[i] == positions[from_i]);
        assert(rest[j] == positions[from_j]);
    }
    assert forall|j: int| 0 <= j < rest.len() implies rest[j].id_of() != id by {
        let from_j = if j == index {
            last
        } else {
            j
        };
        assert(rest[j] == positions[from_j]);
    }
}

/// A position that comes under an id which no open position has leaves the
/// ids unique.
pub proof fn law_position_arrival(positions: Seq<Position>, position: Position)
    requires
        position_ids_unique(positions),
        no_position_with(positions, position.id_of()),
    ensures
        position_ids_unique(positions.push(position)),
{
}

/// An order that comes with ids which no open order holds leaves the ids
/// unique.
pub proof fn law_order_arrival(orders: Seq<Order>, order: Order)
    requires
        order_ids_unique(orders),
        forall|id: u64| order.holds(id) ==> no_order_with(orders, id),
    ensures
        order_ids_unique(orders.push(order)),
{
    let longer = orders.push(order);
    assert forall|i: int, j: int, id: u64|
        0 <= i < j < longer.len() && #[trigger] longer[i].holds(id) implies !#[trigger] longer[j].holds(
        id,
    ) by {
        if j == orders.len() {
            assert(longer[i] == orders[i]);
            if order.holds(id) {
                assert(no_order_with(orders, id));
            }
        } else {
            assert(longer[i] == orders[i] && longer[j] == orders[j]);
        }
    }
}

/// The ledger of one account.
pub struct Deposit {
    id: u64,
    currency: Currency,
    cash: Price,
    orders: Vec<Order>,
    positions: Vec<Position>,
}

impl Deposit {
    /// The id of the account.
    pub closed spec fn id_of(&self) -> u64 {
        self.id
    }

    /// The currency the account is kept in.
    pub closed spec fn currency_of(&self) -> Currency {
        self.currency
    }

    /// The cash balance.
    pub closed spec fn cash_of(&self) -> Price {
        self.cash
    }

    /// The open orders, in the order the ledger keeps them.
    pub closed spec fn open_orders(&self) -> Seq<Order> {
        self.orders@
    }

    /// The open positions, in the order the ledger keeps them.
    pub closed spec fn open_positions(&self) -> Seq<Position> {
        self.positions@
    }

    /// Account and currency are those of `other`.
    pub open spec fn same_account(&self, other: &Deposit) -> bool {
        self.id_of() == other.id_of() && self.currency_of() == other.currency_of()
    }

    /// Nothing differs from `other`.
    pub open spec fn unchanged_from(&self, other: &Deposit) -> bool {
        &&& self.same_account(other)
        &&& self.cash_of() == other.cash_of()
        &&& self.open_orders() == other.open_orders()
        &&& self.open_positions() == other.open_positions()
    }

    /// A ledger without cash, orders or positions.
    pub fn empty(id: u64, currency: Currency) -> (deposit: Self)
        ensures
            deposit.id_of() == id,
            deposit.currency_of() == currency,
            deposit.cash_of().0 == 0,
            deposit.open_orders() == Seq::<Order>::empty(),
            deposit.open_positions() == Seq::<Position>::empty(),
    {
        Deposit { id, currency, cash: Price(0), orders: Vec::new(), positions: Vec::new() }
    }

    /// The id for an identifier that the broker supplied.
    pub fn hash_raw_id(raw_id: &str) -> (id: u64)
        ensures
            id == raw_id_hash(raw_id@),
    {
        hash_raw_id(raw_id)
    }

    pub fn id(&self) -> (id: u64)
        ensures
            id == self.id_of(),
    {
        self.id
    }

    pub fn currency(&self) -> (currency: &Currency)
        ensures
            *currency == self.currency_of(),
    {
        &self.currency
    }

    pub fn cash(&self) -> (cash: &Price)
        ensures
            *cash == self.cash_of(),
    {
        &self.cash
    }

    pub fn orders(&self) -> (orders: &Vec<Order>)
        ensures
            orders@ == self.open_orders(),
    {
        &self.orders
    }

    pub fn positions(&self) -> (positions: &Vec<Position>)
        ensures
            positions@ == self.open_positions(),
    {
        &self.positions
    }

    /// The place of the first order that holds the id `id`.
    fn get_order_index(&self, id: u64) -> (found: Option<usize>)
        ensures
            match found {
                Some(index) => first_order_at(self.open_orders(), id, index as int),
                None => no_order_with(self.open_orders(), id),
            },
    {
        let mut index: usize = 0;
        while index < self.orders.len()
            invariant
                index <= self.orders@.len(),
                forall|j: int| 0 <= j < index ==> !self.orders@[j].holds(id),
            decreases self.orders@.len() - index,
        {
            if self.orders[index].has_id(id) {
                return Some(index);
            }
            index += 1;
        }
        None
    }

    /// The place of the first position with the id `id`.
    fn get_position_index(&self, id: u64) -> (found: Option<usize>)
        ensures
            match found {
                Some(index) => first_position_at(self.open_positions(), id, index as int),
                None => no_position_with(self.open_positions(), id),
            },
    {
        let mut index: usize = 0;
        while index < self.positions.len()
            invariant
                index <= self.positions@.len(),
                forall|j: int| 0 <= j < index ==> self.positions@[j].id_of() != id,
            decreases self.positions@.len() - index,
        {
            if self.positions[index].has_id(id) {
                return Some(index);
            }
            index += 1;
        }
        None
    }

    /// Whether an open order holds the id `id`.
    pub fn order_exists(&self, id: u64) -> (exists: bool)
        ensures
            exists == !no_order_with(self.open_orders(), id),
    {
        self.get_order_index(id).is_some()
    }

    /// The first open order that holds the id `id`.
    pub fn get_order(&self, id: u64) -> (found: Option<&Order>)
        ensures
            match found {
                Some(order) => exists|index: int|
                    first_order_at(self.open_orders(), id, index) && *order
                        == #[trigger] self.open_orders()[index],
                None => no_order_with(self.open_orders(), id),
            },
    {
        match self.get_order_index(id) {
            Some(index) => Some(&self.orders[index]),
            None => None,
        }
    }

    /// Adds an open order. Its ids are taken as they come: the caller sees to
    /// it that they are new.
    pub fn place_order(&mut self, order: Order)
        ensures
            final(self).same_account(old(self)),
            final(self).cash_of() == old(self).cash_of(),
            final(self).open_orders() == old(self).open_orders().push(order),
            final(self).open_positions() == old(self).open_positions(),
    {
        self.orders.push(order);
    }

    /// Lets `change_fn` change the first open order that holds the id `id`.
    /// Whatever it makes of the order stays in that order's place. Without
    /// such an order nothing is changed and the error is `NoSuchOrder`.
    pub fn edit_order<F: Fn(&mut Order)>(&mut self, id: u64, change_fn: F) -> (outcome: Result<
        (),
        BrokerErrorKind,
    >)
        requires
            forall|handle: &mut Order|
                old(self).open_orders().contains(*handle) && handle.holds(id) ==> call_requires(
                    change_fn,
                    (handle,),
                ),
        ensures
            final(self).same_account(old(self)),
            final(self).cash_of() == old(self).cash_of(),
            final(self).open_positions() == old(self).open_positions(),
            outcome is Ok <==> !no_order_with(old(self).open_orders(), id),
            match outcome {
                Ok(_) => exists|index: int, handle: &mut Order|
                    {
                        &&& first_order_at(old(self).open_orders(), id, index)
                        &&& *handle == old(self).open_orders()[index]
                        &&& #[trigger] call_ensures(change_fn, (handle,), ())
                        &&& final(self).open_orders() == #[trigger] old(self).open_orders().update(
                            index,
                            *final(handle),
                        )
                    },
                Err(kind) => {
                    &&& kind == BrokerErrorKind::NoSuchOrder
                    &&& final(self).open_orders() == old(self).open_orders()
                },
            },
    {
        match self.get_order_index(id) {
            Some(index) => {
                let order = &mut self.orders[index];
                assert(old(self).open_orders().contains(*order));
                change_fn(order);
                Ok(())
            },
            None => Err(BrokerErrorKind::NoSuchOrder),
        }
    }

    /// Executes the first open order that holds `order_id`, at `buy_price` and
    /// `time`. The order leaves the ledger, the last order taking its place;
    /// the position that its record with that id opens comes last among the
    /// positions, under `position_id`; the cash falls by `buy_price`.
    ///
    /// Without such an order the ledger stays as it was and the error is
    /// `NoSuchOrder`. Where the cash could not be held after the debit, the
    /// ledger stays as it was too and the error is `Other`.
    pub fn execute_order(
        &mut self,
        order_id: u64,
        position_id: u64,
        buy_price: Price,
        time: Timestamp,
    ) -> (outcome: Result<Order, BrokerErrorKind>)
        ensures
            final(self).same_account(old(self)),
            outcome is Ok <==> !no_order_with(old(self).open_orders(), order_id) && fits(
                old(self).cash_of().0 - buy_price.0,
            ),
            match outcome {
                Ok(order) => exists|index: int, place: int|
                    {
                        &&& first_order_at(old(self).open_orders(), order_id, index)
                        &&& order == #[trigger] old(self).open_orders()[index]
                        &&& first_record_at(order.records(), order_id, place)
                        &&& final(self).open_orders() == swap_removed(
                            old(self).open_orders(),
                            index,
                        )
                        &&& final(self).open_positions() == old(self).open_positions().push(
                            Position::opened(
                                position_id,
                                time,
                                buy_price,
                                #[trigger] order.records()[place],
                            ),
                        )
                        &&& final(self).cash_of().0 == old(self).cash_of().0 - buy_price.0
                    },
                Err(kind) => {
                    &&& final(self).unchanged_from(old(self))
                    &&& kind == if no_order_with(old(self).open_orders(), order_id) {
                        BrokerErrorKind::NoSuchOrder
                    } else {
                        BrokerErrorKind::Other
                    }
                },
            },
    {
        match self.get_order_index(order_id) {
            Some(index) => {
                match self.cash.minus(buy_price) {
                    Some(cash) => {
                        let order = self.orders.swap_remove(index);
                        let order_data = order.get(order_id).unwrap();
                        self.positions.push(
                            Position::from_order_data(position_id, time, buy_price, order_data),
                        );
                        self.cash = cash;
                        Ok(order)
                    },
                    None => Err(BrokerErrorKind::Other),
                }
            },
            None => Err(BrokerErrorKind::NoSuchOrder),
        }
    }

    /// Removes the first open order that holds the id `id` and hands it out;
    /// the last order takes its place. Without such an order the ledger stays
    /// as it was and the error is `NoSuchOrder`.
    pub fn delete_order(&mut self, id: u64) -> (outcome: Result<Order, BrokerErrorKind>)
        ensures
            final(self).same_account(old(self)),
            final(self).cash_of() == old(self).cash_of(),
            final(self).open_positions() == old(self).open_positions(),
            outcome is Ok <==> !no_order_with(old(self).open_orders(), id),
            match outcome {
                Ok(order) => exists|index: int|
                    {
                        &&& first_order_at(old(self).open_orders(), id, index)
                        &&& order == #[trigger] old(self).open_orders()[index]
                        &&& final(self).open_orders() == swap_removed(
                            old(self).open_orders(),
                            index,
                        )
                    },
                Err(kind) => {
                    &&& kind == BrokerErrorKind::NoSuchOrder
                    &&& final(self).open_orders() == old(self).open_orders()
                },
            },
    {
        match self.get_order_index(id) {
            Some(index) => Ok(self.orders.swap_remove(index)),
            None => Err(BrokerErrorKind::NoSuchOrder),
        }
    }

    /// Whether an open position has the id `id`.
    pub fn position_exists(&self, id: u64) -> (exists: bool)
        ensures
            exists == !no_position_with(self.open_positions(), id),
    {
        self.get_position_index(id).is_some()
    }

    /// The first open position with the id `id`.
    pub fn get_position(&self, id: u64) -> (found: Option<&Position>)
        ensures
            match found {
                Some(position) => exists|index: int|
                    first_position_at(self.open_positions(), id, index) && *position
                        == #[trigger] self.open_positions()[index],
                None => no_position_with(self.open_positions(), id),
            },
    {
        match self.get_position_index(id) {
            Some(index) => Some(&self.positions[index]),
            None => None,
        }
    }

    /// Closes the first open position with the id `id` at `sell_price`: the
    /// position leaves the ledger, the last position taking its place, and the
    /// cash rises by `sell_price`.
    ///
    /// Without such a position the ledger stays as it was and the error is
    /// `NoSuchPosition`. Where the cash could not be held after the credit, the
    /// ledger stays as it was too and the error is `Other`.
    pub fn close_position(&mut self, id: u64, sell_price: Price) -> (outcome: Result<
        Position,
        BrokerErrorKind,
    >)
        ensures
            final(self).same_account(old(self)),
            final(self).open_orders() == old(self).open_orders(),
            outcome is Ok <==> !no_position_with(old(self).open_positions(), id) && fits(
                old(self).cash_of().0 + sell_price.0,
            ),
            match outcome {
                Ok(position) => exists|index: int|
                    {
                        &&& first_position_at(old(self).open_positions(), id, index)
                        &&& position == #[trigger] old(self).open_positions()[index]
                        &&& final(self).open_positions() == swap_removed(
                            old(self).open_positions(),
                            index,
                        )
                        &&& final(self).open_positions().len() == old(self).open_positions().len()
                            - 1
                        &&& final(self).cash_of().0 == old(self).cash_of().0 + sell_price.0
                    },
                Err(kind) => {
                    &&& final(self).unchanged_from(old(self))
                    &&& kind == if no_position_with(old(self).open_positions(), id) {
                        BrokerErrorKind::NoSuchPosition
                    } else {
                        BrokerErrorKind::Other
                    }
                },
            },
    {
        match self.get_position_index(id) {
            Some(index) => match self.cash.plus(sell_price) {
                Some(cash) => {
                    self.cash = cash;
                    Ok(self.positions.swap_remove(index))
                },
                None => Err(BrokerErrorKind::Other),
            },
            None => Err(BrokerErrorKind::NoSuchPosition),
        }
    }
}

} // verus!
