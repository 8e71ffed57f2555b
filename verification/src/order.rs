//! Orders and what they carry.

use crate::market_values::price::{Price, RelativePrice};
use crate::position::PositionType;
use crate::time::{TimeSpan, Timestamp};
use crate::venue::StockExchange;
use crate::{hash_raw_id, raw_id_hash};
use vstd::prelude::*;

verus! {

/// An order: one record, or several that stand or fall together in the way
/// the variant names.
#[derive(Clone, Debug, PartialEq)]
pub enum Order {
    Normal(OrderData),
    OneCancelsTheOther(Vec<OrderData>),
    AllOrNone(Vec<OrderData>),
    ImmediateOrCancel(OrderData),
    FillOrKill(Vec<OrderData>),
}

/// `index` is the first place in `records` of a record with the id `id`.
pub open spec fn first_record_at(records: Seq<OrderData>, id: u64, index: int) -> bool {
    &&& 0 <= index < records.len()
    &&& records[index].id_of() == id
    &&& forall|j: int| 0 <= j < index ==> records[j].id_of() != id
}

/// No record in `records` has the id `id`.
pub open spec fn no_record_with(records: Seq<OrderData>, id: u64) -> bool {
    forall|j: int| 0 <= j < records.len() ==> records[j].id_of() != id
}

/// The place of the first record with the id `id`.
fn find_record(records: &Vec<OrderData>, id: u64) -> (found: Option<usize>)
    ensures
        match found {
            Some(index) => first_record_at(records@, id, index as int),
            None => no_record_with(records@, id),
        },
{
    let mut index: usize = 0;
    while index < records.len()
        invariant
            index <= records@.len(),
            forall|j: int| 0 <= j < index ==> records@[j].id_of() != id,
        decreases records@.len() - index,
    {
        if records[index].id() == id {
            return Some(index);
        }
        index += 1;
    }
    None
}

impl Order {
    /// The records the order carries, in their order.
    pub open spec fn records(&self) -> Seq<OrderData> {
        match self {
            Order::Normal(record) => seq![*record],
            Order::OneCancelsTheOther(records) => records@,
            Order::AllOrNone(records) => records@,
            Order::ImmediateOrCancel(record) => seq![*record],
            Order::FillOrKill(records) => records@,
        }
    }

    /// One of the order's records has the id `id`.
    pub open spec fn holds(&self, id: u64) -> bool {
        !no_record_with(self.records(), id)
    }

    /// Both orders are of the same variant.
    pub open spec fn same_form(&self, other: &Order) -> bool {
        &&& self is Normal <==> other is Normal
        &&& self is OneCancelsTheOther <==> other is OneCancelsTheOther
        &&& self is AllOrNone <==> other is AllOrNone
        &&& self is ImmediateOrCancel <==> other is ImmediateOrCancel
        &&& self is FillOrKill <==> other is FillOrKill
    }

    /// Whether one of the order's records has the id `id`.
    pub fn has_id(&self, id: u64) -> (held: bool)
        ensures
            held == self.holds(id),
    {
        match self {
            Order::Normal(record) => {
                assert(self.records()[0] == *record);
                record.id() == id
            },
            Order::OneCancelsTheOther(records) => find_record(records, id).is_some(),
            Order::AllOrNone(records) => find_record(records, id).is_some(),
            Order::ImmediateOrCancel(record) => {
                assert(self.records()[0] == *record);
                record.id() == id
            },
            Order::FillOrKill(records) => find_record(records, id).is_some(),
        }
    }

    /// The first of the order's records with the id `id`.
    pub fn get(&self, id: u64) -> (found: Option<&OrderData>)
        ensures
            match found {
                Some(record) => exists|index: int|
                    first_record_at(self.records(), id, index) && *record
                        == #[trigger] self.records()[index],
                None => no_record_with(self.records(), id),
            },
    {
        match self {
            Order::Normal(record) => {
                assert(self.records()[0] == *record);
                if record.id() == id {
                    assert(first_record_at(self.records(), id, 0));
                    Some(record)
                } else {
                    None
                }
            },
            Order::OneCancelsTheOther(records) => match find_record(records, id) {
                Some(index) => Some(&records[index]),
                None => None,
            },
            Order::AllOrNone(records) => match find_record(records, id) {
                Some(index) => Some(&records[index]),
                None => None,
            },
            Order::ImmediateOrCancel(record) => {
                assert(self.records()[0] == *record);
                if record.id() == id {
                    assert(first_record_at(self.records(), id, 0));
                    Some(record)
                } else {
                    None
                }
            },
            Order::FillOrKill(records) => match find_record(records, id) {
                Some(index) => Some(&records[index]),
                None => None,
            },
        }
    }
}

impl Order {
    /// The first of the order's records with the id `id`, to change it. The
    /// order keeps its variant and its other records.
    pub fn get_mut(&mut self, id: u64) -> (found: Option<&mut OrderData>)
        ensures
            final(self).same_form(old(self)),
            match found {
                Some(record) => exists|index: int|
                    {
                        &&& first_record_at(old(self).records(), id, index)
                        &&& *record == #[trigger] old(self).records()[index]
                        &&& final(self).records() == old(self).records().update(
                            index,
                            *final(record),
                        )
                    },
                None => {
                    &&& no_record_with(old(self).records(), id)
                    &&& final(self).records() == old(self).records()
                },
            },
    {
        match self {
            Order::Normal(record) => {
                if record.id() == id {
                    proof {
                        assert(old(self).records()[0] == *record);
                        assert(first_record_at(old(self).records(), id, 0));
                    }
                    Some(record)
                } else {
                    assert(old(self).records()[0] == *record);
                    None
                }
            },
            Order::OneCancelsTheOther(records) => match find_record(records, id) {
                Some(index) => {
                    let record = &mut records[index];
                    proof {
                        assert(*record == old(self).records()[index as int]);
                    }
                    Some(record)
                },
                None => None,
            },
            Order::AllOrNone(records) => match find_record(records, id) {
                Some(index) => {
                    let record = &mut records[index];
                    proof {
                        assert(*record == old(self).records()[index as int]);
                    }
                    Some(record)
                },
                None => None,
            },
            Order::ImmediateOrCancel(record) => {
                if record.id() == id {
                    proof {
                        assert(old(self).records()[0] == *record);
                        assert(first_record_at(old(self).records(), id, 0));
                    }
                    Some(record)
                } else {
                    assert(old(self).records()[0] == *record);
                    None
                }
            },
            Order::FillOrKill(records) => match find_record(records, id) {
                Some(index) => {
                    let record = &mut records[index];
                    proof {
                        assert(*record == old(self).records()[index as int]);
                    }
                    Some(record)
                },
                None => None,
            },
        }
    }
}

/// One record of an order: what is to be traded, where, and under which
/// conditions.
#[derive(Clone, Debug, PartialEq)]
pub struct OrderData {
    id: u64,
    stock_exchange: StockExchange,
    pieces: u64,
    order_type: OrderType,
    position_type: PositionType,
    take_profit: TakeProfit,
    stop_loss: StopLoss,
    moment: OrderMoment,
    validity: OrderValidity,
}

impl OrderData {
    /// The id: the hash of the identifier the broker gave.
    pub closed spec fn id_of(&self) -> u64 {
        self.id
    }

    /// The exchange on which the order is executed.
    pub closed spec fn exchange_of(&self) -> StockExchange {
        self.stock_exchange
    }

    /// How many pieces are ordered.
    pub closed spec fn pieces_of(&self) -> u64 {
        self.pieces
    }

    /// How the order is matched.
    pub closed spec fn order_type_of(&self) -> OrderType {
        self.order_type
    }

    /// The side of the position the order opens.
    pub closed spec fn position_type_of(&self) -> PositionType {
        self.position_type
    }

    /// The profit target.
    pub closed spec fn take_profit_of(&self) -> TakeProfit {
        self.take_profit
    }

    /// The stop.
    pub closed spec fn stop_loss_of(&self) -> StopLoss {
        self.stop_loss
    }

    /// When the order is to be placed.
    pub closed spec fn moment_of(&self) -> OrderMoment {
        self.moment
    }

    /// For how long the order stands.
    pub closed spec fn validity_of(&self) -> OrderValidity {
        self.validity
    }

    /// A record with these contents.
    pub fn new(
        id: u64,
        stock_exchange: StockExchange,
        pieces: u64,
        order_type: OrderType,
        position_type: PositionType,
        take_profit: TakeProfit,
        stop_loss: StopLoss,
        moment: OrderMoment,
        validity: OrderValidity,
    ) -> (record: Self)
        ensures
            record.id_of() == id,
            record.exchange_of() == stock_exchange,
            record.pieces_of() == pieces,
            record.order_type_of() == order_type,
            record.position_type_of() == position_type,
            record.take_profit_of() == take_profit,
            record.stop_loss_of() == stop_loss,
            record.moment_of() == moment,
            record.validity_of() == validity,
    {
        OrderData {
            id,
            stock_exchange,
            pieces,
            order_type,
            position_type,
            take_profit,
            stop_loss,
            moment,
            validity,
        }
    }

    pub fn id(&self) -> (id: u64)
        ensures
            id == self.id_of(),
    {
        self.id
    }

    pub fn stock_exchange(&self) -> (stock_exchange: &StockExchange)
        ensures
            *stock_exchange == self.exchange_of(),
    {
        &self.stock_exchange
    }

    pub fn pieces(&self) -> (pieces: u64)
        ensures
            pieces == self.pieces_of(),
    {
        self.pieces
    }

    pub fn order_type(&self) -> (order_type: &OrderType)
        ensures
            *order_type == self.order_type_of(),
    {
        &self.order_type
    }

    pub fn position_type(&self) -> (position_type: &PositionType)
        ensures
            *position_type == self.position_type_of(),
    {
        &self.position_type
    }

    pub fn take_profit(&self) -> (take_profit: &TakeProfit)
        ensures
            *take_profit == self.take_profit_of(),
    {
        &self.take_profit
    }

    pub fn stop_loss(&self) -> (stop_loss: &StopLoss)
        ensures
            *stop_loss == self.stop_loss_of(),
    {
        &self.stop_loss
    }

    pub fn moment(&self) -> (moment: &OrderMoment)
        ensures
            *moment == self.moment_of(),
    {
        &self.moment
    }

    pub fn validity(&self) -> (validity: &OrderValidity)
        ensures
            *validity == self.validity_of(),
    {
        &self.validity
    }

    /// What is traded, where and how is as in `other`.
    pub open spec fn same_trade(&self, other: &OrderData) -> bool {
        &&& self.id_of() == other.id_of()
        &&& self.exchange_of() == other.exchange_of()
        &&& self.pieces_of() == other.pieces_of()
        &&& self.order_type_of() == other.order_type_of()
        &&& self.position_type_of() == other.position_type_of()
    }

    pub fn update_take_profit(&mut self, take_profit: TakeProfit)
        ensures
            final(self).take_profit_of() == take_profit,
            final(self).same_trade(old(self)),
            final(self).stop_loss_of() == old(self).stop_loss_of(),
            final(self).moment_of() == old(self).moment_of(),
            final(self).validity_of() == old(self).validity_of(),
    {
        self.take_profit = take_profit
    }

    pub fn update_stop_loss(&mut self, stop_loss: StopLoss)
        ensures
            final(self).stop_loss_of() == stop_loss,
            final(self).same_trade(old(self)),
            final(self).take_profit_of() == old(self).take_profit_of(),
            final(self).moment_of() == old(self).moment_of(),
            final(self).validity_of() == old(self).validity_of(),
    {
        self.stop_loss = stop_loss
    }

    pub fn update_moment(&mut self, order_moment: OrderMoment)
        ensures
            final(self).moment_of() == order_moment,
            final(self).same_trade(old(self)),
            final(self).take_profit_of() == old(self).take_profit_of(),
            final(self).stop_loss_of() == old(self).stop_loss_of(),
            final(self).validity_of() == old(self).validity_of(),
    {
        self.moment = order_moment
    }

    pub fn update_validity(&mut self, order_validity: OrderValidity)
        ensures
            final(self).validity_of() == order_validity,
            final(self).same_trade(old(self)),
            final(self).take_profit_of() == old(self).take_profit_of(),
            final(self).stop_loss_of() == old(self).stop_loss_of(),
            final(self).moment_of() == old(self).moment_of(),
    {
        self.validity = order_validity
    }

    /// The id for an identifier that the broker supplied.
    pub fn hash_raw_id(raw_id: &str) -> (id: u64)
        ensures
            id == raw_id_hash(raw_id@),
    {
        hash_raw_id(raw_id)
    }
}

/// How an order is matched against the book.
#[derive(Clone, Copy, Debug, PartialEq, Eq, Structural)]
pub enum OrderType {
    MarketOrder,
    LimitOrder(Price),
    StopOrder(Price),
}

/// When to take the profit of a position.
#[derive(Clone, Copy, Debug, PartialEq, Eq, Structural)]
pub enum TakeProfit {
    Absolute(Price),
    Relative(RelativePrice),
    /// No profit target is set.
    Unset,
}

/// When to stop the loss of a position.
#[derive(Clone, Copy, Debug, PartialEq, Eq, Structural)]
pub enum StopLoss {
    Absolute(Price),
    Relative(RelativePrice),
    Trailing(RelativePrice),
    /// No stop is set.
    Unset,
}

/// When an order is to be placed.
#[derive(Clone, Copy, Debug, PartialEq, Eq, Structural)]
pub enum OrderMoment {
    Instant,
    Planed(Timestamp),
}

impl OrderMoment {
    /// The time from `now` until the order is due: none for an instant order.
    pub open spec fn wait_from(self, now: Timestamp) -> int {
        match self {
            OrderMoment::Instant => 0,
            OrderMoment::Planed(due) => due.0 - now.0,
        }
    }

    /// The time from `now` until the order is due.
    pub fn as_duration_at(&self, now: Timestamp) -> (wait: TimeSpan)
        ensures
            wait.0 == self.wait_from(now),
    {
        match self {
            OrderMoment::Instant => TimeSpan::zero(),
            OrderMoment::Planed(due) => due.since(now),
        }
    }

    /// Whether the order is due at `now`.
    pub fn is_now_or_passed_at(&self, now: Timestamp) -> (due: bool)
        ensures
            due == (self.wait_from(now) <= 0),
    {
        self.as_duration_at(now).0 <= TimeSpan::zero().0
    }

    /// The time from the current time until the order is due.
    pub fn as_duration(&self) -> (wait: TimeSpan)
        ensures
            exists|now: Timestamp| wait.0 == self.wait_from(now),
    {
        let now = Timestamp::now();
        self.as_duration_at(now)
    }

    /// Whether the order is due by the current time.
    pub fn is_now_or_passed(&self) -> (due: bool)
        ensures
            exists|now: Timestamp| due == (self.wait_from(now) <= 0),
    {
        let now = Timestamp::now();
        self.is_now_or_passed_at(now)
    }
}

/// For how long an order stands.
#[derive(Clone, Copy, Debug, PartialEq, Eq, Structural)]
pub enum OrderValidity {
    Now,
    OneDay,
    OneWeek,
    OneMonth,
    OneYear,
    Forever,
}

impl OrderValidity {
    /// The length of the validity in milliseconds: a month has thirty days, a
    /// year 365, and forever is the longest time the calendar library holds.
    pub open spec fn millis(self) -> int {
        match self {
            OrderValidity::Now => 0,
            OrderValidity::OneDay => 86_400_000,
            OrderValidity::OneWeek => 604_800_000,
            OrderValidity::OneMonth => 2_592_000_000,
            OrderValidity::OneYear => 31_536_000_000,
            OrderValidity::Forever => i64::MAX as int,
        }
    }

    /// The length of the validity.
    pub fn as_duration(&self) -> (span: TimeSpan)
        ensures
            span.0 == self.millis(),
    {
        match self {
            OrderValidity::Now => TimeSpan::zero(),
            OrderValidity::OneDay => TimeSpan::days(1),
            OrderValidity::OneWeek => TimeSpan::weeks(1),
            OrderValidity::OneMonth => TimeSpan::days(30),
            OrderValidity::OneYear => TimeSpan::days(365),
            OrderValidity::Forever => TimeSpan::longest(),
        }
    }

    /// Whether the validity, counted from `start`, ends before `now`.
    pub open spec fn ends_before(self, start: Timestamp, now: Timestamp) -> bool {
        start.0 + self.millis() < now.0
    }

    /// Decides [`OrderValidity::ends_before`].
    pub fn is_valid_at(&self, start: &Timestamp, now: Timestamp) -> (ended: bool)
        ensures
            ended == self.ends_before(*start, now),
    {
        let span = self.as_duration();
        start.0 as i128 + span.0 < now.0 as i128
    }

    /// Whether the validity, counted from `start`, ends before the current
    /// time.
    pub fn is_valid(&self, start: &Timestamp) -> (ended: bool)
        ensures
            exists|now: Timestamp| ended == self.ends_before(*start, now),
    {
        let now = Timestamp::now();
        self.is_valid_at(start, now)
    }
}

} // verus!
