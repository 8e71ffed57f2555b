//! Open positions.

use crate::market_values::price::Price;
use crate::order::{OrderData, StopLoss, TakeProfit};
use crate::time::Timestamp;
use crate::venue::StockExchange;
use crate::{hash_raw_id, raw_id_hash};
use vstd::prelude::*;

verus! {

/// The four sides a position can take.
#[derive(Clone, Copy, Debug, PartialEq, Eq, Structural)]
pub enum PositionType {
    LongCall,
    LongPut,
    ShortCall,
    ShortPut,
}

/// An open position: an executed order record, with the price and the time of
/// the execution.
#[derive(Clone, Debug, PartialEq)]
pub struct Position {
    id: u64,
    time: Timestamp,
    buy_price: Price,
    stock_exchange: StockExchange,
    pieces: u64,
    position_type: PositionType,
    take_profit: TakeProfit,
    stop_loss: StopLoss,
}

impl Position {
    /// The position that executing `order_data` at `buy_price` and `time`
    /// opens under the id `id`: exchange, pieces, side and both policies are
    /// the record's.
    pub closed spec fn opened(
        id: u64,
        time: Timestamp,
        buy_price: Price,
        order_data: OrderData,
    ) -> Position {
        Position {
            id,
            time,
            buy_price,
            stock_exchange: order_data.exchange_of(),
            pieces: order_data.pieces_of(),
            position_type: order_data.position_type_of(),
            take_profit: order_data.take_profit_of(),
            stop_loss: order_data.stop_loss_of(),
        }
    }

    /// What an opened position holds.
    pub proof fn opened_holds(id: u64, time: Timestamp, buy_price: Price, order_data: OrderData)
        ensures
            Self::opened(id, time, buy_price, order_data).id_of() == id,
            Self::opened(id, time, buy_price, order_data).time_of() == time,
            Self::opened(id, time, buy_price, order_data).buy_price_of() == buy_price,
            Self::opened(id, time, buy_price, order_data).exchange_of()
                == order_data.exchange_of(),
            Self::opened(id, time, buy_price, order_data).pieces_of() == order_data.pieces_of(),
            Self::opened(id, time, buy_price, order_data).position_type_of()
                == order_data.position_type_of(),
            Self::opened(id, time, buy_price, order_data).take_profit_of()
                == order_data.take_profit_of(),
            Self::opened(id, time, buy_price, order_data).stop_loss_of()
                == order_data.stop_loss_of(),
    {
    }

    /// The id.
    pub closed spec fn id_of(&self) -> u64 {
        self.id
    }

    /// When the position was opened.
    pub closed spec fn time_of(&self) -> Timestamp {
        self.time
    }

    /// The price it was bought at.
    pub closed spec fn buy_price_of(&self) -> Price {
        self.buy_price
    }

    /// The exchange it is held on.
    pub closed spec fn exchange_of(&self) -> StockExchange {
        self.stock_exchange
    }

    /// How many pieces it holds.
    pub closed spec fn pieces_of(&self) -> u64 {
        self.pieces
    }

    /// Its side.
    pub closed spec fn position_type_of(&self) -> PositionType {
        self.position_type
    }

    /// Its profit target.
    pub closed spec fn take_profit_of(&self) -> TakeProfit {
        self.take_profit
    }

    /// Its stop.
    pub closed spec fn stop_loss_of(&self) -> StopLoss {
        self.stop_loss
    }

    /// Opens the position that an executed order record gives.
    pub fn from_order_data(id: u64, time: Timestamp, buy_price: Price, order_data: &OrderData) -> (position:
        Self)
        ensures
            position == Self::opened(id, time, buy_price, *order_data),
    {
        Position {
            id,
            time,
            buy_price,
            stock_exchange: *order_data.stock_exchange(),
            pieces: order_data.pieces(),
            position_type: *order_data.position_type(),
            take_profit: *order_data.take_profit(),
            stop_loss: *order_data.stop_loss(),
        }
    }

    /// The id for an identifier that the broker supplied.
    pub fn hash_raw_id(raw_id: &str) -> (id: u64)
        ensures
            id == raw_id_hash(raw_id@),
    {
        hash_raw_id(raw_id)
    }

    pub fn id(&self) -> (id: u64)
        ensures
            id == self.id_of(),
    {
        self.id
    }

    pub fn time(&self) -> (time: &Timestamp)
        ensures
            *time == self.time_of(),
    {
        &self.time
    }

    pub fn buy_price(&self) -> (buy_price: &Price)
        ensures
            *buy_price == self.buy_price_of(),
    {
        &self.buy_price
    }

    pub fn stock_exchange(&self) -> (stock_exchange: &StockExchange)
        ensures
            *stock_exchange == self.exchange_of(),
    {
        &self.stock_exchange
    }

    pub fn pieces(&self) -> (pieces: u64)
        ensures
            pieces == self.pieces_of(),
    {
        self.pieces
    }

    pub fn position_type(&self) -> (position_type: &PositionType)
        ensures
            *position_type == self.position_type_of(),
    {
        &self.position_type
    }

    pub fn take_profit(&self) -> (take_profit: &TakeProfit)
        ensures
            *take_profit == self.take_profit_of(),
    {
        &self.take_profit
    }

    pub fn stop_loss(&self) -> (stop_loss: &StopLoss)
        ensures
            *stop_loss == self.stop_loss_of(),
    {
        &self.stop_loss
    }

    /// What was bought, when and for how much is as in `other`.
    pub open spec fn same_holding(&self, other: &Position) -> bool {
        &&& self.id_of() == other.id_of()
        &&& self.time_of() == other.time_of()
        &&& self.buy_price_of() == other.buy_price_of()
        &&& self.exchange_of() == other.exchange_of()
        &&& self.pieces_of() == other.pieces_of()
        &&& self.position_type_of() == other.position_type_of()
    }

    /// Sets the profit target of the open position.
    pub fn update_take_profit(&mut self, take_profit: TakeProfit)
        ensures
            final(self).take_profit_of() == take_profit,
            final(self).stop_loss_of() == old(self).stop_loss_of(),
            final(self).same_holding(old(self)),
    {
        self.take_profit = take_profit
    }

    /// Sets the stop of the open position.
    pub fn update_stop_loss(&mut self, stop_loss: StopLoss)
        ensures
            final(self).stop_loss_of() == stop_loss,
            final(self).take_profit_of() == old(self).take_profit_of(),
            final(self).same_holding(old(self)),
    {
        self.stop_loss = stop_loss
    }

    /// Whether the position has the id `id`.
    pub fn has_id(&self, id: u64) -> (held: bool)
        ensures
            held == (self.id_of() == id),
    {
        self.id == id
    }
}

} // verus!
