//! What is exchanged with a broker.

use crate::deposit::Deposit;
use crate::error::{Error, GeneralErrorKind};
use crate::order::Order;
use crate::position::Position;
use crate::venue::StockExchange;
use vstd::prelude::*;
use vstd::string::StringExecFns;

verus! {

/// What a broker may be able to do.
#[derive(Copy, Clone, Debug, Eq, PartialEq, Structural)]
pub enum BrokerCapability {
    MultipleDeposits,
    DepositBalances,
    DepositTransactions,
    OrderOverview,
    OrderChange,
    OrderDelete,
    BuyMarketOrder,
    BuyLimitOrder,
    BuyStopOrder,
    SellMarketOrder,
    SellLimitOrder,
    SellStopOrder,
    AllOrNoneOrder,
    ImmediateOrCancelOrder,
    FillOrKillOrder,
    PositionOverview,
    PositionChange,
    LongCallPosition,
    LongPutPosition,
    ShortCallPosition,
    ShortPutPosition,
    TrailingStopLoss,
    TakeProfit,
}

/// How dealing with a broker, or with the ledger kept for one, can fail.
#[derive(Debug, Copy, Clone, Eq, PartialEq, Structural)]
pub enum BrokerErrorKind {
    ConnectionFailed,
    CouldNotLogin,
    CouldNotLogout,
    NoSuchOrder,
    NoSuchPosition,
    Other,
    TimeOut,
}

impl BrokerErrorKind {
    /// The name of the kind.
    pub open spec fn name(self) -> Seq<char> {
        match self {
            BrokerErrorKind::ConnectionFailed => "ConnectionFailed"@,
            BrokerErrorKind::CouldNotLogin => "CouldNotLogin"@,
            BrokerErrorKind::CouldNotLogout => "CouldNotLogout"@,
            BrokerErrorKind::NoSuchOrder => "NoSuchOrder"@,
            BrokerErrorKind::NoSuchPosition => "NoSuchPosition"@,
            BrokerErrorKind::Other => "Other"@,
            BrokerErrorKind::TimeOut => "TimeOut"@,
        }
    }

    /// The kind as text: its name.
    pub fn to_text(&self) -> (text: String)
        ensures
            text@ == self.name(),
    {
        match self {
            BrokerErrorKind::ConnectionFailed => String::from_str("ConnectionFailed"),
            BrokerErrorKind::CouldNotLogin => String::from_str("CouldNotLogin"),
            BrokerErrorKind::CouldNotLogout => String::from_str("CouldNotLogout"),
            BrokerErrorKind::NoSuchOrder => String::from_str("NoSuchOrder"),
            BrokerErrorKind::NoSuchPosition => String::from_str("NoSuchPosition"),
            BrokerErrorKind::Other => String::from_str("Other"),
            BrokerErrorKind::TimeOut => String::from_str("TimeOut"),
        }
    }
}

impl GeneralErrorKind for BrokerErrorKind {

}

/// What a broker offers to the host: sessions, accounts, orders and positions.
/// The library keeps the ledger that these calls fill; it makes none of them.
pub trait BrokerInterface {
    const NAME: &'static str;

    const CAPABILITIES: &'static [BrokerCapability];

    const STOCK_EXCHANGES: &'static [StockExchange];

    fn login(&mut self) -> Result<(), Error<BrokerErrorKind>>;

    fn logout(&mut self) -> Result<(), Error<BrokerErrorKind>>;

    fn is_logged_in(&self) -> bool;

    fn all_deposits(&self) -> Result<Vec<Deposit>, Error<BrokerErrorKind>>;

    fn update_deposit_transactions(&self, deposit: &mut Deposit) -> Result<
        (),
        Error<BrokerErrorKind>,
    >;

    fn update_deposit_balance(&self, deposit: &mut Deposit) -> Result<(), Error<BrokerErrorKind>>;

    fn all_orders(&self) -> Result<&[Order], Error<BrokerErrorKind>>;

    fn get_order(&self) -> Result<&Order, Error<BrokerErrorKind>>;

    fn change_order(&self) -> Result<(), Error<BrokerErrorKind>>;

    fn delete_order(&self) -> Result<Order, Error<BrokerErrorKind>>;

    fn update_deposit_orders(&self, deposit: &mut Deposit) -> Result<(), Error<BrokerErrorKind>>;

    fn all_positions(&self) -> Result<&[Position], Error<BrokerErrorKind>>;

    fn get_positions(&self) -> Result<&Position, Error<BrokerErrorKind>>;

    fn update_deposit_positions(&self, deposit: &mut Deposit) -> Result<
        (),
        Error<BrokerErrorKind>,
    >;

    fn buy(&self, deposit: &mut Deposit, order: u64) -> Result<&Position, Error<BrokerErrorKind>>;

    fn sell(&self, deposit: &mut Deposit, position: u64) -> Result<
        Position,
        Error<BrokerErrorKind>,
    >;
}

} // verus!
