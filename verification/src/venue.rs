//! Where and in what an instrument is traded.

use vstd::prelude::*;

verus! {

/// A stock exchange.
#[derive(Clone, Copy, Debug, PartialEq, Eq, Hash, Structural)]
pub enum StockExchange {
    Frankfurt,
    London,
    Nasdaq,
    NewYork,
    Tokyo,
    Xetra,
}

/// The currency an account is kept in.
#[derive(Clone, Copy, Debug, PartialEq, Eq, Hash, Structural)]
pub enum Currency {
    Euro,
    PoundSterling,
    SwissFranc,
    UsDollar,
    Yen,
}

/// The instrument an algorithm trades.
#[derive(Clone, Copy, Debug, PartialEq, Eq, Hash, Structural)]
pub struct Derivative {
    pub id: u64,
    pub stock_exchange: StockExchange,
    pub currency: Currency,
}

} // verus!
