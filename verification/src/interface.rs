//! What an algorithm module implements, and what it hands back.

use crate::algorithm::Algorithm;
use crate::error::{Error, TradingErrorKind};
use crate::market_values::price::Price;
use crate::order::Order;
use crate::position::Position;
use crate::time::TimeSpan;
use crate::venue::Derivative;
use vstd::prelude::*;

verus! {

/// What an algorithm asks the host to do to the ledger.
#[derive(Clone, Debug, PartialEq)]
pub enum Instruction {
    /// Do nothing.
    Nothing,
    /// Place this order. This is the one instruction that opens a position.
    PlaceOrder(Order),
    /// Withdraw the open order that holds this id.
    DeleteOrder(u64),
    /// Close the open position with this id, at this price.
    ClosePosition(u64, Price),
}

impl Instruction {
    /// Whether the instruction opens a position.
    pub open spec fn opens(&self) -> bool {
        self is PlaceOrder
    }

    /// Decides [`Instruction::opens`].
    pub fn is_opening(&self) -> (opening: bool)
        ensures
            opening == self.opens(),
    {
        match self {
            Instruction::PlaceOrder(_) => true,
            _ => false,
        }
    }
}

/// The four calls by which the host drives an algorithm. `init` comes once,
/// before any price; `collect_prices` while there are fewer prices than the
/// algorithm needs; `algorithm` at every tick after that; `shutdown` once, at
/// the end. An algorithm that leaves `init`, `collect_prices` or `shutdown`
/// out succeeds in them and asks for nothing; one that says which of them it
/// leaves out is held to that, and its callers may rely on it.
pub trait AlgorithmInterface {
    /// Tells the algorithm what will be traded and how far apart the ticks are.
    #[allow(unused_variables)]
    fn init(&mut self, derivative: &Derivative, time_steps: TimeSpan) -> (outcome: Result<
        (),
        Error<TradingErrorKind>,
    >)
        ensures
            old(self).leaves_init_out() ==> outcome is Ok && &*final(self) == &*old(self),
    {
        Ok(())
    }

    /// Shows the algorithm the prices so far, while they are too few to trade
    /// on. It cannot give instructions here.
    #[allow(unused_variables)]
    fn collect_prices(&mut self, prices: &[Price]) -> (outcome: Result<
        (),
        Error<TradingErrorKind>,
    >)
        ensures
            old(self).leaves_collect_prices_out() ==> outcome is Ok && &*final(self) == &*old(self),
    {
        Ok(())
    }

    /// One tick: the open positions and the price window go in, instructions
    /// come out.
    fn algorithm(&mut self, positions: &[Position], prices: &[Price]) -> Result<
        &[Instruction],
        Error<TradingErrorKind>,
    >;

    /// The last call. The algorithm may still give instructions, but opening
    /// ones will not be followed.
    #[allow(unused_variables)]
    fn shutdown(&mut self, positions: &[Position], prices: &[Price]) -> (outcome: Result<
        &[Instruction],
        Error<TradingErrorKind>,
    >)
        ensures
            old(self).leaves_shutdown_out() ==> {
                &&& outcome matches Ok(instructions)
                &&& instructions@ == seq![Instruction::Nothing]
                &&& &*final(self) == &*old(self)
            },
    {
        Ok(&[Instruction::Nothing])
    }

    /// Whether the algorithm leaves `init` as it is given here. One that says
    /// so succeeds in `init` and is not changed by it.
    open spec fn leaves_init_out(&self) -> bool {
        false
    }

    /// Whether the algorithm leaves `collect_prices` as it is given here. One
    /// that says so succeeds in `collect_prices` and is not changed by it.
    open spec fn leaves_collect_prices_out(&self) -> bool {
        false
    }

    /// Whether the algorithm leaves `shutdown` as it is given here. One that
    /// says so succeeds in `shutdown`, asks for nothing and is not changed by
    /// it.
    open spec fn leaves_shutdown_out(&self) -> bool {
        false
    }
}

/// A loaded algorithm passes each call on to its instance: what comes back is
/// what the instance returned, the instance is left as the call left it, and
/// the declarations stay as they were.
impl<I: AlgorithmInterface> AlgorithmInterface for Algorithm<I> {
    fn init(&mut self, derivative: &Derivative, time_steps: TimeSpan) -> (outcome: Result<
        (),
        Error<TradingErrorKind>,
    >)
        ensures
            final(self).keeps_declarations_of(old(self)),
            exists|handle: &mut I|
                {
                    &&& *handle == old(self).held_instance()
                    &&& *final(handle) == final(self).held_instance()
                    &&& #[trigger] call_ensures(I::init, (handle, derivative, time_steps), outcome)
                },
    {
        self.instance_mut().init(derivative, time_steps)
    }

    fn collect_prices(&mut self, prices: &[Price]) -> (outcome: Result<
        (),
        Error<TradingErrorKind>,
    >)
        ensures
            final(self).keeps_declarations_of(old(self)),
            exists|handle: &mut I|
                {
                    &&& *handle == old(self).held_instance()
                    &&& *final(handle) == final(self).held_instance()
                    &&& #[trigger] call_ensures(I::collect_prices, (handle, prices), outcome)
                },
    {
        self.instance_mut().collect_prices(prices)
    }

    fn algorithm(&mut self, positions: &[Position], prices: &[Price]) -> (outcome: Result<
        &[Instruction],
        Error<TradingErrorKind>,
    >)
        ensures
            final(self).keeps_declarations_of(old(self)),
            exists|handle: &mut I|
                {
                    &&& *handle == old(self).held_instance()
                    &&& *final(handle) == final(self).held_instance()
                    &&& #[trigger] call_ensures(I::algorithm, (handle, positions, prices), outcome)
                },
    {
        self.instance_mut().algorithm(positions, prices)
    }

    fn shutdown(&mut self, positions: &[Position], prices: &[Price]) -> (outcome: Result<
        &[Instruction],
        Error<TradingErrorKind>,
    >)
        ensures
            final(self).keeps_declarations_of(old(self)),
            exists|handle: &mut I|
                {
                    &&& *handle == old(self).held_instance()
                    &&& *final(handle) == final(self).held_instance()
                    &&& #[trigger] call_ensures(I::shutdown, (handle, positions, prices), outcome)
                },
    {
        self.instance_mut().shutdown(positions, prices)
    }

    /// A loaded algorithm leaves `init` out where its instance does.
    open spec fn leaves_init_out(&self) -> bool {
        self.held_instance().leaves_init_out()
    }

    /// A loaded algorithm leaves `collect_prices` out where its instance does.
    open spec fn leaves_collect_prices_out(&self) -> bool {
        self.held_instance().leaves_collect_prices_out()
    }

    /// A loaded algorithm leaves `shutdown` out where its instance does.
    open spec fn leaves_shutdown_out(&self) -> bool {
        self.held_instance().leaves_shutdown_out()
    }
}

} // verus!
