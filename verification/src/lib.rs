//! Runtime core of a pluggable trading framework: the rules by which algorithm
//! modules are admitted and registered, the lifecycle they are driven through,
//! the portfolio ledger they trade against, and exact-arithmetic market values.

pub mod algorithm;
pub mod brokers;
pub mod deposit;
pub mod discovery;
pub mod error;
pub mod interface;
pub mod lifecycle;
pub mod loader;
pub mod market_values;
pub mod order;
pub mod position;
pub mod registration;
pub mod registry;
pub mod text;
pub mod time;
pub mod venue;

pub use crate::algorithm::Algorithm;
pub use crate::brokers::{BrokerCapability, BrokerErrorKind, BrokerInterface};
pub use crate::deposit::Deposit;
pub use crate::discovery::{
    find_dynamic_library_in_crate, find_dynamic_library_in_dir, select_library, DirEntry,
    Discovery, EntryKind, Platform,
};
pub use crate::error::{Error, ErrorKind, GeneralError, GeneralErrorKind, TradingErrorKind};
pub use crate::interface::{AlgorithmInterface, Instruction};
pub use crate::lifecycle::{Call, Lifecycle, Phase};
pub use crate::loader::{LoadAction, LoadEvent, LoadStage, Loader};
pub use crate::market_values::percent::Percent;
pub use crate::market_values::points::{Points, RelativePoints};
pub use crate::market_values::price::{Price, RelativePrice};
pub use crate::market_values::{MarketValue, Momentum, PercentArithmetic};
pub use crate::order::{
    Order, OrderData, OrderMoment, OrderType, OrderValidity, StopLoss, TakeProfit,
};
pub use crate::position::{Position, PositionType};
pub use crate::registration::{AlgorithmRegistration, DataLength};
pub use crate::registry::Algorithms;
pub use crate::time::{TimeSpan, Timestamp};
pub use crate::venue::{Currency, Derivative, StockExchange};

use std::collections::hash_map::DefaultHasher;
use std::hash::{Hash, Hasher};
use vstd::prelude::*;
use vstd::std_specs::hash::DefaultHasherAdditionalSpecFns;

verus! {

/// What hashing a text writes into a hasher: the same for equal texts.
pub uninterp spec fn hashed_text(text: Seq<char>) -> Seq<Seq<u8>>;

/// The id that stands for a raw identifier.
pub open spec fn raw_id_hash(raw_id: Seq<char>) -> u64 {
    DefaultHasher::spec_finish(hashed_text(raw_id))
}

/// Calls `Hash::hash` of `str`. Trusted: what it writes into the hasher comes
/// after what was written before and depends on the characters alone, so that
/// equal texts hash alike.
#[verifier::external_body]
fn write_text(hasher: &mut DefaultHasher, text: &str)
    ensures
        final(hasher)@ == old(hasher)@ + hashed_text(text@),
{
    text.hash(hasher);
}

/// The id for an identifier that a broker supplied: its hash with the standard
/// library's default hasher. Equal identifiers give equal ids. The hash is for
/// compact keys, not for secrecy, and is only as stable as that hasher is from
/// one release of the standard library to the next.
pub fn hash_raw_id(raw_id: &str) -> (id: u64)
    ensures
        id == raw_id_hash(raw_id@),
{
    let mut hasher = DefaultHasher::new();
    write_text(&mut hasher, raw_id);
    hasher.finish()
}

} // verus!
