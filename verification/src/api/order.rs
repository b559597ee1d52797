//! The order vocabulary: actions, instrument types, order kinds and
//! statuses, symbols, and the live-order records that the account stream
//! refers to.

use crate::streaming::text::{spec_chars_cmp, str_cmp, str_eq};
use vstd::prelude::*;

verus! {

/// Whether an amount debits or credits the account, or leaves it alone
/// (the API calls the last case `None`).
#[derive(Debug, Clone)]
pub enum PriceEffect {
    Debit,
    Credit,
    NoEffect,
}

/// The side and intent of an order leg.
#[derive(Debug, Clone)]
pub enum Action {
    BuyToOpen,
    SellToOpen,
    BuyToClose,
    SellToClose,
    Sell,
    Buy,
}

/// The name each action carries in the API.
pub open spec fn spec_action_api(a: Action) -> Seq<char> {
    match a {
        Action::BuyToOpen => "Buy to Open"@,
        Action::SellToOpen => "Sell to Open"@,
        Action::BuyToClose => "Buy to Close"@,
        Action::SellToClose => "Sell to Close"@,
        Action::Sell => "Sell"@,
        Action::Buy => "Buy"@,
    }
}

impl Action {
    /// The API's name for this action.
    pub fn as_api_str(&self) -> (r: &'static str)
        ensures
            r@ == spec_action_api(*self),
    {
        match self {
            Action::BuyToOpen => "Buy to Open",
            Action::SellToOpen => "Sell to Open",
            Action::BuyToClose => "Buy to Close",
            Action::SellToClose => "Sell to Close",
            Action::Sell => "Sell",
            Action::Buy => "Buy",
        }
    }
}

/// The kind of instrument a record refers to.
#[derive(Debug, Clone)]
pub enum InstrumentType {
    Equity,
    EquityOption,
    EquityOffering,
    Future,
    FutureOption,
    Cryptocurrency,
    Bond,
    Index,
    Warrant,
    Unknown,
}

/// The name each instrument type carries in the API.
pub open spec fn spec_instrument_type_api(t: InstrumentType) -> Seq<char> {
    match t {
        InstrumentType::Equity => "Equity"@,
        InstrumentType::EquityOption => "Equity Option"@,
        InstrumentType::EquityOffering => "Equity Offering"@,
        InstrumentType::Future => "Future"@,
        InstrumentType::FutureOption => "Future Option"@,
        InstrumentType::Cryptocurrency => "Cryptocurrency"@,
        InstrumentType::Bond => "Bond"@,
        InstrumentType::Index => "Index"@,
        InstrumentType::Warrant => "Warrant"@,
        InstrumentType::Unknown => "Unknown"@,
    }
}

impl InstrumentType {
    /// The API's name for this instrument type.
    pub fn as_api_str(&self) -> (r: &'static str)
        ensures
            r@ == spec_instrument_type_api(*self),
    {
        match self {
            InstrumentType::Equity => "Equity",
            InstrumentType::EquityOption => "Equity Option",
            InstrumentType::EquityOffering => "Equity Offering",
            InstrumentType::Future => "Future",
            InstrumentType::FutureOption => "Future Option",
            InstrumentType::Cryptocurrency => "Cryptocurrency",
            InstrumentType::Bond => "Bond",
            InstrumentType::Index => "Index",
            InstrumentType::Warrant => "Warrant",
            InstrumentType::Unknown => "Unknown",
        }
    }
}

/// How an order is priced.
#[derive(Debug, Clone)]
pub enum OrderType {
    Limit,
    Market,
    MarketableLimit,
    Stop,
    StopLimit,
    NotionalMarket,
}

/// How long an order stays working.
#[derive(Debug, Clone)]
pub enum TimeInForce {
    Day,
    GTC,
    GTD,
    Ext,
    GTCExt,
    IOC,
}

/// Where an order stands in its life cycle.
#[derive(Debug, Clone)]
pub enum OrderStatus {
    Received,
    Routed,
    InFlight,
    Live,
    CancelRequested,
    ReplaceRequested,
    Contingent,
    Filled,
    Cancelled,
    Expired,
    Rejected,
    Removed,
    PartiallyRemoved,
}

/// A ticker symbol.
#[derive(Debug, Clone, Eq, Hash)]
pub struct Symbol(pub String);

impl PartialEq for Symbol {
    /// Two symbols are equal when their text is.
    fn eq(&self, other: &Symbol) -> (r: bool) {
        str_eq(self.0.as_str(), other.0.as_str())
    }
}

impl vstd::std_specs::cmp::PartialEqSpecImpl for Symbol {
    open spec fn obeys_eq_spec() -> bool {
        true
    }

    open spec fn eq_spec(&self, other: &Symbol) -> bool {
        self.0@ == other.0@
    }
}

impl PartialOrd for Symbol {
    /// Symbols order lexicographically by their text.
    fn partial_cmp(&self, other: &Symbol) -> (r: Option<core::cmp::Ordering>) {
        Option::Some(str_cmp(self.0.as_str(), other.0.as_str()))
    }
}

impl vstd::std_specs::cmp::PartialOrdSpecImpl for Symbol {
    open spec fn obeys_partial_cmp_spec() -> bool {
        true
    }

    open spec fn partial_cmp_spec(&self, other: &Symbol) -> Option<core::cmp::Ordering> {
        Option::Some(spec_chars_cmp(self.0@, other.0@))
    }
}

impl From<&str> for Symbol {
    /// A symbol holding exactly the given text.
    fn from(value: &str) -> (r: Symbol)
        ensures
            r.0@ == value@,
    {
        Symbol(value.to_owned())
    }
}

impl vstd::std_specs::convert::FromSpecImpl<&str> for Symbol {
    open spec fn obeys_from_spec() -> bool {
        false
    }

    open spec fn from_spec(t: &str) -> Symbol {
        arbitrary()
    }
}

impl From<String> for Symbol {
    /// A symbol holding exactly the given text.
    fn from(value: String) -> (r: Symbol)
        ensures
            r.0@ == value@,
    {
        Symbol(value)
    }
}

impl vstd::std_specs::convert::FromSpecImpl<String> for Symbol {
    open spec fn obeys_from_spec() -> bool {
        false
    }

    open spec fn from_spec(t: String) -> Symbol {
        arbitrary()
    }
}

/// Anything that can stand in for a ticker symbol.
pub trait AsSymbol {
    /// This value as a [`Symbol`].
    fn as_symbol(&self) -> Symbol;
}

impl AsSymbol for &str {
    fn as_symbol(&self) -> (r: Symbol)
        ensures
            r.0@ == self@,
    {
        Symbol((*self).to_owned())
    }
}

impl AsSymbol for String {
    fn as_symbol(&self) -> (r: Symbol)
        ensures
            r.0@ == self@,
    {
        Symbol(self.clone())
    }
}

impl AsSymbol for Symbol {
    fn as_symbol(&self) -> (r: Symbol)
        ensures
            r.0@ == self.0@,
    {
        Symbol(self.0.clone())
    }
}

impl AsSymbol for &Symbol {
    fn as_symbol(&self) -> (r: Symbol)
        ensures
            r.0@ == self.0@,
    {
        Symbol(self.0.clone())
    }
}

/// The server-assigned identifier of an order.
#[derive(Debug, Clone, Copy, PartialEq, Eq, Structural)]
pub struct OrderId(pub u64);

/// One leg of a live order, as the account stream reports it.
#[derive(Debug)]
pub struct LiveOrderLeg {
    pub instrument_type: InstrumentType,
    pub symbol: Symbol,
    pub quantity: u64,
    pub remaining_quantity: u64,
    pub action: Action,
    pub fills: Vec<String>,
}

/// A warning attached to an order placement result.
#[derive(Debug)]
pub struct Warning {}

} // verus!
