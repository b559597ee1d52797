//! Equity instrument records.

use crate::api::order::Symbol;
use crate::api::quote_streaming::DxFeedSymbol;
use vstd::prelude::*;

verus! {

/// A tick-size threshold for equity trading.
#[derive(Debug, Clone)]
pub struct TickSize {
    pub value: String,
    pub threshold: Option<String>,
}

/// The full metadata of one equity instrument.
#[derive(Debug)]
pub struct EquityInstrumentInfo {
    pub id: Option<u64>,
    pub symbol: Symbol,
    pub instrument_type: Option<String>,
    pub cusip: Option<String>,
    pub short_description: Option<String>,
    pub description: Option<String>,
    pub is_index: Option<bool>,
    pub listed_market: Option<String>,
    pub lendability: Option<String>,
    pub borrow_rate: Option<String>,
    pub market_time_instrument_collection: Option<String>,
    pub is_closing_only: Option<bool>,
    pub is_options_closing_only: Option<bool>,
    pub active: Option<bool>,
    pub is_fractional_quantity_eligible: Option<bool>,
    pub is_illiquid: Option<bool>,
    pub is_etf: Option<bool>,
    pub streamer_symbol: DxFeedSymbol,
    pub tick_sizes: Option<Vec<TickSize>>,
    pub option_tick_sizes: Option<Vec<TickSize>>,
}

impl EquityInstrumentInfo {
    /// The company or security name: the short description where there is
    /// one, else the long description, else the symbol itself.
    pub fn name(&self) -> (r: &str)
        ensures
            self.short_description matches Some(s) ==> r@ == s@,
            self.short_description is None ==> (self.description matches Some(d) ==> r@ == d@),
            self.short_description is None && self.description is None ==> r@ == self.symbol.0@,
    {
        match &self.short_description {
            Option::Some(s) => s.as_str(),
            Option::None => match &self.description {
                Option::Some(d) => d.as_str(),
                Option::None => self.symbol.0.as_str(),
            },
        }
    }
}

} // verus!
