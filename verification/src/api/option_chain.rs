//! Option-chain records.

use crate::api::quote_streaming::DxFeedSymbol;
use vstd::prelude::*;

verus! {

/// The streaming identity of one option instrument.
#[derive(Debug)]
pub struct OptionInfo {
    pub streamer_symbol: DxFeedSymbol,
}

} // verus!
