//! The plain records of the market-data streaming surface.  The streaming
//! client itself delegates its framing and reconnection to a third-party
//! feed library and lives outside this crate.

use vstd::prelude::*;

verus! {

/// The raw response of the quote-token endpoint.
#[derive(Debug)]
pub struct ApiQuoteTokens {
    pub data: ApiQuoteTokensData,
    pub context: String,
}

/// The data block of the quote-token response.
#[derive(Debug)]
pub struct ApiQuoteTokensData {
    pub token: String,
    pub dxlink_url: String,
    pub level: String,
}

/// Everything needed to establish a quote-streaming connection.
#[derive(Debug)]
pub struct QuoteStreamerTokens {
    pub token: String,
    pub streamer_url: String,
    pub websocket_url: String,
    pub level: String,
}

/// The symbol form the market-data feed subscribes with.
#[derive(Debug, Clone)]
pub struct DxFeedSymbol(pub String);

} // verus!
