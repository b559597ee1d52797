//! A brokerage API client library whose core is a verified model of the
//! resilient account-event streaming session: the backoff policy, the
//! reconnect state machine, the subscription ledger, the wire-envelope
//! encoder, the inbound-frame decoder, and the log redaction rules.

pub mod api;
pub mod client;
pub mod streaming;

pub use api::base::Result;
pub use api::market_data::{MarketDataParam, MarketDataRequest};
pub use api::oauth2::{OAuth2ClientBuilder, OAuth2Config};
pub use client::FromTastyResponse;
pub use streaming::messages::{
    AccountEvent, AccountMessage, ErrorMessage, HeartbeatMessage, LifecycleEvent, SessionEvent,
    StatusMessage, SubRequestAction,
};
