//! The data surface of the brokerage API: response envelopes, account and
//! instrument records, order and transaction vocabulary, and the verified
//! core of the account-event streaming session.

pub mod accounts;
pub mod base;
pub mod instrument;
pub mod login;
pub mod market_data;
pub mod oauth2;
pub mod option_chain;
pub mod order;
pub mod position;
pub mod quote_streaming;
pub mod transaction;
