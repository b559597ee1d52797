//! The verified core of the account-event streaming session.
//!
//! Everything that decides or computes lives here: the reconnect backoff
//! policy, the session controller's state machine, the subscription ledger,
//! the outbound envelope encoder, the inbound frame decoder, and the
//! redaction applied before any frame text may be logged.  The surrounding
//! runtime (sockets, queues, timers) drives these functions from outside the
//! verified boundary.

pub mod backoff;
pub mod decode;
pub mod encode;
pub mod ledger;
pub mod controller;
pub mod messages;
pub mod redact;
pub mod session;
pub mod text;
