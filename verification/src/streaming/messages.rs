//! The message shapes of the account-event stream: outbound control action
//! kinds, the four mutually exclusive inbound frame shapes, and the session
//! lifecycle notifications delivered on the same queue as account events.

use vstd::prelude::*;

verus! {

/// The kind of an outbound control action.
#[derive(Clone, Copy, Debug, PartialEq, Eq, Structural)]
pub enum SubRequestAction {
    Heartbeat,
    Connect,
    PublicWatchlistsSubscribe,
    QuoteAlertsSubscribe,
    UserMessageSubscribe,
}

/// The kebab-case name each action kind carries on the wire.
pub open spec fn spec_action_wire(a: SubRequestAction) -> Seq<char> {
    match a {
        SubRequestAction::Heartbeat => "heartbeat"@,
        SubRequestAction::Connect => "connect"@,
        SubRequestAction::PublicWatchlistsSubscribe => "public-watchlists-subscribe"@,
        SubRequestAction::QuoteAlertsSubscribe => "quote-alerts-subscribe"@,
        SubRequestAction::UserMessageSubscribe => "user-message-subscribe"@,
    }
}

impl SubRequestAction {
    /// The wire name of this action kind.
    pub fn as_wire_str(&self) -> (r: &'static str)
        ensures
            r@ == spec_action_wire(*self),
    {
        match self {
            SubRequestAction::Heartbeat => "heartbeat",
            SubRequestAction::Connect => "connect",
            SubRequestAction::PublicWatchlistsSubscribe => "public-watchlists-subscribe",
            SubRequestAction::QuoteAlertsSubscribe => "quote-alerts-subscribe",
            SubRequestAction::UserMessageSubscribe => "user-message-subscribe",
        }
    }

    /// Heartbeats carry no caller-assigned correlation id; every other
    /// action kind does.
    pub fn uses_request_id(&self) -> (r: bool)
        ensures
            r == (*self != SubRequestAction::Heartbeat),
    {
        !matches!(self, SubRequestAction::Heartbeat)
    }
}

/// A status acknowledgement: correlates to a prior correlation id.
#[derive(Clone, Debug)]
pub struct StatusMessage {
    pub status: String,
    pub action: String,
    pub web_socket_session_id: String,
    pub request_id: u64,
}

/// A heartbeat acknowledgement: structurally a status acknowledgement,
/// except that it carries the server's own sequence counter (`ws-sequence`)
/// instead of a correlation id; that field is what tells the two apart.
#[derive(Clone, Debug)]
pub struct HeartbeatMessage {
    pub status: String,
    pub action: String,
    pub web_socket_session_id: String,
    pub ws_sequence: u64,
}

/// An error notification from the server: carries a human-readable message
/// and neither a correlation id nor a sequence field.
#[derive(Clone, Debug)]
pub struct ErrorMessage {
    pub status: String,
    pub action: String,
    pub web_socket_session_id: String,
    pub message: String,
}

/// An account event payload, tagged by its explicit `type` discriminator.
/// The four payload-carrying variants hold the raw JSON text of the frame's
/// `data` field; the session hands it through without interpreting it.
/// The last two variants are markers and carry no payload.
#[derive(Clone, Debug)]
pub enum AccountMessage {
    Order(String),
    AccountBalance(String),
    CurrentPosition(String),
    UnderlyingYearGainSummary(String),
    OrderChain,
    ExternalTransaction,
}

/// One decoded inbound frame: exactly one of the four mutually exclusive
/// shapes.
#[derive(Clone, Debug)]
pub enum AccountEvent {
    ErrorMessage(ErrorMessage),
    StatusMessage(StatusMessage),
    HeartbeatMessage(HeartbeatMessage),
    AccountMessage(AccountMessage),
}

/// A connectivity-status notification, delivered on the same output queue
/// as account events so a consumer can react to connectivity without a
/// side-channel.  `Closed` is terminal.
#[derive(Clone, Debug)]
pub enum LifecycleEvent {
    Connected,
    Disconnected { reason: String },
    Reconnecting { attempt: u64, max_attempts: u64 },
    Reconnected,
    Closed { reason: String },
}

/// What the session delivers to its consumer: either a decoded account
/// event or an explicit lifecycle marker.
#[derive(Clone, Debug)]
pub enum SessionEvent {
    Account(AccountEvent),
    Lifecycle(LifecycleEvent),
}

} // verus!
