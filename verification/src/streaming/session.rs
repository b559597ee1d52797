//! The decision core of the public session handle.
//!
//! One value of [`SessionCore`] holds everything the session decides with:
//! the retry configuration, the controller state, the subscription ledger
//! and the action encoder.  The runtime around it owns the sockets, queues
//! and timers; every envelope it writes and every retry decision it takes
//! comes out of these methods.

use crate::streaming::controller::{
    session_step, spec_step, SessionCommand, SessionConfig, SessionInput, SessionState, StepResult,
};
use crate::streaming::encode::{
    encode_string_array, spec_envelope, spec_json_string_array, spec_opt_view, ActionEncoder,
};
use crate::streaming::ledger::{spec_ledger_insert, SubscriptionLedger};
use crate::streaming::messages::{LifecycleEvent, SubRequestAction};
use vstd::prelude::*;

verus! {

/// The secure-websocket endpoint dialed for a session: one fixed URL for
/// production, a distinct fixed URL for the demo environment, chosen once
/// at dial time from the session's construction-time flag.
pub fn endpoint_url(demo: bool) -> (r: &'static str)
    ensures
        demo ==> r@ == "wss://streamer.cert.tastyworks.com"@,
        !demo ==> r@ == "wss://streamer.tastyworks.com"@,
{
    if demo {
        "wss://streamer.cert.tastyworks.com"
    } else {
        "wss://streamer.tastyworks.com"
    }
}

/// The state a session handle decides with.  The ledger and the correlation
/// counter outlive every physical connection; the controller state records
/// where the retry loop stands.
pub struct SessionCore {
    pub config: SessionConfig,
    pub state: SessionState,
    pub ledger: SubscriptionLedger,
    pub encoder: ActionEncoder,
    pub close_requested: bool,
}

impl SessionCore {
    /// Everything that must hold of a session core between steps.
    pub open spec fn wf(&self) -> bool {
        &&& self.ledger.wf()
        &&& self.encoder.next_request_id >= 1
    }

    /// A fresh, idle session core with an empty ledger.
    pub fn new(config: SessionConfig, source: String) -> (r: SessionCore)
        ensures
            r.wf(),
            r.config == config,
            r.state is Idle,
            r.ledger@ == Seq::<Seq<char>>::empty(),
            r.encoder.source == source,
            r.encoder.next_request_id == 1,
            !r.close_requested,
    {
        SessionCore {
            config,
            state: SessionState::Idle,
            ledger: SubscriptionLedger::new(),
            encoder: ActionEncoder::new(source),
            close_requested: false,
        }
    }

    /// One controller step: feeds `input` to the state machine, records the
    /// next state, and hands back the lifecycle events to publish and the
    /// command to carry out.  Nothing else in the core changes.
    pub fn on_input(&mut self, input: SessionInput) -> (r: (Vec<LifecycleEvent>, SessionCommand))
        requires
            old(self).wf(),
        ensures
            final(self).wf(),
            spec_step(
                old(self).config,
                old(self).state,
                input,
                StepResult { state: final(self).state, events: r.0, command: r.1 },
            ),
            final(self).config == old(self).config,
            final(self).ledger == old(self).ledger,
            final(self).encoder == old(self).encoder,
            final(self).close_requested == old(self).close_requested,
    {
        let step = session_step(&self.config, &self.state, input);
        self.state = step.state;
        (step.events, step.command)
    }

    /// Records a shutdown request.  `is_closed` reports it from then on,
    /// whatever the socket underneath is still doing.
    pub fn request_close(&mut self)
        ensures
            final(self).close_requested,
            final(self).config == old(self).config,
            final(self).state == old(self).state,
            final(self).ledger == old(self).ledger,
            final(self).encoder == old(self).encoder,
    {
        self.close_requested = true;
    }

    /// Whether shutdown has been requested — not whether the physical
    /// socket is already down; a closing session may still be mid-teardown.
    pub fn is_closed(&self) -> (r: bool)
        ensures
            r == self.close_requested,
    {
        self.close_requested
    }

    /// Handles one subscribe call: records the identifier in the ledger
    /// (a no-op when already present) and always encodes a fresh `connect`
    /// action carrying that identifier, so the server state stays in sync.
    pub fn subscribe(&mut self, token: &str, account_number: String) -> (r: String)
        requires
            old(self).wf(),
            old(self).encoder.next_request_id < u64::MAX,
        ensures
            final(self).wf(),
            final(self).ledger@ == spec_ledger_insert(old(self).ledger@, account_number@),
            final(self).encoder.next_request_id == old(self).encoder.next_request_id + 1,
            r@ == spec_envelope(
                token@,
                SubRequestAction::Connect,
                Option::Some(spec_json_string_array(seq![account_number@])),
                old(self).encoder.next_request_id,
                old(self).encoder.source@,
            ),
            final(self).config == old(self).config,
            final(self).state == old(self).state,
            final(self).encoder.source == old(self).encoder.source,
            final(self).close_requested == old(self).close_requested,
    {
        let mut ids: Vec<String> = Vec::new();
        ids.push(account_number.clone());
        let payload = encode_string_array(&ids);
        proof {
            assert(ids@.map_values(|s: String| s@) =~= seq![account_number@]);
        }
        self.ledger.subscribe(account_number);
        self.encoder.encode(token, SubRequestAction::Connect, Option::Some(payload.as_str()))
    }

    /// Encodes the `connect` action that re-arms the server after a redial:
    /// its payload is the full current ledger, in insertion order.
    pub fn resubscribe_all(&mut self, token: &str) -> (r: String)
        requires
            old(self).wf(),
            old(self).encoder.next_request_id < u64::MAX,
        ensures
            final(self).wf(),
            final(self).encoder.next_request_id == old(self).encoder.next_request_id + 1,
            r@ == spec_envelope(
                token@,
                SubRequestAction::Connect,
                Option::Some(spec_json_string_array(old(self).ledger@)),
                old(self).encoder.next_request_id,
                old(self).encoder.source@,
            ),
            final(self).config == old(self).config,
            final(self).state == old(self).state,
            final(self).ledger == old(self).ledger,
            final(self).encoder.source == old(self).encoder.source,
            final(self).close_requested == old(self).close_requested,
    {
        let ids = self.ledger.snapshot();
        let payload = encode_string_array(&ids);
        self.encoder.encode(token, SubRequestAction::Connect, Option::Some(payload.as_str()))
    }

    /// Encodes a keep-alive heartbeat: no payload, correlation id 0, and
    /// the id counter stands still.
    pub fn heartbeat(&mut self, token: &str) -> (r: String)
        requires
            old(self).wf(),
        ensures
            final(self).wf(),
            final(self).encoder == old(self).encoder,
            r@ == spec_envelope(
                token@,
                SubRequestAction::Heartbeat,
                Option::None,
                0,
                old(self).encoder.source@,
            ),
            final(self).config == old(self).config,
            final(self).state == old(self).state,
            final(self).ledger == old(self).ledger,
            final(self).close_requested == old(self).close_requested,
    {
        self.encoder.encode(token, SubRequestAction::Heartbeat, Option::None)
    }

    /// The generic escape hatch: encodes any action kind with any
    /// caller-supplied payload, already serialized to JSON text; the
    /// payload's shape is not validated.
    pub fn send(&mut self, token: &str, action: SubRequestAction, value_json: Option<&str>) -> (r:
        String)
        requires
            old(self).wf(),
            old(self).encoder.next_request_id < u64::MAX,
        ensures
            final(self).wf(),
            action is Heartbeat ==> {
                &&& final(self).encoder == old(self).encoder
                &&& r@ == spec_envelope(
                    token@,
                    action,
                    spec_opt_view(value_json),
                    0,
                    old(self).encoder.source@,
                )
            },
            !(action is Heartbeat) ==> {
                &&& final(self).encoder.next_request_id == old(self).encoder.next_request_id + 1
                &&& r@ == spec_envelope(
                    token@,
                    action,
                    spec_opt_view(value_json),
                    old(self).encoder.next_request_id,
                    old(self).encoder.source@,
                )
            },
            final(self).config == old(self).config,
            final(self).state == old(self).state,
            final(self).ledger == old(self).ledger,
            final(self).encoder.source == old(self).encoder.source,
            final(self).close_requested == old(self).close_requested,
    {
        self.encoder.encode(token, action, value_json)
    }

    /// The values that must never reach a log sink in the clear: the
    /// credential snapshot, the server-assigned session identifier once it
    /// is known, and every subscribed account number.
    pub fn redaction_secrets(&self, token: &str, session_id: Option<&str>) -> (r: Vec<String>)
        ensures
            r@.map_values(|s: String| s@) == (match session_id {
                Option::Some(sid) => seq![token@, sid@] + self.ledger@,
                Option::None => seq![token@] + self.ledger@,
            }),
    {
        let mut out: Vec<String> = Vec::new();
        out.push(token.to_owned());
        match session_id {
            Option::Some(sid) => {
                out.push(sid.to_owned());
                let mut ids = self.ledger.snapshot();
                let n = ids.len();
                let mut i: usize = 0;
                while i < n
                    invariant
                        i <= n,
                        n == self.ledger@.len(),
                        ids@.map_values(|s: String| s@) == self.ledger@,
                        out@.len() == 2 + i,
                        out@[0]@ == token@,
                        out@[1]@ == sid@,
                        forall|j: int| 0 <= j < i ==> out@[2 + j]@ == self.ledger@[j],
                    decreases n - i,
                {
                    let id = ids[i].clone();
                    proof {
                        assert(ids@[i as int]@ == self.ledger@[i as int]);
                    }
                    out.push(id);
                    i = i + 1;
                }
                proof {
                    assert(out@.map_values(|s: String| s@) =~= seq![token@, sid@] + self.ledger@);
                }
            },
            Option::None => {
                let mut ids = self.ledger.snapshot();
                let n = ids.len();
                let mut i: usize = 0;
                while i < n
                    invariant
                        i <= n,
                        n == self.ledger@.len(),
                        ids@.map_values(|s: String| s@) == self.ledger@,
                        out@.len() == 1 + i,
                        out@[0]@ == token@,
                        forall|j: int| 0 <= j < i ==> out@[1 + j]@ == self.ledger@[j],
                    decreases n - i,
                {
                    let id = ids[i].clone();
                    proof {
                        assert(ids@[i as int]@ == self.ledger@[i as int]);
                    }
                    out.push(id);
                    i = i + 1;
                }
                proof {
                    assert(out@.map_values(|s: String| s@) =~= seq![token@] + self.ledger@);
                }
            },
        }
        out
    }
}

} // verus!
