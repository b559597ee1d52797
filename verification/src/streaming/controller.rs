//! The session controller: the state machine that owns the retry loop.
//!
//! The controller is a pure transition function from a state and an input to
//! a next state, the lifecycle events to publish, and one command for the
//! runtime to carry out.  The runtime performs the command (dialing,
//! sleeping, halting) and feeds the outcome back in as the next input; it
//! makes no retry decision of its own.

use crate::streaming::backoff::{backoff_delay_ms, spec_backoff_delay_ms};
use crate::streaming::messages::LifecycleEvent;
use vstd::prelude::*;

verus! {

/// Caller-overridable retry configuration.
#[derive(Clone, Copy, Debug, PartialEq, Eq, Structural)]
pub struct SessionConfig {
    /// Whether to redial automatically after a failure.
    pub auto_reconnect: bool,
    /// Ceiling on reconnect attempts; 0 means unlimited.
    pub max_reconnect_attempts: u64,
    /// Backoff delay before the first reconnect attempt, in milliseconds.
    pub initial_backoff_ms: u64,
    /// Ceiling on the backoff delay, in milliseconds.
    pub max_backoff_ms: u64,
}

impl SessionConfig {
    /// The default configuration: auto-reconnect on, at most 10 attempts,
    /// backoff growing from 1s up to 30s.
    pub fn new() -> (r: SessionConfig)
        ensures
            r.auto_reconnect == true,
            r.max_reconnect_attempts == 10,
            r.initial_backoff_ms == 1000,
            r.max_backoff_ms == 30000,
    {
        SessionConfig {
            auto_reconnect: true,
            max_reconnect_attempts: 10,
            initial_backoff_ms: 1000,
            max_backoff_ms: 30000,
        }
    }
}

impl Default for SessionConfig {
    fn default() -> (r: SessionConfig)
        ensures
            r.auto_reconnect == true,
            r.max_reconnect_attempts == 10,
            r.initial_backoff_ms == 1000,
            r.max_backoff_ms == 30000,
    {
        SessionConfig::new()
    }
}

/// The controller's state.  The `attempt` counter records how many reconnect
/// attempts have been made so far (0 while on the initial dial); it is never
/// reset for the life of the controller, by design, so that a flapping
/// endpoint is not redialed in a tight loop.  Note the consequence: a
/// connection that stayed live for hours and then dropped once counts the
/// same as one that flapped the whole time.  That is deliberately
/// conservative; a caller who wants long-lived sessions to start over
/// should build a fresh session (or raise the budget) instead.
#[derive(Clone, Copy, Debug, PartialEq, Eq, Structural)]
pub enum SessionState {
    Idle,
    Dialing { attempt: u64 },
    Live { attempt: u64 },
    Backoff { next_attempt: u64 },
    Closed,
}

/// What the runtime reports back to the controller.
#[derive(Clone, Debug)]
pub enum SessionInput {
    /// The caller started the session.
    Start,
    /// A dial attempt produced a live connection.
    DialOk,
    /// A dial attempt failed.
    DialErr { reason: String },
    /// A live connection ended, however it ended.
    ConnLost { reason: String },
    /// The backoff delay has elapsed.
    BackoffDone,
    /// The caller requested a graceful shutdown.
    CloseReq,
}

/// What the runtime must do next.
#[derive(Clone, Copy, Debug, PartialEq, Eq, Structural)]
pub enum SessionCommand {
    /// Take a fresh credential snapshot and dial the endpoint.
    Dial,
    /// Sleep for the given backoff delay, then report `BackoffDone`.
    Sleep { delay_ms: u64 },
    /// Replay the subscription ledger on the new connection, then supervise
    /// it.
    Resubscribe,
    /// Nothing to do; keep waiting for the next input.
    Wait,
    /// The session is over; stop all work.
    Halt,
}

/// One controller step: the next state, the lifecycle events to publish (in
/// order), and the command for the runtime.
#[derive(Clone, Debug)]
pub struct StepResult {
    pub state: SessionState,
    pub events: Vec<LifecycleEvent>,
    pub command: SessionCommand,
}

/// The reconnect attempt that follows `attempt` attempts (saturating, so the
/// counter cannot wrap on an unlimited budget).
pub open spec fn spec_next_attempt(attempt: u64) -> u64 {
    if attempt < u64::MAX {
        (attempt + 1) as u64
    } else {
        u64::MAX
    }
}

/// What a correct step must produce for a connection failure (a failed dial
/// or a lost live connection are treated identically) observed after
/// `attempt` reconnect attempts.
pub open spec fn spec_failure_step(
    cfg: SessionConfig,
    attempt: u64,
    reason: String,
    r: StepResult,
) -> bool {
    let k = spec_next_attempt(attempt);
    &&& r.events@.len() == 2
    &&& (r.events@[0] matches LifecycleEvent::Disconnected { reason: why } && why == reason)
    &&& if !cfg.auto_reconnect {
        &&& r.state is Closed
        &&& r.command is Halt
        &&& (r.events@[1] matches LifecycleEvent::Closed { reason: why } && why@
            == "disconnected and auto-reconnect is off"@)
    } else if cfg.max_reconnect_attempts != 0 && k > cfg.max_reconnect_attempts {
        &&& r.state is Closed
        &&& r.command is Halt
        &&& (r.events@[1] matches LifecycleEvent::Closed { reason: why } && why@
            == "reconnect attempts exhausted"@)
    } else {
        &&& r.state matches SessionState::Backoff { next_attempt } && next_attempt == k
        &&& (r.command matches SessionCommand::Sleep { delay_ms } && delay_ms
            == spec_backoff_delay_ms(cfg.initial_backoff_ms, cfg.max_backoff_ms, k))
        &&& (r.events@[1] matches LifecycleEvent::Reconnecting { attempt, max_attempts }
            && attempt == k && max_attempts == cfg.max_reconnect_attempts)
    }
}

/// The full transition relation of the controller: what a correct step from
/// state `s` on input `i` must produce.
pub open spec fn spec_step(
    cfg: SessionConfig,
    s: SessionState,
    i: SessionInput,
    r: StepResult,
) -> bool {
    if i is CloseReq {
        &&& r.state is Closed
        &&& r.command is Halt
        &&& if s is Closed {
            r.events@.len() == 0
        } else {
            &&& r.events@.len() == 1
            &&& (r.events@[0] matches LifecycleEvent::Closed { reason: why } && why@
                == "shutdown requested"@)
        }
    } else if s is Closed {
        &&& r.state is Closed
        &&& r.command is Halt
        &&& r.events@.len() == 0
    } else {
        match (s, i) {
            (SessionState::Idle, SessionInput::Start) => {
                &&& r.state == (SessionState::Dialing { attempt: 0 })
                &&& r.events@.len() == 0
                &&& r.command is Dial
            },
            (SessionState::Dialing { attempt }, SessionInput::DialOk) => {
                &&& r.state == (SessionState::Live { attempt })
                &&& r.events@.len() == 1
                &&& if attempt == 0 {
                    r.events@[0] is Connected
                } else {
                    r.events@[0] is Reconnected
                }
                &&& r.command is Resubscribe
            },
            (SessionState::Dialing { attempt }, SessionInput::DialErr { reason }) => {
                spec_failure_step(cfg, attempt, reason, r)
            },
            (SessionState::Live { attempt }, SessionInput::ConnLost { reason }) => {
                spec_failure_step(cfg, attempt, reason, r)
            },
            (SessionState::Backoff { next_attempt }, SessionInput::BackoffDone) => {
                &&& r.state == (SessionState::Dialing { attempt: next_attempt })
                &&& r.events@.len() == 0
                &&& r.command is Dial
            },
            _ => {
                // An input that cannot arise in this state changes nothing.
                &&& r.state == s
                &&& r.events@.len() == 0
                &&& r.command is Wait
            },
        }
    }
}

/// Handles a connection failure after `attempt` reconnect attempts: decides
/// between giving up and backing off for the next redial.
fn failure_step(cfg: &SessionConfig, attempt: u64, reason: String) -> (r: StepResult)
    ensures
        spec_failure_step(*cfg, attempt, reason, r),
{
    let k: u64 = if attempt < u64::MAX {
        attempt + 1
    } else {
        u64::MAX
    };
    let mut events: Vec<LifecycleEvent> = Vec::new();
    events.push(LifecycleEvent::Disconnected { reason });
    if !cfg.auto_reconnect {
        events.push(
            LifecycleEvent::Closed { reason: "disconnected and auto-reconnect is off".to_owned() },
        );
        StepResult { state: SessionState::Closed, events, command: SessionCommand::Halt }
    } else if cfg.max_reconnect_attempts != 0 && k > cfg.max_reconnect_attempts {
        events.push(LifecycleEvent::Closed { reason: "reconnect attempts exhausted".to_owned() });
        StepResult { state: SessionState::Closed, events, command: SessionCommand::Halt }
    } else {
        events.push(
            LifecycleEvent::Reconnecting { attempt: k, max_attempts: cfg.max_reconnect_attempts },
        );
        let delay_ms = backoff_delay_ms(cfg.initial_backoff_ms, cfg.max_backoff_ms, k);
        StepResult {
            state: SessionState::Backoff { next_attempt: k },
            events,
            command: SessionCommand::Sleep { delay_ms },
        }
    }
}

/// One step of the session controller.  This is the only place that decides
/// how the session reacts to an input; the runtime must carry out the
/// returned command and publish the returned events in order.
pub fn session_step(cfg: &SessionConfig, s: &SessionState, i: SessionInput) -> (r: StepResult)
    ensures
        spec_step(*cfg, *s, i, r),
{
    match i {
        SessionInput::CloseReq => {
            let mut events: Vec<LifecycleEvent> = Vec::new();
            if !matches!(s, SessionState::Closed) {
                events.push(LifecycleEvent::Closed { reason: "shutdown requested".to_owned() });
            }
            StepResult { state: SessionState::Closed, events, command: SessionCommand::Halt }
        },
        _ => {
            match (s, i) {
                (SessionState::Closed, _) => {
                    StepResult {
                        state: SessionState::Closed,
                        events: Vec::new(),
                        command: SessionCommand::Halt,
                    }
                },
                (SessionState::Idle, SessionInput::Start) => {
                    StepResult {
                        state: SessionState::Dialing { attempt: 0 },
                        events: Vec::new(),
                        command: SessionCommand::Dial,
                    }
                },
                (SessionState::Dialing { attempt }, SessionInput::DialOk) => {
                    let mut events: Vec<LifecycleEvent> = Vec::new();
                    if *attempt == 0 {
                        events.push(LifecycleEvent::Connected);
                    } else {
                        events.push(LifecycleEvent::Reconnected);
                    }
                    StepResult {
                        state: SessionState::Live { attempt: *attempt },
                        events,
                        command: SessionCommand::Resubscribe,
                    }
                },
                (SessionState::Dialing { attempt }, SessionInput::DialErr { reason }) => {
                    failure_step(cfg, *attempt, reason)
                },
                (SessionState::Live { attempt }, SessionInput::ConnLost { reason }) => {
                    failure_step(cfg, *attempt, reason)
                },
                (SessionState::Backoff { next_attempt }, SessionInput::BackoffDone) => {
                    StepResult {
                        state: SessionState::Dialing { attempt: *next_attempt },
                        events: Vec::new(),
                        command: SessionCommand::Dial,
                    }
                },
                (other, _) => {
                    StepResult { state: *other, events: Vec::new(), command: SessionCommand::Wait }
                },
            }
        },
    }
}

/// Law: a shutdown request always yields the terminal `Closed` state and a
/// `closed` lifecycle event (unless the session was already closed), and
/// halts the runtime — whatever state the session was in, mid-backoff
/// included.
pub proof fn lemma_close_request_terminates(
    cfg: SessionConfig,
    s: SessionState,
    i: SessionInput,
    r: StepResult,
)
    requires
        spec_step(cfg, s, i, r),
        i is CloseReq,
    ensures
        r.state is Closed,
        r.command is Halt,
        !(s is Closed) ==> r.events@.len() == 1 && r.events@[0] is Closed,
        s is Closed ==> r.events@.len() == 0,
{
}

/// Law: `Closed` is terminal — no input can leave it, emit another event,
/// or make the runtime dial again.
pub proof fn lemma_closed_is_terminal(
    cfg: SessionConfig,
    s: SessionState,
    i: SessionInput,
    r: StepResult,
)
    requires
        spec_step(cfg, s, i, r),
        s is Closed,
    ensures
        r.state is Closed,
        r.command is Halt,
        r.events@.len() == 0,
{
}

/// The attempt counter a state carries, for stating the budget invariant.
pub open spec fn spec_state_attempt(s: SessionState) -> u64 {
    match s {
        SessionState::Idle => 0,
        SessionState::Dialing { attempt } => attempt,
        SessionState::Live { attempt } => attempt,
        SessionState::Backoff { next_attempt } => next_attempt,
        SessionState::Closed => 0,
    }
}

/// The budget invariant: with a finite budget, no reachable state carries an
/// attempt counter beyond `max_reconnect_attempts`.
pub open spec fn spec_within_budget(cfg: SessionConfig, s: SessionState) -> bool {
    cfg.max_reconnect_attempts != 0 ==> spec_state_attempt(s) <= cfg.max_reconnect_attempts
}

/// Law: the controller never exceeds its retry budget — stepping from any
/// state within the budget stays within the budget, so with a budget of N
/// there is never an (N+1)-th reconnect attempt.
pub proof fn lemma_budget_never_exceeded(
    cfg: SessionConfig,
    s: SessionState,
    i: SessionInput,
    r: StepResult,
)
    requires
        spec_step(cfg, s, i, r),
        spec_within_budget(cfg, s),
    ensures
        spec_within_budget(cfg, r.state),
{
}

} // verus!
