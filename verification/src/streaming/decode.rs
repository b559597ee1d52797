//! The event decoder: classifies one raw inbound frame into one of the four
//! mutually exclusive message shapes by structural inspection.
//!
//! Three of the four shapes share their fields and carry no type tag, so
//! decoding tries them in a fixed precedence order — error, then heartbeat
//! acknowledgement, then status acknowledgement, then the tagged account
//! event — and accepts the first that matches.  Each untagged shape demands
//! the absence of the other shapes' discriminating fields, so a frame that
//! mixes them (say, an error-shaped `message` next to a `request-id`) is
//! rejected rather than silently merged into one shape.
//!
//! Parsing the JSON text itself is delegated to `serde_json` behind the
//! trusted items below; everything from the parsed fields to the decoded
//! event is verified.

use crate::streaming::messages::{
    AccountEvent, AccountMessage, ErrorMessage, HeartbeatMessage, StatusMessage,
};
use crate::streaming::text::str_eq;
use vstd::prelude::*;

verus! {

#[verifier::external_type_specification]
#[verifier::external_body]
pub struct ExValue(serde_json::Value);

/// The spec-level shape of one top-level field of a parsed frame: a JSON
/// string (by its decoded characters), a number representable as `u64`, or
/// anything else (by its compact JSON rendering).
pub ghost enum JsonFieldView {
    Text(Seq<char>),
    Unsigned(u64),
    Other(Seq<char>),
}

/// What a parsed frame object holds, keyed by field name.
pub uninterp spec fn obj_fields(v: serde_json::Value) -> Map<Seq<char>, JsonFieldView>;

/// What parsing a frame text yields: the top-level object's fields, or
/// nothing when the text is not a JSON object.
pub uninterp spec fn spec_frame_obj(s: Seq<char>) -> Option<Map<Seq<char>, JsonFieldView>>;

/// Relies on `serde_json::from_str::<Value>`: parsing is a deterministic
/// function of the text, and yields a value exactly when the text is a
/// JSON document — here narrowed to one whose top level is an object.
#[verifier::external_body]
fn parse_object(s: &str) -> (r: Option<serde_json::Value>)
    ensures
        match r {
            Option::Some(v) => spec_frame_obj(s@) == Option::Some(obj_fields(v)),
            Option::None => spec_frame_obj(s@) is None,
        },
{
    match serde_json::from_str::<serde_json::Value>(s) {
        Ok(v) if v.is_object() => Some(v),
        _ => None,
    }
}

/// Relies on `serde_json::Value::get`: a key is present in the top-level
/// object exactly when `get` finds it.
#[verifier::external_body]
fn has_field(v: &serde_json::Value, key: &str) -> (r: bool)
    ensures
        r == obj_fields(*v).contains_key(key@),
{
    v.get(key).is_some()
}

/// Relies on `serde_json::Value::get` and `Value::as_str`: `as_str` returns
/// the decoded characters exactly of a field holding a JSON string.
#[verifier::external_body]
fn get_text_field(v: &serde_json::Value, key: &str) -> (r: Option<String>)
    ensures
        match r {
            Option::Some(t) => obj_fields(*v).contains_key(key@) && obj_fields(*v)[key@]
                == JsonFieldView::Text(t@),
            Option::None => !(obj_fields(*v).contains_key(key@) && obj_fields(*v)[key@] is Text),
        },
{
    v.get(key).and_then(|f| f.as_str()).map(|s| s.to_owned())
}

/// Relies on `serde_json::Value::get` and `Value::as_u64`: `as_u64` returns
/// the value exactly of a field holding an unsigned integer that fits u64.
#[verifier::external_body]
fn get_u64_field(v: &serde_json::Value, key: &str) -> (r: Option<u64>)
    ensures
        match r {
            Option::Some(n) => obj_fields(*v).contains_key(key@) && obj_fields(*v)[key@]
                == JsonFieldView::Unsigned(n),
            Option::None => !(obj_fields(*v).contains_key(key@) && obj_fields(*v)[key@]
                is Unsigned),
        },
{
    v.get(key).and_then(|f| f.as_u64())
}

/// Relies on `serde_json::Value::get` and the `Value` `Display` rendering:
/// present exactly when the key is, and equal to the field's compact JSON
/// rendering where the model records one.
#[verifier::external_body]
fn get_raw_field(v: &serde_json::Value, key: &str) -> (r: Option<String>)
    ensures
        r is Some == obj_fields(*v).contains_key(key@),
        match r {
            Option::Some(t) => obj_fields(*v)[key@] matches JsonFieldView::Other(raw) ==> t@
                == raw,
            Option::None => true,
        },
{
    v.get(key).map(|f| f.to_string())
}

/// Whether field `k` holds a JSON string.
pub open spec fn spec_has_text(m: Map<Seq<char>, JsonFieldView>, k: Seq<char>) -> bool {
    m.contains_key(k) && m[k] is Text
}

/// The characters of the JSON string in field `k`.
pub open spec fn spec_text_of(m: Map<Seq<char>, JsonFieldView>, k: Seq<char>) -> Seq<char>
    recommends
        spec_has_text(m, k),
{
    match m[k] {
        JsonFieldView::Text(t) => t,
        _ => Seq::empty(),
    }
}

/// Whether field `k` holds an unsigned integer that fits u64.
pub open spec fn spec_has_u64(m: Map<Seq<char>, JsonFieldView>, k: Seq<char>) -> bool {
    m.contains_key(k) && m[k] is Unsigned
}

/// The integer in field `k`.
pub open spec fn spec_u64_of(m: Map<Seq<char>, JsonFieldView>, k: Seq<char>) -> u64
    recommends
        spec_has_u64(m, k),
{
    match m[k] {
        JsonFieldView::Unsigned(n) => n,
        _ => 0,
    }
}

/// The three fields every untagged acknowledgement shape shares.
pub open spec fn spec_has_core_fields(m: Map<Seq<char>, JsonFieldView>) -> bool {
    &&& spec_has_text(m, "status"@)
    &&& spec_has_text(m, "action"@)
    &&& spec_has_text(m, "web-socket-session-id"@)
}

/// The error-notification shape: the core fields plus a `message`, and none
/// of the other shapes' discriminating fields.
pub open spec fn spec_is_error_shape(m: Map<Seq<char>, JsonFieldView>) -> bool {
    &&& spec_has_core_fields(m)
    &&& spec_has_text(m, "message"@)
    &&& !m.contains_key("request-id"@)
    &&& !m.contains_key("ws-sequence"@)
    &&& !m.contains_key("type"@)
}

/// The heartbeat-acknowledgement shape: the core fields plus the server's
/// own `ws-sequence` counter, and no correlation id — the sequence field is
/// what tells a heartbeat acknowledgement from a status acknowledgement.
pub open spec fn spec_is_heartbeat_shape(m: Map<Seq<char>, JsonFieldView>) -> bool {
    &&& spec_has_core_fields(m)
    &&& spec_has_u64(m, "ws-sequence"@)
    &&& !m.contains_key("request-id"@)
    &&& !m.contains_key("message"@)
    &&& !m.contains_key("type"@)
}

/// The status-acknowledgement shape: the core fields plus a correlation id.
pub open spec fn spec_is_status_shape(m: Map<Seq<char>, JsonFieldView>) -> bool {
    &&& spec_has_core_fields(m)
    &&& spec_has_u64(m, "request-id"@)
    &&& !m.contains_key("message"@)
    &&& !m.contains_key("ws-sequence"@)
    &&& !m.contains_key("type"@)
}

/// What a correct decode of a payload-carrying account-event variant looks
/// like: the `data` field must be present, and where the model records the
/// field's rendering the payload equals it.
pub open spec fn spec_payload_ok(
    m: Map<Seq<char>, JsonFieldView>,
    payload: Seq<char>,
) -> bool {
    m["data"@] matches JsonFieldView::Other(raw) ==> payload == raw
}

/// What a correct classification of the parsed fields `m` must return.
/// The precedence order — error, heartbeat, status, tagged account event —
/// is this function's if-chain.
pub open spec fn spec_classified(m: Map<Seq<char>, JsonFieldView>, r: Option<AccountEvent>) -> bool {
    if spec_is_error_shape(m) {
        r matches Option::Some(AccountEvent::ErrorMessage(e))
            && e.status@ == spec_text_of(m, "status"@)
            && e.action@ == spec_text_of(m, "action"@)
            && e.web_socket_session_id@ == spec_text_of(m, "web-socket-session-id"@)
            && e.message@ == spec_text_of(m, "message"@)
    } else if spec_is_heartbeat_shape(m) {
        r matches Option::Some(AccountEvent::HeartbeatMessage(h))
            && h.status@ == spec_text_of(m, "status"@)
            && h.action@ == spec_text_of(m, "action"@)
            && h.web_socket_session_id@ == spec_text_of(m, "web-socket-session-id"@)
            && h.ws_sequence == spec_u64_of(m, "ws-sequence"@)
    } else if spec_is_status_shape(m) {
        r matches Option::Some(AccountEvent::StatusMessage(st))
            && st.status@ == spec_text_of(m, "status"@)
            && st.action@ == spec_text_of(m, "action"@)
            && st.web_socket_session_id@ == spec_text_of(m, "web-socket-session-id"@)
            && st.request_id == spec_u64_of(m, "request-id"@)
    } else if spec_has_text(m, "type"@) {
        spec_account_classified(m, r)
    } else {
        r is None
    }
}

/// What a correct decode of a tagged account-event frame must return: one
/// of the six type discriminators, the four payload-carrying variants with
/// their `data` present, the two markers with no `data`.
pub open spec fn spec_account_classified(
    m: Map<Seq<char>, JsonFieldView>,
    r: Option<AccountEvent>,
) -> bool {
    let t = spec_text_of(m, "type"@);
    if t == "Order"@ {
        if m.contains_key("data"@) {
            r matches Option::Some(
                AccountEvent::AccountMessage(AccountMessage::Order(p)),
            ) && spec_payload_ok(m, p@)
        } else {
            r is None
        }
    } else if t == "AccountBalance"@ {
        if m.contains_key("data"@) {
            r matches Option::Some(
                AccountEvent::AccountMessage(AccountMessage::AccountBalance(p)),
            ) && spec_payload_ok(m, p@)
        } else {
            r is None
        }
    } else if t == "CurrentPosition"@ {
        if m.contains_key("data"@) {
            r matches Option::Some(
                AccountEvent::AccountMessage(AccountMessage::CurrentPosition(p)),
            ) && spec_payload_ok(m, p@)
        } else {
            r is None
        }
    } else if t == "UnderlyingYearGainSummary"@ {
        if m.contains_key("data"@) {
            r matches Option::Some(
                AccountEvent::AccountMessage(AccountMessage::UnderlyingYearGainSummary(p)),
            ) && spec_payload_ok(m, p@)
        } else {
            r is None
        }
    } else if t == "OrderChain"@ {
        if !m.contains_key("data"@) {
            r == Option::Some(AccountEvent::AccountMessage(AccountMessage::OrderChain))
        } else {
            r is None
        }
    } else if t == "ExternalTransaction"@ {
        if !m.contains_key("data"@) {
            r == Option::Some(AccountEvent::AccountMessage(AccountMessage::ExternalTransaction))
        } else {
            r is None
        }
    } else {
        r is None
    }
}

/// Classifies one parsed frame.  Returns the decoded event, or nothing when
/// the frame matches none of the four shapes.
pub fn classify_frame(v: &serde_json::Value) -> (r: Option<AccountEvent>)
    ensures
        spec_classified(obj_fields(*v), r),
{
    let has_req = has_field(v, "request-id");
    let has_seq = has_field(v, "ws-sequence");
    let has_msg = has_field(v, "message");
    let has_type = has_field(v, "type");
    let status = get_text_field(v, "status");
    let action = get_text_field(v, "action");
    let session = get_text_field(v, "web-socket-session-id");
    match (status, action, session) {
        (Option::Some(status), Option::Some(action), Option::Some(session)) if !has_type => {
            if !has_req && !has_seq {
                if let Option::Some(message) = get_text_field(v, "message") {
                    return Option::Some(
                        AccountEvent::ErrorMessage(
                            ErrorMessage {
                                status,
                                action,
                                web_socket_session_id: session,
                                message,
                            },
                        ),
                    );
                }
            }
            if !has_req && !has_msg {
                if let Option::Some(ws_sequence) = get_u64_field(v, "ws-sequence") {
                    return Option::Some(
                        AccountEvent::HeartbeatMessage(
                            HeartbeatMessage {
                                status,
                                action,
                                web_socket_session_id: session,
                                ws_sequence,
                            },
                        ),
                    );
                }
            }
            if !has_msg && !has_seq {
                if let Option::Some(request_id) = get_u64_field(v, "request-id") {
                    return Option::Some(
                        AccountEvent::StatusMessage(
                            StatusMessage {
                                status,
                                action,
                                web_socket_session_id: session,
                                request_id,
                            },
                        ),
                    );
                }
            }
            Option::None
        },
        _ => {
            if let Option::Some(tag) = get_text_field(v, "type") {
                classify_account_frame(v, tag.as_str())
            } else {
                Option::None
            }
        },
    }
}

/// Classifies a frame already known to carry a `type` tag holding `tag`.
fn classify_account_frame(v: &serde_json::Value, tag: &str) -> (r: Option<AccountEvent>)
    requires
        spec_has_text(obj_fields(*v), "type"@),
        tag@ == spec_text_of(obj_fields(*v), "type"@),
    ensures
        spec_account_classified(obj_fields(*v), r),
{
    let data = get_raw_field(v, "data");
    if str_eq(tag, "Order") {
        match data {
            Option::Some(p) => Option::Some(
                AccountEvent::AccountMessage(AccountMessage::Order(p)),
            ),
            Option::None => Option::None,
        }
    } else if str_eq(tag, "AccountBalance") {
        match data {
            Option::Some(p) => Option::Some(
                AccountEvent::AccountMessage(AccountMessage::AccountBalance(p)),
            ),
            Option::None => Option::None,
        }
    } else if str_eq(tag, "CurrentPosition") {
        match data {
            Option::Some(p) => Option::Some(
                AccountEvent::AccountMessage(AccountMessage::CurrentPosition(p)),
            ),
            Option::None => Option::None,
        }
    } else if str_eq(tag, "UnderlyingYearGainSummary") {
        match data {
            Option::Some(p) => Option::Some(
                AccountEvent::AccountMessage(AccountMessage::UnderlyingYearGainSummary(p)),
            ),
            Option::None => Option::None,
        }
    } else if str_eq(tag, "OrderChain") {
        match data {
            Option::Some(_) => Option::None,
            Option::None => Option::Some(
                AccountEvent::AccountMessage(AccountMessage::OrderChain),
            ),
        }
    } else if str_eq(tag, "ExternalTransaction") {
        match data {
            Option::Some(_) => Option::None,
            Option::None => Option::Some(
                AccountEvent::AccountMessage(AccountMessage::ExternalTransaction),
            ),
        }
    } else {
        Option::None
    }
}

/// What a correct decode of the raw frame text must return.
pub open spec fn spec_decoded(s: Seq<char>, r: Option<AccountEvent>) -> bool {
    match spec_frame_obj(s) {
        Option::Some(m) => spec_classified(m, r),
        Option::None => r is None,
    }
}

/// Decodes one raw inbound frame.  Returns nothing when the frame matches
/// none of the four shapes; a failed decode is non-fatal to the stream and
/// the caller drops the frame (logging it only in redacted form).
pub fn decode_frame(s: &str) -> (r: Option<AccountEvent>)
    ensures
        spec_decoded(s@, r),
{
    match parse_object(s) {
        Option::Some(v) => classify_frame(&v),
        Option::None => Option::None,
    }
}

/// Law (decoder precedence): a frame of one of the four shapes decodes to
/// exactly that shape's variant, and a frame that mixes an error-shaped
/// `message` with a `request-id` — without being a tagged account event —
/// decodes to nothing rather than being merged into either shape.
pub proof fn lemma_decode_precedence(m: Map<Seq<char>, JsonFieldView>, r: Option<AccountEvent>)
    requires
        spec_classified(m, r),
    ensures
        spec_is_error_shape(m) ==> r matches Option::Some(AccountEvent::ErrorMessage(_)),
        spec_is_heartbeat_shape(m) ==> r matches Option::Some(AccountEvent::HeartbeatMessage(_)),
        spec_is_status_shape(m) ==> r matches Option::Some(AccountEvent::StatusMessage(_)),
        m.contains_key("message"@) && m.contains_key("request-id"@) && !m.contains_key("type"@)
            ==> r is None,
{
}

/// Law (heartbeat disambiguation): a frame with a `ws-sequence` field and no
/// `request-id` never decodes as a status acknowledgement, and when it has
/// the heartbeat shape it always decodes as a heartbeat acknowledgement.
pub proof fn lemma_heartbeat_never_status(m: Map<Seq<char>, JsonFieldView>, r: Option<AccountEvent>)
    requires
        spec_classified(m, r),
        m.contains_key("ws-sequence"@),
        !m.contains_key("request-id"@),
    ensures
        !(r matches Option::Some(AccountEvent::StatusMessage(_))),
        spec_is_heartbeat_shape(m) ==> r matches Option::Some(AccountEvent::HeartbeatMessage(_)),
{
}

} // verus!
