//! The action encoder: turns a control action plus an opaque, pre-serialized
//! payload into the framed outbound message that goes on the wire, carrying
//! the credential snapshot and a monotonically increasing correlation id.
//!
//! The envelope is built character by character against an exact
//! specification of the wire text, including JSON string escaping.

use crate::streaming::messages::{spec_action_wire, SubRequestAction};
use crate::streaming::text::push_char;
use vstd::prelude::*;

verus! {

/// The decimal digit character for `d` (0 through 9).
pub open spec fn spec_dec_digit(d: int) -> char {
    if d == 0 {
        '0'
    } else if d == 1 {
        '1'
    } else if d == 2 {
        '2'
    } else if d == 3 {
        '3'
    } else if d == 4 {
        '4'
    } else if d == 5 {
        '5'
    } else if d == 6 {
        '6'
    } else if d == 7 {
        '7'
    } else if d == 8 {
        '8'
    } else {
        '9'
    }
}

/// The usual decimal rendering of a non-negative integer, shortest form.
pub open spec fn spec_dec(n: int) -> Seq<char>
    recommends
        n >= 0,
    decreases n,
{
    if n < 10 {
        seq![spec_dec_digit(n)]
    } else {
        spec_dec(n / 10) + seq![spec_dec_digit(n % 10)]
    }
}

/// The lower-case hexadecimal digit character for `d` (0 through 15).
pub open spec fn spec_hex_digit(d: int) -> char {
    if d < 10 {
        spec_dec_digit(d)
    } else if d == 10 {
        'a'
    } else if d == 11 {
        'b'
    } else if d == 12 {
        'c'
    } else if d == 13 {
        'd'
    } else if d == 14 {
        'e'
    } else {
        'f'
    }
}

/// How one character appears inside a JSON string literal: quotes and
/// backslashes get a backslash escape, the common control characters their
/// short escapes, any other control character a `\u00XX` escape, and
/// everything else stands as itself.
pub open spec fn spec_escaped_char(c: char) -> Seq<char> {
    if c == '"' {
        seq!['\\', '"']
    } else if c == '\\' {
        seq!['\\', '\\']
    } else if c == '\n' {
        seq!['\\', 'n']
    } else if c == '\r' {
        seq!['\\', 'r']
    } else if c == '\t' {
        seq!['\\', 't']
    } else if (c as int) < 0x20 {
        seq!['\\', 'u', '0', '0', spec_hex_digit(c as int / 16), spec_hex_digit(c as int % 16)]
    } else {
        seq![c]
    }
}

/// The body of a JSON string literal holding the characters `s`.
pub open spec fn spec_escape(s: Seq<char>) -> Seq<char>
    decreases s.len(),
{
    if s.len() == 0 {
        Seq::empty()
    } else {
        spec_escape(s.drop_last()) + spec_escaped_char(s.last())
    }
}

/// A complete JSON string literal holding the characters `s`, quotes
/// included.
pub open spec fn spec_json_string(s: Seq<char>) -> Seq<char> {
    seq!['"'] + spec_escape(s) + seq!['"']
}

/// The decimal digit character for `d` (0 through 9).
fn dec_digit(d: u64) -> (r: char)
    requires
        d < 10,
    ensures
        r == spec_dec_digit(d as int),
{
    if d == 0 {
        '0'
    } else if d == 1 {
        '1'
    } else if d == 2 {
        '2'
    } else if d == 3 {
        '3'
    } else if d == 4 {
        '4'
    } else if d == 5 {
        '5'
    } else if d == 6 {
        '6'
    } else if d == 7 {
        '7'
    } else if d == 8 {
        '8'
    } else {
        '9'
    }
}

/// The lower-case hexadecimal digit character for `d` (0 through 15).
fn hex_digit(d: u32) -> (r: char)
    requires
        d < 16,
    ensures
        r == spec_hex_digit(d as int),
{
    if d < 10 {
        dec_digit(d as u64)
    } else if d == 10 {
        'a'
    } else if d == 11 {
        'b'
    } else if d == 12 {
        'c'
    } else if d == 13 {
        'd'
    } else if d == 14 {
        'e'
    } else {
        'f'
    }
}

/// Appends the decimal rendering of `n` to `out`.
pub(crate) fn push_dec(out: &mut String, n: u64)
    ensures
        final(out)@ == old(out)@ + spec_dec(n as int),
    decreases n,
{
    if n < 10 {
        push_char(out, dec_digit(n));
        assert(final(out)@ =~= old(out)@ + spec_dec(n as int));
    } else {
        push_dec(out, n / 10);
        push_char(out, dec_digit(n % 10));
        assert(final(out)@ =~= old(out)@ + spec_dec(n as int));
    }
}

/// Renders `n` in decimal.
pub fn u64_to_dec(n: u64) -> (r: String)
    ensures
        r@ == spec_dec(n as int),
{
    let mut out = String::new();
    push_dec(&mut out, n);
    assert(out@ =~= spec_dec(n as int));
    out
}

/// Appends the escaped form of one character to `out`.
fn push_escaped_char(out: &mut String, c: char)
    ensures
        final(out)@ == old(out)@ + spec_escaped_char(c),
{
    if c == '"' {
        push_char(out, '\\');
        push_char(out, '"');
        assert(final(out)@ =~= old(out)@ + spec_escaped_char(c));
    } else if c == '\\' {
        push_char(out, '\\');
        push_char(out, '\\');
        assert(final(out)@ =~= old(out)@ + spec_escaped_char(c));
    } else if c == '\n' {
        push_char(out, '\\');
        push_char(out, 'n');
        assert(final(out)@ =~= old(out)@ + spec_escaped_char(c));
    } else if c == '\r' {
        push_char(out, '\\');
        push_char(out, 'r');
        assert(final(out)@ =~= old(out)@ + spec_escaped_char(c));
    } else if c == '\t' {
        push_char(out, '\\');
        push_char(out, 't');
        assert(final(out)@ =~= old(out)@ + spec_escaped_char(c));
    } else if (c as u32) < 0x20 {
        let v = c as u32;
        push_char(out, '\\');
        push_char(out, 'u');
        push_char(out, '0');
        push_char(out, '0');
        push_char(out, hex_digit(v / 16));
        push_char(out, hex_digit(v % 16));
        assert(final(out)@ =~= old(out)@ + spec_escaped_char(c));
    } else {
        push_char(out, c);
        assert(final(out)@ =~= old(out)@ + spec_escaped_char(c));
    }
}

/// Appends the escaped body of a JSON string literal holding `s` to `out`.
fn push_escaped(out: &mut String, s: &str)
    ensures
        final(out)@ == old(out)@ + spec_escape(s@),
{
    let n = s.unicode_len();
    let mut i: usize = 0;
    while i < n
        invariant
            i <= n,
            n == s@.len(),
            out@ == old(out)@ + spec_escape(s@.take(i as int)),
        decreases n - i,
    {
        let c = s.get_char(i);
        push_escaped_char(out, c);
        proof {
            assert(s@.take(i + 1 as int).drop_last() =~= s@.take(i as int));
            assert(s@.take(i + 1 as int).last() == s@[i as int]);
        }
        i = i + 1;
    }
    proof {
        assert(s@.take(n as int) =~= s@);
    }
}

/// Appends a complete JSON string literal holding `s` to `out`.
pub(crate) fn push_json_string(out: &mut String, s: &str)
    ensures
        final(out)@ == old(out)@ + spec_json_string(s@),
{
    push_char(out, '"');
    push_escaped(out, s);
    push_char(out, '"');
    assert(final(out)@ =~= old(out)@ + spec_json_string(s@));
}

/// Escapes `s` as the body of a JSON string literal.
pub fn json_escape(s: &str) -> (r: String)
    ensures
        r@ == spec_escape(s@),
{
    let mut out = String::new();
    push_escaped(&mut out, s);
    assert(out@ =~= spec_escape(s@));
    out
}

/// The JSON array of string literals holding the given items, in order.
pub open spec fn spec_json_string_array(items: Seq<Seq<char>>) -> Seq<char> {
    seq!['['] + spec_json_string_array_items(items) + seq![']']
}

/// The comma-separated items of a JSON array of string literals.
pub open spec fn spec_json_string_array_items(items: Seq<Seq<char>>) -> Seq<char>
    decreases items.len(),
{
    if items.len() == 0 {
        Seq::empty()
    } else if items.len() == 1 {
        spec_json_string(items[0])
    } else {
        spec_json_string_array_items(items.drop_last()) + seq![','] + spec_json_string(
            items.last(),
        )
    }
}

/// Renders a list of account identifiers as a JSON array of strings — the
/// payload of a `connect` action.
pub fn encode_string_array(items: &Vec<String>) -> (r: String)
    ensures
        r@ == spec_json_string_array(items@.map_values(|s: String| s@)),
{
    let ghost views = items@.map_values(|s: String| s@);
    let mut out = String::new();
    push_char(&mut out, '[');
    let n = items.len();
    let mut i: usize = 0;
    while i < n
        invariant
            i <= n,
            n == items@.len(),
            views == items@.map_values(|s: String| s@),
            out@ == seq!['['] + spec_json_string_array_items(views.take(i as int)),
        decreases n - i,
    {
        if i > 0 {
            push_char(&mut out, ',');
        }
        push_json_string(&mut out, items[i].as_str());
        proof {
            assert(views.take(i + 1 as int).drop_last() =~= views.take(i as int));
            assert(views.take(i + 1 as int).last() == views[i as int]);
            assert(out@ =~= seq!['['] + spec_json_string_array_items(views.take(i + 1 as int)));
        }
        i = i + 1;
    }
    push_char(&mut out, ']');
    proof {
        assert(views.take(n as int) =~= views);
        assert(out@ =~= spec_json_string_array(views));
    }
    out
}

/// The view of an optional payload string.
pub open spec fn spec_opt_view(v: Option<&str>) -> Option<Seq<char>> {
    match v {
        Option::Some(s) => Option::Some(s@),
        Option::None => Option::None,
    }
}

/// The complete outbound wire envelope:
/// `{"auth-token":T,"action":A[,"value":V],"request-id":N,"source":S}`,
/// with `value` omitted when there is no payload and the payload text
/// inserted verbatim (it is already JSON).
pub open spec fn spec_envelope(
    token: Seq<char>,
    action: SubRequestAction,
    value: Option<Seq<char>>,
    request_id: u64,
    source: Seq<char>,
) -> Seq<char> {
    "{\"auth-token\":"@ + spec_json_string(token) + ",\"action\":"@ + spec_json_string(
        spec_action_wire(action),
    ) + (match value {
        Option::Some(v) => ",\"value\":"@ + v,
        Option::None => Seq::empty(),
    }) + ",\"request-id\":"@ + spec_dec(request_id as int) + ",\"source\":"@ + spec_json_string(
        source,
    ) + "}"@
}

/// Builds the outbound wire envelope for one control action.  The payload,
/// when present, must already be serialized JSON text; it is inserted
/// verbatim and not validated.
pub fn encode_envelope(
    token: &str,
    action: SubRequestAction,
    value: Option<&str>,
    request_id: u64,
    source: &str,
) -> (r: String)
    ensures
        r@ == spec_envelope(token@, action, spec_opt_view(value), request_id, source@),
{
    let mut out = String::new();
    out.append("{\"auth-token\":");
    push_json_string(&mut out, token);
    out.append(",\"action\":");
    push_json_string(&mut out, action.as_wire_str());
    match value {
        Option::Some(v) => {
            out.append(",\"value\":");
            out.append(v);
        },
        Option::None => {},
    }
    out.append(",\"request-id\":");
    push_dec(&mut out, request_id);
    out.append(",\"source\":");
    push_json_string(&mut out, source);
    out.append("}");
    proof {
        assert(out@ =~= spec_envelope(token@, action, spec_opt_view(value), request_id, source@));
    }
    out
}

/// The action encoder: owns the per-handle correlation-id counter and the
/// `source` tag.  Ids start at 1 and increase by one for every encoded
/// action other than a heartbeat; heartbeats always carry id 0.
pub struct ActionEncoder {
    pub source: String,
    pub next_request_id: u64,
}

impl ActionEncoder {
    /// A fresh encoder whose first caller-assigned correlation id will be 1.
    pub fn new(source: String) -> (r: ActionEncoder)
        ensures
            r.source == source,
            r.next_request_id == 1,
    {
        ActionEncoder { source, next_request_id: 1 }
    }

    /// Encodes one action into its wire envelope.  A heartbeat carries
    /// correlation id 0 and leaves the counter alone; every other action
    /// consumes the next id.
    pub fn encode(&mut self, token: &str, action: SubRequestAction, value: Option<&str>) -> (r:
        String)
        requires
            action is Heartbeat || old(self).next_request_id < u64::MAX,
        ensures
            final(self).source == old(self).source,
            action is Heartbeat ==> {
                &&& final(self).next_request_id == old(self).next_request_id
                &&& r@ == spec_envelope(
                    token@,
                    action,
                    spec_opt_view(value),
                    0,
                    old(self).source@,
                )
            },
            !(action is Heartbeat) ==> {
                &&& final(self).next_request_id == old(self).next_request_id + 1
                &&& r@ == spec_envelope(
                    token@,
                    action,
                    spec_opt_view(value),
                    old(self).next_request_id,
                    old(self).source@,
                )
            },
    {
        let id: u64 = if action.uses_request_id() {
            let id = self.next_request_id;
            self.next_request_id = self.next_request_id + 1;
            id
        } else {
            0
        };
        encode_envelope(token, action, value, id, self.source.as_str())
    }
}

} // verus!
