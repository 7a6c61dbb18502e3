//! Routing of decoded frames: a tag with bit 31 set is an event of the kind
//! its other bits name, any other tag is the reply to the command it names.
//! Also the payload of a subscription request.
use vstd::prelude::*;
use vstd::utf8::encode_utf8;
use crate::error::ProtocolError;
use crate::event::{Subscribe, EVENT_BIT, EVENT_MASK, event_kind, event_kind_of_tag, subscribe_name};
use crate::frame::{frame_bytes, encode_msg_body};
use crate::msg::{Msg, MSG_COUNT, msg_code, msg_of_code};
use crate::wire::ByteOrder;

verus! {

/// Where a frame goes: to event decoding for a kind, or to reply decoding
/// for a command.
#[derive(Clone, Copy, Debug, PartialEq, Eq, Structural)]
pub enum Route {
    Event(Subscribe),
    Reply(Msg),
}

/// Whether a tag marks an event frame.
pub open spec fn is_event_tag(tag: u32) -> bool {
    tag >= EVENT_BIT
}

/// Where a tag routes a frame to, or the error for a tag that names
/// nothing.
pub open spec fn route_of(tag: u32) -> Result<Route, ProtocolError> {
    if is_event_tag(tag) {
        match event_kind_of_tag(tag) {
            Some(s) => Ok(Route::Event(s)),
            None => Err(ProtocolError::UnknownEventKind(tag & EVENT_MASK)),
        }
    } else {
        match msg_of_code(tag) {
            Some(m) => Ok(Route::Reply(m)),
            None => Err(ProtocolError::UnknownCommand(tag)),
        }
    }
}

/// The command whose code is the tag, or `UnknownCommand`.
pub fn reply_msg(tag: u32) -> (r: Result<Msg, ProtocolError>)
    ensures
        r is Ok <==> tag < MSG_COUNT,
        r matches Ok(m) ==> msg_of_code(tag) == Some(m) && msg_code(m) == tag,
        r matches Err(e) ==> e == ProtocolError::UnknownCommand(tag),
{
    match Msg::from_code(tag) {
        Some(m) => Ok(m),
        None => Err(ProtocolError::UnknownCommand(tag)),
    }
}

/// Routes a tag by its shape: bit 31 set means an event, whose kind the
/// other bits name; clear means the reply to the command with that code.
pub fn route(tag: u32) -> (r: Result<Route, ProtocolError>)
    ensures
        r == route_of(tag),
{
    if tag >= EVENT_BIT {
        match event_kind(tag) {
            Ok(s) => Ok(Route::Event(s)),
            Err(e) => Err(e),
        }
    } else {
        match reply_msg(tag) {
            Ok(m) => Ok(Route::Reply(m)),
            Err(e) => Err(e),
        }
    }
}

/// A reply with the command it answers, as its tag names it.
#[derive(Debug)]
pub struct MsgResponse<D> {
    pub msg_type: Msg,
    pub body: D,
}

impl<D> MsgResponse<D> {
    /// Pairs a decoded reply body with the command its tag names; fails
    /// with `UnknownCommand` where the tag names none.
    pub fn new(msg_type: u32, body: D) -> (r: Result<MsgResponse<D>, ProtocolError>)
        ensures
            r is Ok <==> msg_type < MSG_COUNT,
            r matches Ok(resp) ==> msg_code(resp.msg_type) == msg_type && resp.body == body,
            r matches Err(e) ==> e == ProtocolError::UnknownCommand(msg_type),
    {
        match reply_msg(msg_type) {
            Ok(m) => Ok(MsgResponse { msg_type: m, body }),
            Err(e) => Err(e),
        }
    }
}

#[verifier::external_type_specification]
#[verifier::external_body]
pub struct ExJsonError(serde_json::Error);

/// The lowercase hexadecimal digit for `n`, below 16.
pub open spec fn hex_digit(n: u32) -> char {
    seq!['0', '1', '2', '3', '4', '5', '6', '7', '8', '9', 'a', 'b', 'c', 'd', 'e', 'f'][n as int]
}

/// How a character stands inside a JSON string literal: the quote, the
/// backslash and the control characters below U+0020 are escaped, the
/// others stand as they are.
pub open spec fn json_escaped_char(c: char) -> Seq<char> {
    if c == '"' {
        seq!['\\', '"']
    } else if c == '\\' {
        seq!['\\', '\\']
    } else if c == '\u{8}' {
        seq!['\\', 'b']
    } else if c == '\t' {
        seq!['\\', 't']
    } else if c == '\n' {
        seq!['\\', 'n']
    } else if c == '\u{c}' {
        seq!['\\', 'f']
    } else if c == '\r' {
        seq!['\\', 'r']
    } else if (c as u32) < 0x20 {
        seq!['\\', 'u', '0', '0', hex_digit((c as u32) / 16), hex_digit((c as u32) % 16)]
    } else {
        seq![c]
    }
}

/// The JSON string literal for `s`.
pub open spec fn json_string(s: Seq<char>) -> Seq<char> {
    seq!['"'] + s.map_values(|c: char| json_escaped_char(c)).flatten() + seq!['"']
}

/// The JSON string literals of the items, separated by commas.
pub open spec fn json_items(items: Seq<Seq<char>>) -> Seq<char>
    decreases items.len(),
{
    if items.len() == 0 {
        Seq::empty()
    } else if items.len() == 1 {
        json_string(items[0])
    } else {
        json_items(items.drop_last()) + seq![','] + json_string(items.last())
    }
}

/// The compact JSON text of an array of strings.
pub open spec fn json_string_array(items: Seq<Seq<char>>) -> Seq<char> {
    seq!['['] + json_items(items) + seq![']']
}

/// Relies on serde_json::to_string: a vector of strings always serialises
/// (only a failing `Serialize` impl or a map with non-string keys fails),
/// as `[`, the string literals separated by `,`, then `]`, each literal
/// escaping `"`, `\` and the control characters below U+0020.
#[verifier::external_body]
fn strings_to_json(items: &Vec<&str>) -> (r: Result<String, serde_json::Error>)
    ensures
        r is Ok,
        r matches Ok(s) ==> s@ == json_string_array(items@.map_values(|x: &str| x@)),
{
    serde_json::to_string(items)
}

/// Whether no character of `s` is escaped in a JSON string literal.
pub open spec fn json_plain(s: Seq<char>) -> bool {
    forall|i: int| 0 <= i < s.len() ==> #[trigger] json_escaped_char(s[i]) == seq![s[i]]
}

proof fn lemma_escapes_of_plain(s: Seq<char>)
    requires
        json_plain(s),
    ensures
        s.map_values(|c: char| json_escaped_char(c)).flatten() == s,
    decreases s.len(),
{
    let m = s.map_values(|c: char| json_escaped_char(c));
    m.lemma_flatten_and_flatten_alt_are_equivalent();
    if s.len() > 0 {
        let t = s.drop_last();
        assert(json_plain(t)) by {
            assert forall|i: int| 0 <= i < t.len() implies #[trigger] json_escaped_char(t[i])
                == seq![t[i]] by {
                assert(t[i] == s[i]);
            }
        }
        lemma_escapes_of_plain(t);
        let mt = t.map_values(|c: char| json_escaped_char(c));
        mt.lemma_flatten_and_flatten_alt_are_equivalent();
        assert(m.drop_last() =~= mt);
        assert(m.last() == json_escaped_char(s[s.len() - 1]));
        assert(m.flatten_alt() == m.drop_last().flatten_alt() + m.last());
        assert(m.flatten() =~= s);
    } else {
        assert(m.flatten() =~= s);
    }
}

/// A string with no character that JSON escapes stands in its literal as
/// it is, between quotes.
pub proof fn lemma_json_string_plain(s: Seq<char>)
    requires
        json_plain(s),
    ensures
        json_string(s) == seq!['"'] + s + seq!['"'],
{
    lemma_escapes_of_plain(s);
}

/// No kind name holds a character that JSON escapes, so each stands in a
/// subscription's payload between quotes as it is.
pub proof fn lemma_subscribe_name_json(k: Subscribe)
    ensures
        json_plain(subscribe_name(k)),
        json_string(subscribe_name(k)) == seq!['"'] + subscribe_name(k) + seq!['"'],
{
    reveal_strlit("workspace");
    reveal_strlit("output");
    reveal_strlit("mode");
    reveal_strlit("window");
    reveal_strlit("barconfig_update");
    reveal_strlit("binding");
    reveal_strlit("shutdown");
    reveal_strlit("tick");
    let n = subscribe_name(k);
    assert forall|i: int| 0 <= i < n.len() implies #[trigger] json_escaped_char(n[i]) == seq![n[i]] by {
        assert(n[i] == '_' || ('a' <= n[i] && n[i] <= 'z'));
    }
    lemma_json_string_plain(n);
}

/// The names of the given kinds.
pub open spec fn subscribe_names(kinds: Seq<Subscribe>) -> Seq<Seq<char>> {
    kinds.map_values(|k: Subscribe| subscribe_name(k))
}

/// The payload of a subscription: the JSON array of the kinds' names.
pub fn subscribe_payload(kinds: &[Subscribe]) -> (r: Result<String, ProtocolError>)
    ensures
        r matches Ok(s) && s@ == json_string_array(subscribe_names(kinds@)),
{
    let mut names: Vec<&str> = Vec::new();
    let mut i: usize = 0;
    while i < kinds.len()
        invariant
            i <= kinds@.len(),
            names@.len() == i,
            forall|j: int| 0 <= j < i ==> (#[trigger] names@[j])@ == subscribe_name(kinds@[j]),
        decreases kinds@.len() - i,
    {
        names.push(kinds[i].name());
        i = i + 1;
    }
    assert(names@.map_values(|x: &str| x@) =~= subscribe_names(kinds@));
    match strings_to_json(&names) {
        Ok(s) => Ok(s),
        Err(_) => Err(ProtocolError::MalformedPayload),
    }
}

/// The subscription request frame for the given kinds: tag `Subscribe`,
/// payload the JSON array of their names. It fails with `MalformedPayload`
/// exactly where the payload is too long for a frame.
pub fn subscribe_frame(order: ByteOrder, kinds: &[Subscribe]) -> (r: Result<Vec<u8>, ProtocolError>)
    ensures
        r is Ok <==> encode_utf8(json_string_array(subscribe_names(kinds@))).len() <= u32::MAX,
        r matches Ok(f) ==> f@ == frame_bytes(
            order,
            msg_code(Msg::Subscribe),
            encode_utf8(json_string_array(subscribe_names(kinds@))),
        ),
        r matches Err(e) ==> e == ProtocolError::MalformedPayload,
{
    let payload = subscribe_payload(kinds)?;
    let text = payload.as_str();
    let n = text.as_bytes().len();
    if n > u32::MAX as usize {
        return Err(ProtocolError::MalformedPayload);
    }
    Ok(encode_msg_body(order, Msg::Subscribe, text))
}

} // verus!
