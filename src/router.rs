use vstd::prelude::*;

use crate::registry::SessionRegistry;
use crate::text::same_text;
use crate::token::text_view;

verus! {

/// The text of the field `key` of the JSON object that `frame` holds: `None`
/// where `frame` is not a JSON document, is not an object, lacks the field, or
/// the field is not a string.
pub uninterp spec fn json_text_field(frame: Seq<char>, key: Seq<char>) -> Option<Seq<char>>;

/// Relies on `serde_json::from_str` into a `serde_json::Value`, then
/// `Value::get` and `Value::as_str`: the string held by field `key` of the
/// JSON object in `frame`, which depends on the two texts alone.
#[verifier::external_body]
fn text_field(frame: &str, key: &str) -> (r: Option<String>)
    ensures
        text_view(r) == json_text_field(frame@, key@),
{
    let value: serde_json::Value = serde_json::from_str(frame).ok()?;
    value.get(key).and_then(serde_json::Value::as_str).map(String::from)
}

/// The envelope of an inbound text frame: a JSON object with the four string
/// fields `msg_type`, `sender`, `receiver` and `msg`.
pub struct MessageData {
    pub msg_type: String,
    pub sender: String,
    pub receiver: String,
    pub msg: String,
}

/// The four fields of the envelope in `frame`, where it decodes.
pub open spec fn envelope_of(frame: Seq<char>) -> Option<(Seq<char>, Seq<char>, Seq<char>, Seq<char>)> {
    match (
        json_text_field(frame, "msg_type"@),
        json_text_field(frame, "sender"@),
        json_text_field(frame, "receiver"@),
        json_text_field(frame, "msg"@),
    ) {
        (Some(t), Some(s), Some(r), Some(m)) => Some((t, s, r, m)),
        _ => None,
    }
}

/// The message type reserved for liveness signals.
pub open spec fn is_heartbeat(t: Seq<char>) -> bool {
    t == "heartbeat"@
}

/// What an inbound text frame is, decided once when it is decoded.
pub enum Inbound {
    /// A liveness signal: never delivered.
    Heartbeat,
    /// A payload to be relayed, untouched, to the session `receiver`.
    Relay { receiver: String },
    /// A frame that is not a well-formed envelope.
    Undecodable,
}

/// Why a frame was not delivered.
#[derive(Debug, Clone, Copy, PartialEq, Eq, Structural)]
pub enum Dropped {
    Heartbeat,
    UnknownReceiver,
    Undecodable,
}

/// The kind of the frame `frame`: `None` for an undecodable one, `Some(None)`
/// for a heartbeat, `Some(Some(r))` for a relay to `r`.
pub open spec fn kind_of(frame: Seq<char>) -> Option<Option<Seq<char>>> {
    match envelope_of(frame) {
        None => None,
        Some((t, _, r, _)) => if is_heartbeat(t) { Some(None) } else { Some(Some(r)) },
    }
}

impl MessageData {
    /// Decodes the envelope in `frame`.
    pub fn decode(frame: &str) -> (r: Option<MessageData>)
        ensures
            match envelope_of(frame@) {
                None => r is None,
                Some((t, s, v, m)) => r matches Some(d) && d.msg_type@ == t && d.sender@ == s
                    && d.receiver@ == v && d.msg@ == m,
            },
    {
        let msg_type = text_field(frame, "msg_type");
        let sender = text_field(frame, "sender");
        let receiver = text_field(frame, "receiver");
        let msg = text_field(frame, "msg");
        proof {
            reveal_strlit("msg_type");
            reveal_strlit("sender");
            reveal_strlit("receiver");
            reveal_strlit("msg");
        }
        match (msg_type, sender, receiver, msg) {
            (Some(t), Some(s), Some(v), Some(m)) => Some(
                MessageData { msg_type: t, sender: s, receiver: v, msg: m },
            ),
            _ => None,
        }
    }
}

/// Classifies an inbound text frame.
pub fn classify(frame: &str) -> (r: Inbound)
    ensures
        match kind_of(frame@) {
            None => r is Undecodable,
            Some(None) => r is Heartbeat,
            Some(Some(v)) => r matches Inbound::Relay { receiver } && receiver@ == v,
        },
{
    match MessageData::decode(frame) {
        None => Inbound::Undecodable,
        Some(data) => {
            if same_text(data.msg_type.as_str(), "heartbeat") {
                Inbound::Heartbeat
            } else {
                Inbound::Relay { receiver: data.receiver }
            }
        },
    }
}

/// Where the frame `frame` goes with the sessions `sessions`: to the sink of
/// its receiver, or nowhere, for the reason given.
pub open spec fn route_of<S>(sessions: Map<Seq<char>, S>, frame: Seq<char>) -> Result<S, Dropped> {
    match kind_of(frame) {
        None => Err(Dropped::Undecodable),
        Some(None) => Err(Dropped::Heartbeat),
        Some(Some(v)) => if sessions.contains_key(v) {
            Ok(sessions[v])
        } else {
            Err(Dropped::UnknownReceiver)
        },
    }
}

/// Decides where an inbound text frame goes: the sink of the session it
/// names, onto which the caller puts the frame exactly as it came, or no
/// delivery at all.
pub fn route<'a, S>(sessions: &'a SessionRegistry<S>, frame: &str) -> (r: Result<&'a S, Dropped>)
    requires
        sessions.wf(),
    ensures
        match route_of(sessions@, frame@) {
            Ok(s) => r matches Ok(t) && *t == s,
            Err(d) => r == Err::<&S, Dropped>(d),
        },
{
    match classify(frame) {
        Inbound::Undecodable => Err(Dropped::Undecodable),
        Inbound::Heartbeat => Err(Dropped::Heartbeat),
        Inbound::Relay { receiver } => match sessions.lookup(receiver.as_str()) {
            Some(sink) => Ok(sink),
            None => Err(Dropped::UnknownReceiver),
        },
    }
}

/// Frames that name the same live receiver, routed one after the other with
/// no change to the sessions in between, all go to that receiver's one sink,
/// which keeps them in the order they were put on it.
pub proof fn same_receiver_same_sink<S>(sessions: Map<Seq<char>, S>, first: Seq<char>, second: Seq<char>, receiver: Seq<char>)
    requires
        kind_of(first) == Some(Some(receiver)),
        kind_of(second) == Some(Some(receiver)),
        sessions.contains_key(receiver),
    ensures
        route_of(sessions, first) == Ok::<S, Dropped>(sessions[receiver]),
        route_of(sessions, second) == route_of(sessions, first),
{
}

} // verus!
