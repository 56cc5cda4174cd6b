//! The envelope: one framed message of the gateway protocol, and its codec.
//!
//! On the wire an envelope is a JSON object with the four members `op`, `d`,
//! `t` and `s`. In memory the payload `d` and the event name `t` are kept as
//! JSON text, exactly as they stand on the wire: an event name is held with
//! its quotes, and what is absent is held as the text `null`.

use vstd::prelude::*;
use crate::decimal::{
    decimal_text, decimal_value, lemma_decimal_round_trip, lemma_decimal_text_digits, parse_u64,
    render_u64,
};
use crate::error::GatewayError;
use crate::json::{json_member, json_member_str, json_member_string, json_member_text};

verus! {

/// An event for the application. Only a dispatch carries `t` and `s`.
pub const DISPATCH: u64 = 0;

/// A liveness beat, in either direction.
pub const HEARTBEAT: u64 = 1;

/// The client opens a new session.
pub const IDENTIFY: u64 = 2;

/// The client takes up an earlier session.
pub const RESUME: u64 = 6;

/// The server asks the client to connect again.
pub const RECONNECT: u64 = 7;

/// The server says that the session cannot be resumed.
pub const INVALID_SESSION: u64 = 9;

/// The server's first envelope, with the heartbeat interval.
pub const HELLO: u64 = 10;

/// The server acknowledges a heartbeat.
pub const HEARTBEAT_ACK: u64 = 11;

/// One envelope.
#[derive(Debug)]
pub struct Packet {
    /// The operation code.
    pub op: u64,
    /// The payload, as JSON text.
    pub d: String,
    /// The event name, as JSON text. Read only on a dispatch.
    pub t: String,
    /// The sequence number. Read only on a dispatch.
    pub s: u64,
}

/// An envelope as a mathematical value.
pub struct PacketView {
    pub op: u64,
    pub d: Seq<char>,
    pub t: Seq<char>,
    pub s: u64,
}

impl View for Packet {
    type V = PacketView;

    open spec fn view(&self) -> PacketView {
        PacketView { op: self.op, d: self.d@, t: self.t@, s: self.s }
    }
}

impl Clone for Packet {
    /// A copy of the envelope.
    fn clone(&self) -> (r: Packet)
        ensures
            r@ == self@,
    {
        Packet { op: self.op, d: self.d.clone(), t: self.t.clone(), s: self.s }
    }
}

/// The JSON text of the null value.
pub open spec fn null_text() -> Seq<char> {
    "null"@
}

/// The text that stands for the event name on the wire: the envelope's own on
/// a dispatch, null on every other operation.
pub open spec fn wire_event_name(p: PacketView) -> Seq<char> {
    if p.op == DISPATCH {
        p.t
    } else {
        null_text()
    }
}

/// The text that stands for the sequence number on the wire: the envelope's
/// own, in decimal, on a dispatch, null on every other operation.
pub open spec fn wire_sequence(p: PacketView) -> Seq<char> {
    if p.op == DISPATCH {
        decimal_text(p.s as nat)
    } else {
        null_text()
    }
}

/// The wire form of an envelope: a JSON object with the members `op`, `d`,
/// `t` and `s`, in this order and without white space.
pub open spec fn wire_text(p: PacketView) -> Seq<char> {
    "{\"op\":"@ + decimal_text(p.op as nat) + ",\"d\":"@ + p.d + ",\"t\":"@ + wire_event_name(p)
        + ",\"s\":"@ + wire_sequence(p) + "}"@
}

/// The envelope that four member texts make up, each as the JSON reader
/// hands it out (`None`: the text received was no JSON). The operation code
/// must be a number, and the payload is taken as it is. On a dispatch the
/// event name is taken as it is, and the sequence number must be a number or
/// null, where null counts as zero. On every other operation the event name
/// is null and the sequence number zero, whatever the members hold.
pub open spec fn envelope_of(
    op: Option<Seq<char>>,
    d: Option<Seq<char>>,
    t: Option<Seq<char>>,
    s: Option<Seq<char>>,
) -> Result<PacketView, GatewayError> {
    if op is None || d is None || t is None || s is None {
        Err(GatewayError::MalformedEnvelope)
    } else {
        match decimal_value(op.unwrap()) {
            None => Err(GatewayError::MalformedEnvelope),
            Some(code) => {
                if code != DISPATCH {
                    Ok(PacketView { op: code, d: d.unwrap(), t: null_text(), s: 0 })
                } else if s.unwrap() == null_text() {
                    Ok(PacketView { op: code, d: d.unwrap(), t: t.unwrap(), s: 0 })
                } else {
                    match decimal_value(s.unwrap()) {
                        None => Err(GatewayError::MalformedEnvelope),
                        Some(seq) => Ok(
                            PacketView { op: code, d: d.unwrap(), t: t.unwrap(), s: seq },
                        ),
                    }
                }
            },
        }
    }
}

/// What a received text decodes to: the envelope made of its members `op`,
/// `d`, `t` and `s` as the JSON reader finds them.
pub open spec fn decoded(text: Seq<char>) -> Result<PacketView, GatewayError> {
    envelope_of(
        json_member_text(text, "op"@),
        json_member_text(text, "d"@),
        json_member_text(text, "t"@),
        json_member_text(text, "s"@),
    )
}

/// The heartbeat interval that a payload announces: its member
/// `heartbeat_interval`, where that is a number.
pub open spec fn announced_interval(d: Seq<char>) -> Option<u64> {
    match json_member_text(d, "heartbeat_interval"@) {
        Some(text) => decimal_value(text),
        None => None,
    }
}

/// The session identifier that a payload carries: its member `session_id`,
/// where that is a string.
pub open spec fn carried_session(d: Seq<char>) -> Option<Seq<char>> {
    json_member_string(d, "session_id"@)
}

/// Whether two texts are the same.
pub fn same_text(a: &str, b: &str) -> (r: bool)
    ensures
        r == (a@ == b@),
{
    let x = a.to_owned();
    let y = b.to_owned();
    x == y
}

impl Packet {
    /// An envelope with the given operation code, payload, event name and
    /// sequence number.
    pub fn new(op_code: u64, data: String, transaction_type: String, seq_num: u64) -> (r: Packet)
        ensures
            r@ == (PacketView { op: op_code, d: data@, t: transaction_type@, s: seq_num }),
    {
        Packet { op: op_code, d: data, t: transaction_type, s: seq_num }
    }

    /// Makes an envelope of the four member texts that the JSON reader found
    /// in a received text.
    pub fn from_members(
        op: Option<String>,
        d: Option<String>,
        t: Option<String>,
        s: Option<String>,
    ) -> (r: Result<Packet, GatewayError>)
        ensures
            match r {
                Ok(p) => envelope_of(text_of(op), text_of(d), text_of(t), text_of(s)) == Ok::<
                    PacketView,
                    GatewayError,
                >(p@),
                Err(e) => envelope_of(text_of(op), text_of(d), text_of(t), text_of(s)) == Err::<
                    PacketView,
                    GatewayError,
                >(e),
            },
    {
        match (op, d, t, s) {
            (Some(op_text), Some(data), Some(name), Some(seq_text)) => {
                let code = match parse_u64(op_text.as_str()) {
                    Some(code) => code,
                    None => {
                        return Err(GatewayError::MalformedEnvelope);
                    },
                };
                if code != DISPATCH {
                    return Ok(Packet { op: code, d: data, t: String::from_str("null"), s: 0 });
                }
                if same_text(seq_text.as_str(), "null") {
                    return Ok(Packet { op: code, d: data, t: name, s: 0 });
                }
                match parse_u64(seq_text.as_str()) {
                    Some(seq) => Ok(Packet { op: code, d: data, t: name, s: seq }),
                    None => Err(GatewayError::MalformedEnvelope),
                }
            },
            _ => Err(GatewayError::MalformedEnvelope),
        }
    }

    /// Decodes a received text. Fails with `MalformedEnvelope` where the text
    /// is no JSON, where `op` is missing or no number, and where the `s` of a
    /// dispatch is neither null nor a number. Members that are null or absent
    /// are tolerated.
    pub fn from(packet_data: String) -> (r: Result<Packet, GatewayError>)
        ensures
            match r {
                Ok(p) => decoded(packet_data@) == Ok::<PacketView, GatewayError>(p@),
                Err(e) => decoded(packet_data@) == Err::<PacketView, GatewayError>(e),
            },
    {
        let text = packet_data.as_str();
        let op = json_member(text, "op");
        let d = json_member(text, "d");
        let t = json_member(text, "t");
        let s = json_member(text, "s");
        Packet::from_members(op, d, t, s)
    }

    /// Encodes the envelope for the wire. All four members are written;
    /// on every operation but a dispatch, `t` and `s` are written as null
    /// whatever the envelope holds.
    pub fn to_string(&self) -> (r: String)
        ensures
            r@ == wire_text(self@),
    {
        let mut r = String::from_str("{\"op\":");
        r.append(render_u64(self.op).as_str());
        r.append(",\"d\":");
        r.append(self.d.as_str());
        r.append(",\"t\":");
        if self.op == DISPATCH {
            r.append(self.t.as_str());
            r.append(",\"s\":");
            r.append(render_u64(self.s).as_str());
        } else {
            r.append("null");
            r.append(",\"s\":");
            r.append("null");
        }
        r.append("}");
        r
    }

    /// The heartbeat interval that the payload announces, if it holds one.
    pub fn heartbeat_interval(&self) -> (r: Option<u64>)
        ensures
            r == announced_interval(self@.d),
    {
        match json_member(self.d.as_str(), "heartbeat_interval") {
            Some(text) => parse_u64(text.as_str()),
            None => None,
        }
    }

    /// The session identifier that the payload carries, if it holds one.
    pub fn session_id(&self) -> (r: Option<String>)
        ensures
            text_of(r) == carried_session(self@.d),
    {
        json_member_str(self.d.as_str(), "session_id")
    }
}

/// The text that an optional string holds.
pub open spec fn text_of(s: Option<String>) -> Option<Seq<char>> {
    match s {
        Some(text) => Some(text@),
        None => None,
    }
}

/// What an envelope looks like after a trip over the wire: itself if it is a
/// dispatch; on every other operation its event name is null and its
/// sequence number zero, whatever they were.
pub open spec fn as_received(p: PacketView) -> PacketView {
    if p.op == DISPATCH {
        p
    } else {
        PacketView { op: p.op, d: p.d, t: null_text(), s: 0 }
    }
}

/// Whether an envelope is as the wire would hand it out.
pub open spec fn in_wire_form(p: PacketView) -> bool {
    as_received(p) == p
}

/// Every decoded envelope is in wire form: only a dispatch has an event name
/// or a sequence number.
pub proof fn decoding_gives_wire_form(
    op: Option<Seq<char>>,
    d: Option<Seq<char>>,
    t: Option<Seq<char>>,
    s: Option<Seq<char>>,
)
    ensures
        envelope_of(op, d, t, s) matches Ok(p) ==> in_wire_form(p),
{
}

/// No number is written as the text `null`.
pub proof fn decimal_text_is_not_null(n: nat)
    ensures
        decimal_text(n) != null_text(),
        decimal_value(null_text()) is None,
{
    reveal_strlit("null");
    lemma_decimal_text_digits(n);
    let written = decimal_text(n);
    if written == null_text() {
        assert(written[0] == 'n');
        assert(crate::decimal::is_digit(written[0]));
    }
    let null = null_text();
    assert(crate::decimal::unsigned_part(null) == null);
    assert(!crate::decimal::is_digit(null[0]));
}

/// Encoding and decoding agree member by member: for every envelope, the
/// four member texts that `wire_text` writes make up, read back by
/// `envelope_of`, the same envelope if it is a dispatch, and on every other
/// operation the same operation code and payload with a null event name and
/// no sequence number.
pub proof fn members_round_trip(p: PacketView)
    ensures
        envelope_of(
            Some(decimal_text(p.op as nat)),
            Some(p.d),
            Some(wire_event_name(p)),
            Some(wire_sequence(p)),
        ) == Ok::<PacketView, GatewayError>(as_received(p)),
{
    lemma_decimal_round_trip(p.op);
    lemma_decimal_round_trip(p.s);
    decimal_text_is_not_null(p.s as nat);
}

} // verus!
