//! The gateway session as a state machine over mathematical values: its
//! state, what can happen to it, and what each happening makes of it.
//!
//! One connection goes through the phases in order: it waits for the server's
//! hello, authenticates (a fresh identify, or a resume followed by the replay
//! of missed events), lives in the steady state, and drains. A session that
//! asked to reconnect then starts over with a new connection and keeps its
//! identity; any other is closed.

use vstd::prelude::*;
use crate::decimal::decimal_text;
use crate::error::GatewayError;
use crate::json::json_string_text;
use crate::packet::{
    announced_interval, carried_session, decoded, null_text, wire_text, PacketView, DISPATCH,
    HEARTBEAT, HEARTBEAT_ACK, HELLO, IDENTIFY, INVALID_SESSION, RECONNECT, RESUME,
};

verus! {

/// Where a session stands in the life of its connection.
#[derive(Clone, Copy, Debug, PartialEq, Eq, Structural)]
pub enum Phase {
    /// The transport is being opened; the next envelope must be the hello.
    Bootstrapping,
    /// An identify was sent; the next envelope must acknowledge it.
    Identifying,
    /// A resume was sent; the server replays the events that were missed.
    Replaying,
    /// Events arrive and heartbeats go out.
    SteadyState,
    /// The connection is over; what follows is a reconnect or the end.
    Draining,
    /// The session is over.
    Closed,
}

/// How a step ended.
#[derive(Clone, Copy, Debug, PartialEq, Eq, Structural)]
pub enum Verdict {
    /// Nothing went wrong.
    Proceed,
    /// Something went wrong and the session dealt with it; the run goes on.
    Recovered(GatewayError),
    /// Something went wrong that ends the run.
    Fatal(GatewayError),
}

/// The state of a session.
pub struct BotView {
    /// The secret that authenticates the client.
    pub token: Seq<char>,
    /// The client's operating system, sent with an identify.
    pub os: Seq<char>,
    /// The event categories subscribed to, as a bit mask.
    pub intents: u64,
    /// Where the transport connects to.
    pub uri: Seq<char>,
    /// The mode the client runs in.
    pub mode: Seq<char>,
    /// The channels that the client watches.
    pub watched_channels: Seq<u64>,
    /// The greatest sequence number that a dispatch has carried so far.
    pub seq_num: u64,
    /// The heartbeat interval of this connection in milliseconds; zero
    /// between connections.
    pub heartbeat_int: u64,
    /// The session identifier; empty where no session can be resumed.
    pub session_id: Seq<char>,
    /// Whether the server has been heard from since the last heartbeat went
    /// out, so that the next may go.
    pub awaiting_heartbeat_ack: bool,
    /// Whether the connection ended in a way that asks for a new one.
    pub reconnect_requested: bool,
    /// The dispatch envelopes that wait to be handed on, oldest first.
    pub jobs: Seq<PacketView>,
    /// The greatest number of envelopes that may wait.
    pub capacity: nat,
    /// Where the session stands.
    pub phase: Phase,
}

/// What the driver reports to a session.
pub enum EventView {
    /// A text or binary message arrived, with this content.
    Frame(Seq<char>),
    /// A message arrived whose content is no text.
    Unreadable,
    /// The server has nothing more to replay.
    CaughtUp,
    /// The transport was closed in good order.
    Closed,
    /// The heartbeat timer fired.
    Tick,
    /// Sending or receiving failed.
    TransportFailed,
}

/// What can happen to a session, with received text already decoded.
pub enum InputView {
    /// A text arrived that is no valid envelope.
    Garbled,
    /// The hello arrived, with the heartbeat interval it announces, if any.
    Hello(Option<u64>),
    /// A dispatch arrived in answer to an identify, with the session
    /// identifier it carries, if any, and its sequence number.
    Ready { session: Option<Seq<char>>, seq: u64 },
    /// Any other envelope arrived.
    Envelope(PacketView),
    /// The server has nothing more to replay.
    CaughtUp,
    /// The transport was closed in good order.
    Closed,
    /// The heartbeat timer fired.
    Tick,
    /// Sending or receiving failed.
    TransportFailed,
}

/// What a step asks of the driver, and how it ended.
pub struct StepView {
    /// The text to send, if any.
    pub send: Option<Seq<char>>,
    /// Whether to close the transport.
    pub close: bool,
    /// The envelopes to hand to the consumer, oldest first.
    pub deliver: Seq<PacketView>,
    /// How the step ended.
    pub verdict: Verdict,
}

/// The state of a new session: no session to resume, no sequence number
/// seen, nothing queued, and a hello awaited.
pub open spec fn initial(
    token: Seq<char>,
    os: Seq<char>,
    intents: u64,
    mode: Seq<char>,
    watched_channels: Seq<u64>,
    uri: Seq<char>,
    capacity: nat,
) -> BotView {
    BotView {
        token,
        os,
        intents,
        uri,
        mode,
        watched_channels,
        seq_num: 0,
        heartbeat_int: 0,
        session_id: Seq::empty(),
        awaiting_heartbeat_ack: false,
        reconnect_requested: false,
        jobs: Seq::empty(),
        capacity,
        phase: Phase::Bootstrapping,
    }
}

/// What a received text means to a session in `phase`. A text that does not
/// decode is garbled. While the hello is awaited, an envelope with the hello
/// operation is read as a hello, with the interval that its payload
/// announces. While the answer to an identify is awaited, a dispatch is read
/// as that answer, with the session identifier that its payload carries.
/// Every other envelope is taken as it is.
pub open spec fn frame_meaning(phase: Phase, text: Seq<char>) -> InputView {
    match decoded(text) {
        Err(_) => InputView::Garbled,
        Ok(p) => {
            if phase == Phase::Bootstrapping && p.op == HELLO {
                InputView::Hello(announced_interval(p.d))
            } else if phase == Phase::Identifying && p.op == DISPATCH {
                InputView::Ready { session: carried_session(p.d), seq: p.s }
            } else {
                InputView::Envelope(p)
            }
        },
    }
}

/// What an event means to a session in `phase`.
pub open spec fn interpreted(phase: Phase, event: EventView) -> InputView {
    match event {
        EventView::Frame(text) => frame_meaning(phase, text),
        EventView::Unreadable => InputView::Garbled,
        EventView::CaughtUp => InputView::CaughtUp,
        EventView::Closed => InputView::Closed,
        EventView::Tick => InputView::Tick,
        EventView::TransportFailed => InputView::TransportFailed,
    }
}

/// The payload of an identify: the intents, the client's properties and the
/// token, as a JSON object with its members in alphabetical order.
pub open spec fn identify_payload(token: Seq<char>, os: Seq<char>, intents: u64) -> Seq<char> {
    "{\"intents\":"@ + decimal_text(intents as nat)
        + ",\"properties\":{\"$browser\":\"skeuit\",\"$device\":\"skeuit\",\"$os\":"@
        + json_string_text(os) + "},\"token\":"@ + json_string_text(token) + "}"@
}

/// The payload of a resume: the last sequence number, the session identifier
/// and the token, as a JSON object with its members in alphabetical order.
pub open spec fn resume_payload(token: Seq<char>, session_id: Seq<char>, seq_num: u64) -> Seq<
    char,
> {
    "{\"seq\":"@ + decimal_text(seq_num as nat) + ",\"session_id\":"@ + json_string_text(session_id)
        + ",\"token\":"@ + json_string_text(token) + "}"@
}

/// The wire text of the identify that a session in state `s` sends.
pub open spec fn identify_text(s: BotView) -> Seq<char> {
    wire_text(
        PacketView {
            op: IDENTIFY,
            d: identify_payload(s.token, s.os, s.intents),
            t: null_text(),
            s: 0,
        },
    )
}

/// The wire text of the resume that a session in state `s` sends.
pub open spec fn resume_text(s: BotView) -> Seq<char> {
    wire_text(
        PacketView {
            op: RESUME,
            d: resume_payload(s.token, s.session_id, s.seq_num),
            t: null_text(),
            s: 0,
        },
    )
}

/// The wire text of a heartbeat.
pub open spec fn heartbeat_text() -> Seq<char> {
    wire_text(PacketView { op: HEARTBEAT, d: null_text(), t: null_text(), s: 0 })
}

/// The greater of two sequence numbers.
pub open spec fn later(a: u64, b: u64) -> u64 {
    if b > a {
        b
    } else {
        a
    }
}

/// The queue after `p` arrives: `p` goes behind the envelopes that wait
/// unless the queue is full, and is dropped if it is.
pub open spec fn enqueued(jobs: Seq<PacketView>, capacity: nat, p: PacketView) -> Seq<PacketView> {
    if jobs.len() < capacity {
        jobs.push(p)
    } else {
        jobs
    }
}

/// How a step ends in which `p` arrives at the queue.
pub open spec fn enqueue_verdict(jobs: Seq<PacketView>, capacity: nat) -> Verdict {
    if jobs.len() < capacity {
        Verdict::Proceed
    } else {
        Verdict::Recovered(GatewayError::QueueOverflow)
    }
}

/// A step that asks nothing of the driver.
pub open spec fn quiet(verdict: Verdict) -> StepView {
    StepView { send: None, close: false, deliver: Seq::empty(), verdict }
}

/// Nothing changes and nothing is asked.
pub open spec fn ignored(s: BotView) -> (BotView, StepView) {
    (s, quiet(Verdict::Proceed))
}

/// The run ends with `error`: the session is closed.
pub open spec fn failed(s: BotView, error: GatewayError) -> (BotView, StepView) {
    (BotView { phase: Phase::Closed, ..s }, quiet(Verdict::Fatal(error)))
}

/// The end of a turn of the steady state: every envelope that waits is
/// handed on, oldest first, and `send` goes out.
pub open spec fn drained(s: BotView, send: Option<Seq<char>>, verdict: Verdict) -> (
    BotView,
    StepView,
) {
    (
        BotView { jobs: Seq::empty(), ..s },
        StepView { send, close: false, deliver: s.jobs, verdict },
    )
}

/// The connection is given up and a new one is asked for: the transport is
/// closed if `close` says so, and the session drains.
pub open spec fn abandoned(s: BotView, close: bool, verdict: Verdict) -> (BotView, StepView) {
    (
        BotView { reconnect_requested: true, phase: Phase::Draining, ..s },
        StepView { send: None, close, deliver: Seq::empty(), verdict },
    )
}

/// A step while the hello is awaited. A hello with an interval above zero
/// sets the interval and the liveness flag and is answered by an identify,
/// or by a resume if there is a session to take up. Anything else that
/// arrives, and a transport that fails or closes, ends the run.
pub open spec fn bootstrapping_step(s: BotView, input: InputView) -> (BotView, StepView) {
    match input {
        InputView::Hello(Some(interval)) => {
            if interval == 0 {
                failed(s, GatewayError::MalformedEnvelope)
            } else if s.session_id.len() == 0 {
                (
                    BotView {
                        heartbeat_int: interval,
                        awaiting_heartbeat_ack: true,
                        phase: Phase::Identifying,
                        ..s
                    },
                    StepView { send: Some(identify_text(s)), ..quiet(Verdict::Proceed) },
                )
            } else {
                (
                    BotView {
                        heartbeat_int: interval,
                        awaiting_heartbeat_ack: true,
                        phase: Phase::Replaying,
                        ..s
                    },
                    StepView { send: Some(resume_text(s)), ..quiet(Verdict::Proceed) },
                )
            }
        },
        InputView::Hello(None) => failed(s, GatewayError::MalformedEnvelope),
        InputView::Garbled => failed(s, GatewayError::MalformedEnvelope),
        InputView::Ready { .. } => failed(s, GatewayError::ProtocolViolation),
        InputView::Envelope(_) => failed(s, GatewayError::ProtocolViolation),
        InputView::Closed => failed(s, GatewayError::ProtocolViolation),
        InputView::TransportFailed => failed(s, GatewayError::TransportError),
        InputView::CaughtUp => ignored(s),
        InputView::Tick => ignored(s),
    }
}

/// A step while the answer to an identify is awaited. A dispatch that
/// carries a session identifier sets the identifier, moves the sequence
/// number up to its own if that is greater, and starts the steady state.
/// Anything else that arrives, and a transport that fails or closes, ends
/// the run.
pub open spec fn identifying_step(s: BotView, input: InputView) -> (BotView, StepView) {
    match input {
        InputView::Ready { session: Some(id), seq } => (
            BotView {
                session_id: id,
                seq_num: later(s.seq_num, seq),
                phase: Phase::SteadyState,
                ..s
            },
            quiet(Verdict::Proceed),
        ),
        InputView::Ready { session: None, .. } => failed(s, GatewayError::MalformedEnvelope),
        InputView::Garbled => failed(s, GatewayError::MalformedEnvelope),
        InputView::Hello(_) => failed(s, GatewayError::ProtocolViolation),
        InputView::Envelope(_) => failed(s, GatewayError::ProtocolViolation),
        InputView::Closed => failed(s, GatewayError::ProtocolViolation),
        InputView::TransportFailed => failed(s, GatewayError::TransportError),
        InputView::CaughtUp => ignored(s),
        InputView::Tick => ignored(s),
    }
}

/// A step during the replay that follows a resume. A dispatch is queued and
/// leaves the sequence number alone; other envelopes are passed over, and so
/// is a text that is no envelope. When the server has caught up the steady
/// state starts. A transport that closes in good order ends the connection
/// without a reconnect; one that fails ends the run.
pub open spec fn replaying_step(s: BotView, input: InputView) -> (BotView, StepView) {
    match input {
        InputView::Envelope(p) => {
            if p.op == DISPATCH {
                (
                    BotView { jobs: enqueued(s.jobs, s.capacity, p), ..s },
                    quiet(enqueue_verdict(s.jobs, s.capacity)),
                )
            } else {
                ignored(s)
            }
        },
        InputView::Garbled => (s, quiet(Verdict::Recovered(GatewayError::MalformedEnvelope))),
        InputView::CaughtUp => (BotView { phase: Phase::SteadyState, ..s }, quiet(Verdict::Proceed)),
        InputView::Closed => (BotView { phase: Phase::Draining, ..s }, quiet(Verdict::Proceed)),
        InputView::TransportFailed => failed(s, GatewayError::TransportError),
        InputView::Hello(_) => ignored(s),
        InputView::Ready { .. } => ignored(s),
        InputView::Tick => ignored(s),
    }
}

/// What an envelope does in the steady state. A dispatch moves the sequence
/// number up to its own if that is greater, whether or not the queue has room
/// for it, and is queued. A heartbeat and a heartbeat acknowledgement both
/// set the liveness flag: a heartbeat from the server counts as a sign of
/// life and is not answered out of turn. A reconnect request ends the
/// connection and keeps the session; an invalid session ends the connection
/// and forgets the session identifier. Any other envelope changes nothing.
/// Unless the connection ends, the queue is then drained.
pub open spec fn steady_envelope(s: BotView, p: PacketView) -> (BotView, StepView) {
    if p.op == DISPATCH {
        drained(
            BotView {
                seq_num: later(s.seq_num, p.s),
                jobs: enqueued(s.jobs, s.capacity, p),
                ..s
            },
            None,
            enqueue_verdict(s.jobs, s.capacity),
        )
    } else if p.op == HEARTBEAT || p.op == HEARTBEAT_ACK {
        drained(BotView { awaiting_heartbeat_ack: true, ..s }, None, Verdict::Proceed)
    } else if p.op == RECONNECT {
        abandoned(s, false, Verdict::Proceed)
    } else if p.op == INVALID_SESSION {
        abandoned(
            BotView { session_id: Seq::empty(), ..s },
            false,
            Verdict::Recovered(GatewayError::SessionInvalidated),
        )
    } else {
        drained(s, None, Verdict::Proceed)
    }
}

/// What the heartbeat timer does in the steady state. If the server has
/// been heard from since the last beat, a heartbeat goes out and the
/// liveness flag is cleared. If it has not, the connection is dead: the
/// transport is closed and a new connection is asked for.
pub open spec fn steady_tick(s: BotView) -> (BotView, StepView) {
    if s.awaiting_heartbeat_ack {
        drained(
            BotView { awaiting_heartbeat_ack: false, ..s },
            Some(heartbeat_text()),
            Verdict::Proceed,
        )
    } else {
        abandoned(s, true, Verdict::Recovered(GatewayError::LivenessTimeout))
    }
}

/// A step in the steady state. A text that is no envelope is passed over. A
/// transport that closes in good order ends the connection without a
/// reconnect; one that fails is closed and a new connection is asked for.
pub open spec fn steady_step(s: BotView, input: InputView) -> (BotView, StepView) {
    match input {
        InputView::Envelope(p) => steady_envelope(s, p),
        InputView::Tick => steady_tick(s),
        InputView::Garbled => drained(
            s,
            None,
            Verdict::Recovered(GatewayError::MalformedEnvelope),
        ),
        InputView::Closed => (BotView { phase: Phase::Draining, ..s }, quiet(Verdict::Proceed)),
        InputView::TransportFailed => abandoned(
            s,
            true,
            Verdict::Recovered(GatewayError::TransportError),
        ),
        InputView::Hello(_) => drained(s, None, Verdict::Proceed),
        InputView::Ready { .. } => drained(s, None, Verdict::Proceed),
        InputView::CaughtUp => drained(s, None, Verdict::Proceed),
    }
}

/// The session after `input`, and what the step asks of the driver. A
/// session that drains or is closed takes no more input.
pub open spec fn advanced(s: BotView, input: InputView) -> (BotView, StepView) {
    match s.phase {
        Phase::Bootstrapping => bootstrapping_step(s, input),
        Phase::Identifying => identifying_step(s, input),
        Phase::Replaying => replaying_step(s, input),
        Phase::SteadyState => steady_step(s, input),
        Phase::Draining => ignored(s),
        Phase::Closed => ignored(s),
    }
}

/// The session after the inputs of `inputs`, taken one after another.
pub open spec fn fed(s: BotView, inputs: Seq<InputView>) -> BotView
    decreases inputs.len(),
{
    if inputs.len() == 0 {
        s
    } else {
        advanced(fed(s, inputs.drop_last()), inputs.last()).0
    }
}

/// The session after its connection has ended, and whether a new connection
/// is to be opened. A session that asked to reconnect forgets the request and
/// the heartbeat interval and waits for a hello again; everything else it
/// keeps. Any other session is closed.
pub open spec fn finished(s: BotView) -> (BotView, bool) {
    if s.reconnect_requested {
        (
            BotView {
                reconnect_requested: false,
                heartbeat_int: 0,
                phase: Phase::Bootstrapping,
                ..s
            },
            true,
        )
    } else {
        (BotView { phase: Phase::Closed, ..s }, false)
    }
}

/// Whether `error`, met in `phase`, ends the run. A text that is no envelope
/// is fatal until the session is authenticated and passed over afterwards. A
/// missing envelope is always fatal. A failing transport is fatal until the
/// steady state and leads to a reconnect in it. A missed heartbeat, an
/// invalidated session and a full queue never are.
pub open spec fn fatal_in(error: GatewayError, phase: Phase) -> bool {
    match error {
        GatewayError::MalformedEnvelope => phase == Phase::Bootstrapping || phase
            == Phase::Identifying,
        GatewayError::ProtocolViolation => true,
        GatewayError::TransportError => phase == Phase::Bootstrapping || phase == Phase::Identifying
            || phase == Phase::Replaying,
        GatewayError::LivenessTimeout => false,
        GatewayError::SessionInvalidated => false,
        GatewayError::QueueOverflow => false,
    }
}

/// What holds of every session that was made by `Bot::new` and taken through
/// steps: the heartbeat interval is set while a connection is authenticated
/// or in its steady state, a reconnect is asked for only while the session
/// drains, and the queue is within its capacity.
pub open spec fn well_formed(s: BotView) -> bool {
    &&& (s.phase == Phase::Identifying || s.phase == Phase::Replaying || s.phase
        == Phase::SteadyState) ==> s.heartbeat_int > 0
    &&& s.reconnect_requested ==> s.phase == Phase::Draining
    &&& s.jobs.len() <= s.capacity
}

} // verus!
