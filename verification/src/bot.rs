//! The gateway session: the state that one client keeps across connections,
//! and the steps that take it through a connection. The session decides; a
//! driver opens the transport, tells the session what happened, and does what
//! each step asks.

use vstd::prelude::*;
use crate::decimal::{number_list, parse_number_list, render_u64};
use crate::error::GatewayError;
use crate::json::json_quote;
use crate::packet::{
    text_of, Packet, PacketView, DISPATCH, HEARTBEAT, HEARTBEAT_ACK, HELLO, IDENTIFY,
    INVALID_SESSION, RECONNECT, RESUME,
};
use crate::queue::{packet_views, EventQueue};
use crate::invariants::steps_keep_sessions_well_formed;
use crate::transition::{
    abandoned, advanced, bootstrapping_step, drained, enqueue_verdict, enqueued, failed, finished,
    heartbeat_text, identify_text, identifying_step, initial, interpreted, later, quiet,
    replaying_step, resume_text, steady_envelope, steady_step, steady_tick, well_formed, BotView,
    EventView, InputView, Phase, StepView, Verdict,
};

verus! {

/// The number of envelopes that the queue of a session made by `Bot::new`
/// holds at most.
pub const DEFAULT_QUEUE_CAPACITY: usize = 1024;

/// One of the two signals that a session keeps.
#[derive(Clone, Copy, Debug, PartialEq, Eq, Structural)]
pub enum Flag {
    /// The server has been heard from since the last heartbeat went out.
    Heartbeat,
    /// The connection ended in a way that asks for a new one.
    Reconnect,
}

/// The bit that stands for `flag`.
pub open spec fn mask_of(flag: Flag) -> u8 {
    match flag {
        Flag::Heartbeat => 1,
        Flag::Reconnect => 2,
    }
}

/// Whether the bit of `flag` is set in `flags`.
pub open spec fn flag_in(flags: u8, flag: Flag) -> bool {
    flags & mask_of(flag) > 0
}

/// The signal `flag` in the state `s`.
pub open spec fn signal(s: BotView, flag: Flag) -> bool {
    match flag {
        Flag::Heartbeat => s.awaiting_heartbeat_ack,
        Flag::Reconnect => s.reconnect_requested,
    }
}

/// The state `s` with the signal `flag` at `value` and all else as it was.
pub open spec fn with_signal(s: BotView, flag: Flag, value: bool) -> BotView {
    match flag {
        Flag::Heartbeat => BotView { awaiting_heartbeat_ack: value, ..s },
        Flag::Reconnect => BotView { reconnect_requested: value, ..s },
    }
}

/// Flipping the bit of one flag turns that flag over and leaves the other.
proof fn flipping_a_bit(flags: u8)
    ensures
        flag_in(flags ^ 1, Flag::Heartbeat) == !flag_in(flags, Flag::Heartbeat),
        flag_in(flags ^ 1, Flag::Reconnect) == flag_in(flags, Flag::Reconnect),
        flag_in(flags ^ 2, Flag::Reconnect) == !flag_in(flags, Flag::Reconnect),
        flag_in(flags ^ 2, Flag::Heartbeat) == flag_in(flags, Flag::Heartbeat),
{
    assert(((flags ^ 1u8) & 1u8 > 0) == !(flags & 1u8 > 0)) by (bit_vector);
    assert(((flags ^ 1u8) & 2u8 > 0) == (flags & 2u8 > 0)) by (bit_vector);
    assert(((flags ^ 2u8) & 2u8 > 0) == !(flags & 2u8 > 0)) by (bit_vector);
    assert(((flags ^ 2u8) & 1u8 > 0) == (flags & 1u8 > 0)) by (bit_vector);
}

/// What the driver reports to a session.
#[derive(Debug)]
pub enum Event {
    /// A text or binary message arrived, with this content.
    Frame(String),
    /// A message arrived whose content is no text.
    Unreadable,
    /// The server has nothing more to replay.
    CaughtUp,
    /// The transport was closed in good order.
    Closed,
    /// The heartbeat timer fired.
    Tick,
    /// Sending or receiving failed.
    TransportFailed,
}

impl View for Event {
    type V = EventView;

    open spec fn view(&self) -> EventView {
        match self {
            Event::Frame(text) => EventView::Frame(text@),
            Event::Unreadable => EventView::Unreadable,
            Event::CaughtUp => EventView::CaughtUp,
            Event::Closed => EventView::Closed,
            Event::Tick => EventView::Tick,
            Event::TransportFailed => EventView::TransportFailed,
        }
    }
}

/// What can happen to a session, with received text already decoded.
#[derive(Debug)]
pub enum Input {
    /// A text arrived that is no valid envelope.
    Garbled,
    /// The hello arrived, with the heartbeat interval it announces, if any.
    Hello(Option<u64>),
    /// A dispatch arrived in answer to an identify, with the session
    /// identifier it carries, if any, and its sequence number.
    Ready { session: Option<String>, seq: u64 },
    /// Any other envelope arrived.
    Envelope(Packet),
    /// The server has nothing more to replay.
    CaughtUp,
    /// The transport was closed in good order.
    Closed,
    /// The heartbeat timer fired.
    Tick,
    /// Sending or receiving failed.
    TransportFailed,
}

impl View for Input {
    type V = InputView;

    open spec fn view(&self) -> InputView {
        match self {
            Input::Garbled => InputView::Garbled,
            Input::Hello(interval) => InputView::Hello(*interval),
            Input::Ready { session, seq } => InputView::Ready {
                session: text_of(*session),
                seq: *seq,
            },
            Input::Envelope(p) => InputView::Envelope(p@),
            Input::CaughtUp => InputView::CaughtUp,
            Input::Closed => InputView::Closed,
            Input::Tick => InputView::Tick,
            Input::TransportFailed => InputView::TransportFailed,
        }
    }
}

/// What a step asks of the driver, and how it ended.
#[derive(Debug)]
pub struct Step {
    /// The text to send, if any.
    pub send: Option<String>,
    /// Whether to close the transport.
    pub close: bool,
    /// The envelopes to hand to the consumer, oldest first.
    pub deliver: Vec<Packet>,
    /// How the step ended.
    pub verdict: Verdict,
}

impl View for Step {
    type V = StepView;

    open spec fn view(&self) -> StepView {
        StepView {
            send: text_of(self.send),
            close: self.close,
            deliver: packet_views(self.deliver@),
            verdict: self.verdict,
        }
    }
}

/// A gateway session.
pub struct Bot {
    token: String,
    os: String,
    intents: u64,
    seq_num: u64,
    uri: String,
    mode: String,
    watched_channels: Vec<u64>,
    jobs: EventQueue,
    heartbeat_int: u64,
    session_id: String,
    flags: u8,
    phase: Phase,
}

impl View for Bot {
    type V = BotView;

    closed spec fn view(&self) -> BotView {
        BotView {
            token: self.token@,
            os: self.os@,
            intents: self.intents,
            uri: self.uri@,
            mode: self.mode@,
            watched_channels: self.watched_channels@,
            seq_num: self.seq_num,
            heartbeat_int: self.heartbeat_int,
            session_id: self.session_id@,
            awaiting_heartbeat_ack: flag_in(self.flags, Flag::Heartbeat),
            reconnect_requested: flag_in(self.flags, Flag::Reconnect),
            jobs: self.jobs@,
            capacity: self.jobs.capacity(),
            phase: self.phase,
        }
    }
}

/// A step that asks nothing of the driver.
fn quiet_step(verdict: Verdict) -> (r: Step)
    ensures
        r@ == quiet(verdict),
{
    let r = Step { send: None, close: false, deliver: Vec::new(), verdict };
    assert(r@.deliver =~= Seq::<PacketView>::empty());
    r
}

impl Bot {
    /// A new session with a queue of the default capacity. `w_c` lists the
    /// watched channels as numbers separated by commas.
    pub fn new(t: String, o: String, i: u64, m: String, w_c: String, u: String) -> (r: Bot)
        requires
            number_list(w_c@) is Some,
        ensures
            r@ == initial(
                t@,
                o@,
                i,
                m@,
                number_list(w_c@).unwrap(),
                u@,
                DEFAULT_QUEUE_CAPACITY as nat,
            ),
            well_formed(r@),
    {
        Bot::with_capacity(t, o, i, m, w_c, u, DEFAULT_QUEUE_CAPACITY)
    }

    /// A new session whose queue holds up to `capacity` envelopes.
    pub fn with_capacity(
        t: String,
        o: String,
        i: u64,
        m: String,
        w_c: String,
        u: String,
        capacity: usize,
    ) -> (r: Bot)
        requires
            number_list(w_c@) is Some,
        ensures
            r@ == initial(t@, o@, i, m@, number_list(w_c@).unwrap(), u@, capacity as nat),
            well_formed(r@),
    {
        let channels = parse_number_list(w_c.as_str()).unwrap();
        let r = Bot {
            token: t,
            os: o,
            intents: i,
            seq_num: 0,
            uri: u,
            mode: m,
            watched_channels: channels,
            jobs: EventQueue::new(capacity),
            heartbeat_int: 0,
            session_id: String::new(),
            flags: 0,
            phase: Phase::Bootstrapping,
        };
        proof {
            assert(0u8 & 1u8 == 0u8) by (bit_vector);
            assert(0u8 & 2u8 == 0u8) by (bit_vector);
        }
        r
    }

    /// Where the session stands.
    pub fn phase(&self) -> (r: Phase)
        ensures
            r == self@.phase,
    {
        self.phase
    }

    /// The greatest sequence number that a dispatch has carried so far.
    pub fn seq_num(&self) -> (r: u64)
        ensures
            r == self@.seq_num,
    {
        self.seq_num
    }

    /// The heartbeat interval of this connection in milliseconds; zero
    /// between connections.
    pub fn heartbeat_int(&self) -> (r: u64)
        ensures
            r == self@.heartbeat_int,
    {
        self.heartbeat_int
    }

    /// The session identifier; empty where no session can be resumed.
    pub fn session_id(&self) -> (r: &str)
        ensures
            r@ == self@.session_id,
    {
        self.session_id.as_str()
    }

    /// The secret that authenticates the client.
    pub fn token(&self) -> (r: &str)
        ensures
            r@ == self@.token,
    {
        self.token.as_str()
    }

    /// The client's operating system.
    pub fn os(&self) -> (r: &str)
        ensures
            r@ == self@.os,
    {
        self.os.as_str()
    }

    /// The event categories subscribed to, as a bit mask.
    pub fn intents(&self) -> (r: u64)
        ensures
            r == self@.intents,
    {
        self.intents
    }

    /// Where the transport connects to.
    pub fn uri(&self) -> (r: &str)
        ensures
            r@ == self@.uri,
    {
        self.uri.as_str()
    }

    /// The mode the client runs in.
    pub fn mode(&self) -> (r: &str)
        ensures
            r@ == self@.mode,
    {
        self.mode.as_str()
    }

    /// The channels that the client watches.
    pub fn watched_channels(&self) -> (r: &Vec<u64>)
        ensures
            r@ == self@.watched_channels,
    {
        &self.watched_channels
    }

    /// The number of envelopes that wait to be handed on.
    pub fn queued(&self) -> (r: usize)
        ensures
            r == self@.jobs.len(),
    {
        self.jobs.len()
    }

    /// The greatest number of envelopes that may wait.
    pub fn queue_capacity(&self) -> (r: usize)
        ensures
            r == self@.capacity,
    {
        self.jobs.limit()
    }

    /// The bit that stands for `key`.
    fn get_mask(&self, key: Flag) -> (r: u8)
        ensures
            r == mask_of(key),
    {
        match key {
            Flag::Heartbeat => 1,
            Flag::Reconnect => 2,
        }
    }

    /// Whether the signal `flag` is set.
    pub fn check_flag(&self, flag: Flag) -> (r: bool)
        ensures
            r == signal(self@, flag),
    {
        let mask = self.get_mask(flag);
        self.flags & mask > 0
    }

    /// Sets the signal `flag` to `value` and leaves the other as it is.
    fn set_flag(&mut self, flag: Flag, value: bool)
        ensures
            final(self)@ == with_signal(old(self)@, flag, value),
    {
        let mask = self.get_mask(flag);
        if self.check_flag(flag) != value {
            proof {
                flipping_a_bit(self.flags);
            }
            self.flags = self.flags ^ mask;
        }
    }

    /// Moves the sequence number up to `s_num` if that is greater.
    fn set_seq_num(&mut self, s_num: u64)
        ensures
            final(self)@ == (BotView { seq_num: later(old(self)@.seq_num, s_num), ..old(self)@ }),
    {
        if s_num > self.seq_num {
            self.seq_num = s_num;
        }
    }

    /// Puts `packet` behind the envelopes that wait, or drops it if the queue
    /// is full.
    fn queue_job(&mut self, packet: Packet) -> (r: Verdict)
        ensures
            final(self)@ == (BotView {
                jobs: enqueued(old(self)@.jobs, old(self)@.capacity, packet@),
                ..old(self)@
            }),
            r == enqueue_verdict(old(self)@.jobs, old(self)@.capacity),
    {
        match self.jobs.push(packet) {
            Ok(()) => Verdict::Proceed,
            Err(e) => Verdict::Recovered(e),
        }
    }

    /// Takes out the envelope that has waited longest, if any waits.
    fn retrieve_job(&mut self) -> (r: Option<Packet>)
        ensures
            old(self)@.jobs.len() == 0 ==> r is None && final(self)@ == old(self)@,
            old(self)@.jobs.len() > 0 ==> r is Some && r.unwrap()@ == old(self)@.jobs[0]
                && final(self)@ == (BotView { jobs: old(self)@.jobs.skip(1), ..old(self)@ }),
    {
        self.jobs.pop()
    }

    /// The wire text of a heartbeat.
    pub fn heartbeat_packet(&self) -> (r: String)
        ensures
            r@ == heartbeat_text(),
    {
        Packet::new(HEARTBEAT, String::from_str("null"), String::from_str("null"), 0).to_string()
    }

    /// The wire text of the identify that this session sends.
    pub fn id_packet(&self) -> (r: String)
        ensures
            r@ == identify_text(self@),
    {
        let mut data = String::from_str("{\"intents\":");
        data.append(render_u64(self.intents).as_str());
        data.append(",\"properties\":{\"$browser\":\"skeuit\",\"$device\":\"skeuit\",\"$os\":");
        data.append(json_quote(self.os.as_str()).as_str());
        data.append("},\"token\":");
        data.append(json_quote(self.token.as_str()).as_str());
        data.append("}");
        Packet::new(IDENTIFY, data, String::from_str("null"), 0).to_string()
    }

    /// The wire text of the resume that this session sends.
    pub fn resume_packet(&self) -> (r: String)
        ensures
            r@ == resume_text(self@),
    {
        let mut data = String::from_str("{\"seq\":");
        data.append(render_u64(self.seq_num).as_str());
        data.append(",\"session_id\":");
        data.append(json_quote(self.session_id.as_str()).as_str());
        data.append(",\"token\":");
        data.append(json_quote(self.token.as_str()).as_str());
        data.append("}");
        Packet::new(RESUME, data, String::from_str("null"), 0).to_string()
    }

    /// Ends the run with `error`.
    fn fail(&mut self, error: GatewayError) -> (r: Step)
        ensures
            (final(self)@, r@) == failed(old(self)@, error),
    {
        self.phase = Phase::Closed;
        quiet_step(Verdict::Fatal(error))
    }

    /// Ends a turn of the steady state: hands on every envelope that waits.
    fn drain(&mut self, send: Option<String>, verdict: Verdict) -> (r: Step)
        ensures
            (final(self)@, r@) == drained(old(self)@, text_of(send), verdict),
    {
        let ghost before = self@;
        let mut deliver: Vec<Packet> = Vec::new();
        assert(packet_views(deliver@) + self@.jobs =~= before.jobs);
        loop
            invariant
                packet_views(deliver@) + self@.jobs == before.jobs,
                self@ == (BotView { jobs: self@.jobs, ..before }),
            ensures
                packet_views(deliver@) == before.jobs,
                self@ == (BotView { jobs: Seq::empty(), ..before }),
            decreases self@.jobs.len(),
        {
            let ghost waiting = self@.jobs;
            match self.retrieve_job() {
                Some(packet) => {
                    let ghost handed = packet_views(deliver@);
                    deliver.push(packet);
                    assert(packet_views(deliver@) =~= handed.push(packet@));
                    assert(packet_views(deliver@) + self@.jobs =~= handed + waiting);
                },
                None => {
                    assert(self@.jobs =~= Seq::<PacketView>::empty());
                    assert(packet_views(deliver@) =~= packet_views(deliver@) + self@.jobs);
                    break ;
                },
            }
        }
        Step { send, close: false, deliver, verdict }
    }

    /// Gives the connection up and asks for a new one.
    fn abandon(&mut self, close: bool, verdict: Verdict) -> (r: Step)
        ensures
            (final(self)@, r@) == abandoned(old(self)@, close, verdict),
    {
        self.set_flag(Flag::Reconnect, true);
        self.phase = Phase::Draining;
        let r = Step { send: None, close, deliver: Vec::new(), verdict };
        assert(r@.deliver =~= Seq::<PacketView>::empty());
        r
    }

    /// A step while the hello is awaited.
    fn bootstrap(&mut self, input: Input) -> (r: Step)
        ensures
            (final(self)@, r@) == bootstrapping_step(old(self)@, input@),
    {
        match input {
            Input::Hello(Some(interval)) => {
                if interval == 0 {
                    return self.fail(GatewayError::MalformedEnvelope);
                }
                let fresh = self.session_id.as_str().is_empty();
                let text = if fresh {
                    self.id_packet()
                } else {
                    self.resume_packet()
                };
                self.heartbeat_int = interval;
                self.set_flag(Flag::Heartbeat, true);
                self.phase = if fresh {
                    Phase::Identifying
                } else {
                    Phase::Replaying
                };
                let r = Step { send: Some(text), close: false, deliver: Vec::new(), verdict: Verdict::Proceed };
                assert(r@.deliver =~= Seq::<PacketView>::empty());
                r
            },
            Input::Hello(None) => self.fail(GatewayError::MalformedEnvelope),
            Input::Garbled => self.fail(GatewayError::MalformedEnvelope),
            Input::Ready { .. } => self.fail(GatewayError::ProtocolViolation),
            Input::Envelope(_) => self.fail(GatewayError::ProtocolViolation),
            Input::Closed => self.fail(GatewayError::ProtocolViolation),
            Input::TransportFailed => self.fail(GatewayError::TransportError),
            Input::CaughtUp => quiet_step(Verdict::Proceed),
            Input::Tick => quiet_step(Verdict::Proceed),
        }
    }

    /// A step while the answer to an identify is awaited.
    fn identify(&mut self, input: Input) -> (r: Step)
        ensures
            (final(self)@, r@) == identifying_step(old(self)@, input@),
    {
        match input {
            Input::Ready { session: Some(id), seq } => {
                self.session_id = id;
                self.set_seq_num(seq);
                self.phase = Phase::SteadyState;
                quiet_step(Verdict::Proceed)
            },
            Input::Ready { session: None, .. } => self.fail(GatewayError::MalformedEnvelope),
            Input::Garbled => self.fail(GatewayError::MalformedEnvelope),
            Input::Hello(_) => self.fail(GatewayError::ProtocolViolation),
            Input::Envelope(_) => self.fail(GatewayError::ProtocolViolation),
            Input::Closed => self.fail(GatewayError::ProtocolViolation),
            Input::TransportFailed => self.fail(GatewayError::TransportError),
            Input::CaughtUp => quiet_step(Verdict::Proceed),
            Input::Tick => quiet_step(Verdict::Proceed),
        }
    }

    /// A step during the replay that follows a resume.
    fn replay(&mut self, input: Input) -> (r: Step)
        ensures
            (final(self)@, r@) == replaying_step(old(self)@, input@),
    {
        match input {
            Input::Envelope(packet) => {
                if packet.op == DISPATCH {
                    let verdict = self.queue_job(packet);
                    quiet_step(verdict)
                } else {
                    quiet_step(Verdict::Proceed)
                }
            },
            Input::Garbled => quiet_step(Verdict::Recovered(GatewayError::MalformedEnvelope)),
            Input::CaughtUp => {
                self.phase = Phase::SteadyState;
                quiet_step(Verdict::Proceed)
            },
            Input::Closed => {
                self.phase = Phase::Draining;
                quiet_step(Verdict::Proceed)
            },
            Input::TransportFailed => self.fail(GatewayError::TransportError),
            Input::Hello(_) => quiet_step(Verdict::Proceed),
            Input::Ready { .. } => quiet_step(Verdict::Proceed),
            Input::Tick => quiet_step(Verdict::Proceed),
        }
    }

    /// What an envelope does in the steady state.
    fn take_envelope(&mut self, packet: Packet) -> (r: Step)
        ensures
            (final(self)@, r@) == steady_envelope(old(self)@, packet@),
    {
        let op = packet.op;
        if op == DISPATCH {
            self.set_seq_num(packet.s);
            let verdict = self.queue_job(packet);
            self.drain(None, verdict)
        } else if op == HEARTBEAT || op == HEARTBEAT_ACK {
            self.set_flag(Flag::Heartbeat, true);
            self.drain(None, Verdict::Proceed)
        } else if op == RECONNECT {
            self.abandon(false, Verdict::Proceed)
        } else if op == INVALID_SESSION {
            self.session_id = String::new();
            self.abandon(false, Verdict::Recovered(GatewayError::SessionInvalidated))
        } else {
            self.drain(None, Verdict::Proceed)
        }
    }

    /// What the heartbeat timer does in the steady state.
    fn beat(&mut self) -> (r: Step)
        ensures
            (final(self)@, r@) == steady_tick(old(self)@),
    {
        if self.check_flag(Flag::Heartbeat) {
            let text = self.heartbeat_packet();
            self.set_flag(Flag::Heartbeat, false);
            self.drain(Some(text), Verdict::Proceed)
        } else {
            self.abandon(true, Verdict::Recovered(GatewayError::LivenessTimeout))
        }
    }

    /// A step in the steady state.
    fn steady(&mut self, input: Input) -> (r: Step)
        ensures
            (final(self)@, r@) == steady_step(old(self)@, input@),
    {
        match input {
            Input::Envelope(packet) => self.take_envelope(packet),
            Input::Tick => self.beat(),
            Input::Garbled => self.drain(None, Verdict::Recovered(GatewayError::MalformedEnvelope)),
            Input::Closed => {
                self.phase = Phase::Draining;
                quiet_step(Verdict::Proceed)
            },
            Input::TransportFailed => self.abandon(
                true,
                Verdict::Recovered(GatewayError::TransportError),
            ),
            Input::Hello(_) => self.drain(None, Verdict::Proceed),
            Input::Ready { .. } => self.drain(None, Verdict::Proceed),
            Input::CaughtUp => self.drain(None, Verdict::Proceed),
        }
    }

    /// Says what `event` means to the session in its present phase: decodes
    /// a received text, and reads from its payload what the phase asks for.
    pub fn interpret(&self, event: Event) -> (r: Input)
        ensures
            r@ == interpreted(self@.phase, event@),
    {
        match event {
            Event::Frame(text) => {
                match Packet::from(text) {
                    Err(_) => Input::Garbled,
                    Ok(packet) => {
                        if self.phase == Phase::Bootstrapping && packet.op == HELLO {
                            Input::Hello(packet.heartbeat_interval())
                        } else if self.phase == Phase::Identifying && packet.op == DISPATCH {
                            Input::Ready { session: packet.session_id(), seq: packet.s }
                        } else {
                            Input::Envelope(packet)
                        }
                    },
                }
            },
            Event::Unreadable => Input::Garbled,
            Event::CaughtUp => Input::CaughtUp,
            Event::Closed => Input::Closed,
            Event::Tick => Input::Tick,
            Event::TransportFailed => Input::TransportFailed,
        }
    }

    /// Takes the session one step on, and says what the driver is to do.
    pub fn advance(&mut self, input: Input) -> (r: Step)
        ensures
            (final(self)@, r@) == advanced(old(self)@, input@),
            well_formed(old(self)@) ==> well_formed(final(self)@),
    {
        proof {
            if well_formed(self@) {
                steps_keep_sessions_well_formed(self@, input@);
            }
        }
        match self.phase {
            Phase::Bootstrapping => self.bootstrap(input),
            Phase::Identifying => self.identify(input),
            Phase::Replaying => self.replay(input),
            Phase::SteadyState => self.steady(input),
            Phase::Draining => quiet_step(Verdict::Proceed),
            Phase::Closed => quiet_step(Verdict::Proceed),
        }
    }

    /// Takes the session one step on with what the driver reports.
    pub fn step(&mut self, event: Event) -> (r: Step)
        ensures
            (final(self)@, r@) == advanced(old(self)@, interpreted(old(self)@.phase, event@)),
            well_formed(old(self)@) ==> well_formed(final(self)@),
    {
        let input = self.interpret(event);
        self.advance(input)
    }

    /// Ends the connection. Says whether a new one is to be opened.
    pub fn finish(&mut self) -> (r: bool)
        ensures
            (final(self)@, r) == finished(old(self)@),
            well_formed(old(self)@) ==> well_formed(final(self)@),
    {
        if self.check_flag(Flag::Reconnect) {
            self.set_flag(Flag::Reconnect, false);
            self.heartbeat_int = 0;
            self.phase = Phase::Bootstrapping;
            true
        } else {
            self.phase = Phase::Closed;
            false
        }
    }
}

} // verus!
