//! What holds of a gateway session whatever happens to it. Each statement
//! here is proved of the state machine in `transition`, which the session's
//! own functions are proved to follow step by step.

use vstd::prelude::*;
use crate::error::GatewayError;
use crate::packet::{PacketView, DISPATCH, HEARTBEAT, HEARTBEAT_ACK, INVALID_SESSION};
use crate::transition::{
    advanced, fatal_in, fed, finished, heartbeat_text, identify_text, initial, interpreted,
    resume_text, well_formed, BotView, EventView, InputView, Phase, Verdict,
};

verus! {

/// Whether `input` is a dispatch envelope.
pub open spec fn is_dispatch(input: InputView) -> bool {
    input matches InputView::Envelope(p) && p.op == DISPATCH
}

/// The envelope that `input` brings.
pub open spec fn envelope(input: InputView) -> PacketView
    recommends
        input is Envelope,
{
    input->Envelope_0
}

/// Whether `input` is a sign of life from the server: a heartbeat or a
/// heartbeat acknowledgement.
pub open spec fn is_sign_of_life(input: InputView) -> bool {
    input matches InputView::Envelope(p) && (p.op == HEARTBEAT || p.op == HEARTBEAT_ACK)
}

/// Whether `input` is a hello that announces an interval above zero.
pub open spec fn is_usable_hello(input: InputView) -> bool {
    input matches InputView::Hello(Some(interval)) && interval > 0
}

/// The envelopes that a run of dispatch inputs brings, in order.
pub open spec fn envelopes(inputs: Seq<InputView>) -> Seq<PacketView> {
    Seq::new(inputs.len(), |i: int| envelope(inputs[i]))
}

/// A new session is well formed.
pub proof fn new_session_is_well_formed(
    token: Seq<char>,
    os: Seq<char>,
    intents: u64,
    mode: Seq<char>,
    watched_channels: Seq<u64>,
    uri: Seq<char>,
    capacity: nat,
)
    ensures
        well_formed(initial(token, os, intents, mode, watched_channels, uri, capacity)),
{
}

/// Every step and every end of a connection keeps a session well formed: on
/// entering the steady state the heartbeat interval is above zero, a
/// reconnect is asked for only while the session drains, and the queue never
/// holds more than its capacity.
pub proof fn steps_keep_sessions_well_formed(s: BotView, input: InputView)
    requires
        well_formed(s),
    ensures
        well_formed(advanced(s, input).0),
        well_formed(finished(s).0),
{
}

/// A session keeps its identity: no step and no end of a connection changes
/// the token, the operating system, the intents, the target, the mode, the
/// watched channels, or the capacity of the queue.
pub proof fn identity_persists(s: BotView, input: InputView)
    ensures
        same_identity(s, advanced(s, input).0),
        same_identity(s, finished(s).0),
{
}

/// Whether `a` and `b` are states of one client.
pub open spec fn same_identity(a: BotView, b: BotView) -> bool {
    &&& a.token == b.token
    &&& a.os == b.os
    &&& a.intents == b.intents
    &&& a.uri == b.uri
    &&& a.mode == b.mode
    &&& a.watched_channels == b.watched_channels
    &&& a.capacity == b.capacity
}

/// Whether `input` is the server's word that the session is invalid.
pub open spec fn is_invalid_session(input: InputView) -> bool {
    input matches InputView::Envelope(p) && p.op == INVALID_SESSION
}

/// The state changes only where the protocol says so. The session
/// identifier is set by the answer to an identify and forgotten when the
/// server declares the session invalid, and changes at no other step. The
/// sequence number moves only with a dispatch: one that arrives in the
/// steady state, or the one that answers an identify. The heartbeat interval
/// is set by the hello and by nothing else while the connection lasts.
pub proof fn state_changes_only_where_the_protocol_says(s: BotView, input: InputView)
    ensures
        advanced(s, input).0.session_id != s.session_id ==> (s.phase == Phase::Identifying
            && input is Ready) || (s.phase == Phase::SteadyState && is_invalid_session(input)),
        advanced(s, input).0.seq_num != s.seq_num ==> (s.phase == Phase::Identifying
            && input is Ready) || (s.phase == Phase::SteadyState && is_dispatch(input)),
        advanced(s, input).0.heartbeat_int != s.heartbeat_int ==> s.phase == Phase::Bootstrapping
            && input is Hello,
{
}

/// What the driver reports is read as a hello only while the hello is
/// awaited, and as the answer to an identify only while that answer is
/// awaited.
pub proof fn events_are_read_by_the_phase(phase: Phase, event: EventView)
    ensures
        interpreted(phase, event) is Hello ==> phase == Phase::Bootstrapping,
        interpreted(phase, event) is Ready ==> phase == Phase::Identifying,
{
}

/// The end of a connection keeps what a resume needs: the session identifier
/// and the sequence number survive it, and so do the envelopes that wait.
pub proof fn reconnect_keeps_the_session(s: BotView)
    ensures
        finished(s).0.session_id == s.session_id,
        finished(s).0.seq_num == s.seq_num,
        finished(s).0.jobs == s.jobs,
        finished(s).1 == s.reconnect_requested,
        finished(s).1 ==> finished(s).0.phase == Phase::Bootstrapping && finished(s).0.heartbeat_int
            == 0 && !finished(s).0.reconnect_requested,
        !finished(s).1 ==> finished(s).0.phase == Phase::Closed,
{
}

/// The sequence number never goes down, whatever arrives.
pub proof fn sequence_never_decreases(s: BotView, input: InputView)
    ensures
        advanced(s, input).0.seq_num >= s.seq_num,
        finished(s).0.seq_num == s.seq_num,
{
}

/// The sequence number never goes down over any run of inputs.
pub proof fn sequence_never_decreases_over_a_run(s: BotView, inputs: Seq<InputView>)
    ensures
        fed(s, inputs).seq_num >= s.seq_num,
    decreases inputs.len(),
{
    if inputs.len() > 0 {
        sequence_never_decreases_over_a_run(s, inputs.drop_last());
        sequence_never_decreases(fed(s, inputs.drop_last()), inputs.last());
    }
}

/// After any run of dispatch envelopes fed to a session in its steady state,
/// the sequence number is the greatest seen so far: it is not below the one
/// the session started with nor below that of any envelope of the run, and it
/// is one of these. An envelope with a smaller number than one before it
/// does not move the sequence number back.
pub proof fn sequence_is_greatest_seen(s: BotView, inputs: Seq<InputView>)
    requires
        s.phase == Phase::SteadyState,
        forall|i: int| 0 <= i < inputs.len() ==> is_dispatch(#[trigger] inputs[i]),
    ensures
        fed(s, inputs).phase == Phase::SteadyState,
        fed(s, inputs).seq_num >= s.seq_num,
        forall|i: int| 0 <= i < inputs.len() ==> fed(s, inputs).seq_num >= envelope(#[trigger] inputs[i]).s,
        fed(s, inputs).seq_num == s.seq_num || exists|i: int|
            0 <= i < inputs.len() && fed(s, inputs).seq_num == envelope(#[trigger] inputs[i]).s,
    decreases inputs.len(),
{
    if inputs.len() > 0 {
        let before = inputs.drop_last();
        let last = inputs.last();
        sequence_is_greatest_seen(s, before);
        let mid = fed(s, before);
        let end = fed(s, inputs);
        assert(is_dispatch(last));
        assert forall|i: int| 0 <= i < inputs.len() implies end.seq_num >= envelope(
            #[trigger] inputs[i],
        ).s by {
            if i < before.len() {
                assert(before[i] == inputs[i]);
            }
        }
        if end.seq_num != s.seq_num {
            if end.seq_num == envelope(last).s {
                assert(inputs[inputs.len() - 1] == last);
            } else {
                let i = choose|i: int|
                    0 <= i < before.len() && mid.seq_num == envelope(#[trigger] before[i]).s;
                assert(before[i] == inputs[i]);
            }
        }
    }
}

/// The liveness flag follows the heartbeats. It is set right after the
/// hello and right after any heartbeat or heartbeat acknowledgement received
/// in the steady state. A step that sends a heartbeat clears it. A timer
/// tick that finds it cleared sends nothing, has the transport closed and
/// asks for a reconnect.
pub proof fn liveness_flag_follows_heartbeats(s: BotView, input: InputView)
    ensures
        s.phase == Phase::Bootstrapping && is_usable_hello(input) ==> advanced(
            s,
            input,
        ).0.awaiting_heartbeat_ack,
        s.phase == Phase::SteadyState && is_sign_of_life(input) ==> advanced(
            s,
            input,
        ).0.awaiting_heartbeat_ack,
        s.phase == Phase::SteadyState && input is Tick && s.awaiting_heartbeat_ack ==> advanced(
            s,
            input,
        ).1.send == Some(heartbeat_text()),
        advanced(s, input).1.send == Some(heartbeat_text()) && s.phase == Phase::SteadyState
            ==> !advanced(s, input).0.awaiting_heartbeat_ack,
        s.phase == Phase::SteadyState && input is Tick && !s.awaiting_heartbeat_ack ==> {
            &&& advanced(s, input).1.send is None
            &&& advanced(s, input).1.close
            &&& advanced(s, input).1.verdict == Verdict::Recovered(GatewayError::LivenessTimeout)
            &&& advanced(s, input).0.reconnect_requested
            &&& advanced(s, input).0.phase == Phase::Draining
        },
{
}

/// No second heartbeat goes out before the server has answered the first:
/// once the liveness flag is cleared in the steady state, no step sends
/// anything until a heartbeat or a heartbeat acknowledgement has come in,
/// however many other inputs arrive in between.
pub proof fn no_heartbeat_without_an_answer(s: BotView, inputs: Seq<InputView>, input: InputView)
    requires
        s.phase == Phase::SteadyState,
        !s.awaiting_heartbeat_ack,
        forall|i: int| 0 <= i < inputs.len() ==> !is_sign_of_life(#[trigger] inputs[i]),
        !is_sign_of_life(input),
    ensures
        fed(s, inputs).phase == Phase::SteadyState || fed(s, inputs).phase == Phase::Draining,
        !fed(s, inputs).awaiting_heartbeat_ack,
        advanced(fed(s, inputs), input).1.send is None,
    decreases inputs.len(),
{
    if inputs.len() > 0 {
        no_heartbeat_without_an_answer(s, inputs.drop_last(), inputs.last());
    }
}

/// What is sent after the hello depends on the session identifier alone: a
/// session without one sends an identify, and a session with one sends a
/// resume, which carries the identifier and the present sequence number.
pub proof fn hello_is_answered_by_identify_or_resume(s: BotView, interval: u64)
    requires
        s.phase == Phase::Bootstrapping,
        interval > 0,
    ensures
        s.session_id.len() == 0 ==> {
            &&& advanced(s, InputView::Hello(Some(interval))).1.send == Some(identify_text(s))
            &&& advanced(s, InputView::Hello(Some(interval))).0.phase == Phase::Identifying
        },
        s.session_id.len() > 0 ==> {
            &&& advanced(s, InputView::Hello(Some(interval))).1.send == Some(resume_text(s))
            &&& advanced(s, InputView::Hello(Some(interval))).0.phase == Phase::Replaying
        },
        advanced(s, InputView::Hello(Some(interval))).0.heartbeat_int == interval,
{
}

/// After the server has declared the session invalid, the session identifier
/// is empty and a reconnect is asked for; the next connection then answers
/// the hello with an identify, whatever the identifier was before.
pub proof fn invalid_session_forces_identify(s: BotView, p: PacketView, interval: u64)
    requires
        s.phase == Phase::SteadyState,
        p.op == INVALID_SESSION,
        interval > 0,
    ensures
        ({
            let invalidated = advanced(s, InputView::Envelope(p)).0;
            let (next, reconnect) = finished(invalidated);
            let answer = advanced(next, InputView::Hello(Some(interval)));
            &&& invalidated.session_id.len() == 0
            &&& invalidated.phase == Phase::Draining
            &&& reconnect
            &&& next.phase == Phase::Bootstrapping
            &&& answer.1.send == Some(identify_text(next))
            &&& answer.0.phase == Phase::Identifying
        }),
{
}

/// The replay keeps the order of arrival: after any run of dispatch
/// envelopes fed to a session that replays, as long as the queue has room
/// for them, the queue holds what it held before followed by exactly these
/// envelopes in the order in which they came; the sequence number is
/// untouched; and when the server has caught up, the steady state begins with
/// that queue.
pub proof fn replay_keeps_arrival_order(s: BotView, inputs: Seq<InputView>)
    requires
        s.phase == Phase::Replaying,
        forall|i: int| 0 <= i < inputs.len() ==> is_dispatch(#[trigger] inputs[i]),
        s.jobs.len() + inputs.len() <= s.capacity,
    ensures
        fed(s, inputs).phase == Phase::Replaying,
        fed(s, inputs).jobs == s.jobs + envelopes(inputs),
        fed(s, inputs).seq_num == s.seq_num,
        fed(s, inputs).capacity == s.capacity,
        advanced(fed(s, inputs), InputView::CaughtUp).0.phase == Phase::SteadyState,
        advanced(fed(s, inputs), InputView::CaughtUp).0.jobs == s.jobs + envelopes(inputs),
    decreases inputs.len(),
{
    if inputs.len() > 0 {
        let before = inputs.drop_last();
        replay_keeps_arrival_order(s, before);
        let last = inputs.last();
        let mid = fed(s, before);
        assert(is_dispatch(last));
        assert(mid.jobs.len() == s.jobs.len() + before.len());
        assert(fed(s, inputs).jobs == mid.jobs.push(envelope(last)));
        assert forall|i: int| 0 <= i < before.len() implies envelopes(before)[i] == envelopes(
            inputs,
        )[i] by {
            assert(before[i] == inputs[i]);
        }
        assert(envelopes(inputs) =~= envelopes(before).push(envelope(last)));
        assert(fed(s, inputs).jobs =~= s.jobs + envelopes(inputs));
    } else {
        assert(s.jobs =~= s.jobs + envelopes(inputs));
    }
}

/// Every turn of the steady state that keeps the connection hands on all
/// that waits, oldest first, and leaves the queue empty.
pub proof fn steady_state_drains_in_order(s: BotView, input: InputView)
    requires
        s.phase == Phase::SteadyState,
        advanced(s, input).0.phase == Phase::SteadyState,
    ensures
        advanced(s, input).0.jobs.len() == 0,
        !is_dispatch(input) ==> advanced(s, input).1.deliver == s.jobs,
        is_dispatch(input) && s.jobs.len() < s.capacity ==> advanced(s, input).1.deliver
            == s.jobs.push(envelope(input)),
        is_dispatch(input) && s.jobs.len() >= s.capacity ==> advanced(s, input).1.deliver == s.jobs
            && advanced(s, input).1.verdict == Verdict::Recovered(GatewayError::QueueOverflow),
{
}

/// An error ends the run exactly where its phase makes it fatal: a step that
/// reports an error as fatal met it in a phase in which it is fatal, and
/// closes the session; a step that reports an error as dealt with met it in a
/// phase in which it is not.
pub proof fn verdicts_follow_the_classification(s: BotView, input: InputView)
    ensures
        advanced(s, input).1.verdict matches Verdict::Fatal(e) ==> fatal_in(e, s.phase) && advanced(
            s,
            input,
        ).0.phase == Phase::Closed,
        advanced(s, input).1.verdict matches Verdict::Recovered(e) ==> !fatal_in(e, s.phase)
            && advanced(s, input).0.phase != Phase::Closed,
{
}

} // verus!
