use skeuit::bot::{Bot, Event, Flag, Input, Step, DEFAULT_QUEUE_CAPACITY};
use skeuit::error::GatewayError;
use skeuit::packet::Packet;
use skeuit::transition::{Phase, Verdict};

const HELLO: &str = "{\"op\":10,\"d\":{\"heartbeat_interval\":45000},\"t\":null,\"s\":null}";
const READY: &str = "{\"op\":0,\"d\":{\"session_id\":\"abc\",\"v\":9},\"t\":\"READY\",\"s\":1}";
const HEARTBEAT: &str = "{\"op\":1,\"d\":null,\"t\":null,\"s\":null}";
const IDENTIFY: &str = "{\"op\":2,\"d\":{\"intents\":513,\"properties\":{\"$browser\":\"skeuit\",\"$device\":\"skeuit\",\"$os\":\"linux\"},\"token\":\"tok\"},\"t\":null,\"s\":null}";

fn text(s: &str) -> String {
    s.to_owned()
}

fn session_with(capacity: usize) -> Bot {
    Bot::with_capacity(
        text("tok"),
        text("linux"),
        513,
        text("live"),
        text("10,20"),
        text("wss://gateway.example/?v=9&encoding=json"),
        capacity,
    )
}

fn session() -> Bot {
    Bot::new(
        text("tok"),
        text("linux"),
        513,
        text("live"),
        text("10,20"),
        text("wss://gateway.example/?v=9&encoding=json"),
    )
}

fn frame(s: &str) -> Event {
    Event::Frame(text(s))
}

fn dispatch(seq: u64) -> String {
    format!("{{\"op\":0,\"d\":{{\"n\":{}}},\"t\":\"MESSAGE_CREATE\",\"s\":{}}}", seq, seq)
}

fn resume(session_id: &str, seq: u64) -> String {
    format!(
        "{{\"op\":6,\"d\":{{\"seq\":{},\"session_id\":\"{}\",\"token\":\"tok\"}},\"t\":null,\"s\":null}}",
        seq, session_id
    )
}

fn sequences(step: &Step) -> Vec<u64> {
    step.deliver.iter().map(|p| p.s).collect()
}

fn asks_nothing(step: &Step) -> bool {
    step.send.is_none() && !step.close && step.deliver.is_empty()
}

/// A session in its steady state after a fresh identify.
fn identified(capacity: usize) -> Bot {
    let mut bot = session_with(capacity);
    bot.step(frame(HELLO));
    bot.step(frame(READY));
    assert_eq!(bot.phase(), Phase::SteadyState);
    bot
}

/// A session that has a session to resume and waits for the hello of a new
/// connection.
fn reconnecting(capacity: usize) -> Bot {
    let mut bot = identified(capacity);
    bot.step(frame("{\"op\":7,\"d\":null,\"t\":null,\"s\":null}"));
    assert!(bot.finish());
    assert_eq!(bot.phase(), Phase::Bootstrapping);
    bot
}

/// A session that has sent a resume and takes the replay.
fn replaying(capacity: usize) -> Bot {
    let mut bot = reconnecting(capacity);
    bot.step(frame(HELLO));
    assert_eq!(bot.phase(), Phase::Replaying);
    bot
}

#[test]
fn a_new_session_waits_for_the_hello() {
    let bot = session();
    assert_eq!(bot.phase(), Phase::Bootstrapping);
    assert_eq!(bot.token(), "tok");
    assert_eq!(bot.os(), "linux");
    assert_eq!(bot.intents(), 513);
    assert_eq!(bot.mode(), "live");
    assert_eq!(bot.watched_channels(), &vec![10, 20]);
    assert_eq!(bot.uri(), "wss://gateway.example/?v=9&encoding=json");
    assert_eq!(bot.seq_num(), 0);
    assert_eq!(bot.heartbeat_int(), 0);
    assert_eq!(bot.session_id(), "");
    assert!(!bot.check_flag(Flag::Heartbeat));
    assert!(!bot.check_flag(Flag::Reconnect));
    assert_eq!(bot.queued(), 0);
    assert_eq!(bot.queue_capacity(), DEFAULT_QUEUE_CAPACITY);
    assert_eq!(DEFAULT_QUEUE_CAPACITY, 1024);
}

#[test]
fn a_session_can_be_given_its_queue_capacity() {
    let bot = session_with(3);
    assert_eq!(bot.queue_capacity(), 3);
    assert_eq!(bot.queued(), 0);
    assert_eq!(bot.phase(), Phase::Bootstrapping);
}

#[test]
fn a_whole_life_from_hello_to_resume() {
    let mut bot = session();

    let step = bot.step(frame(HELLO));
    assert_eq!(step.send.as_deref(), Some(IDENTIFY));
    assert!(!step.close);
    assert!(step.deliver.is_empty());
    assert_eq!(step.verdict, Verdict::Proceed);
    assert_eq!(bot.heartbeat_int(), 45000);
    assert!(bot.check_flag(Flag::Heartbeat));
    assert_eq!(bot.phase(), Phase::Identifying);

    let step = bot.step(frame(READY));
    assert!(asks_nothing(&step));
    assert_eq!(step.verdict, Verdict::Proceed);
    assert_eq!(bot.session_id(), "abc");
    assert_eq!(bot.seq_num(), 1);
    assert_eq!(bot.phase(), Phase::SteadyState);

    let step = bot.step(frame(&dispatch(2)));
    assert_eq!(sequences(&step), vec![2]);
    assert_eq!(step.deliver[0].d, "{\"n\":2}");
    assert_eq!(step.deliver[0].t, "\"MESSAGE_CREATE\"");
    assert!(step.send.is_none());
    assert_eq!(bot.seq_num(), 2);
    assert_eq!(bot.queued(), 0);

    let step = bot.step(Event::Tick);
    assert_eq!(step.send.as_deref(), Some(HEARTBEAT));
    assert!(!step.close);
    assert_eq!(step.verdict, Verdict::Proceed);
    assert!(!bot.check_flag(Flag::Heartbeat));
    assert_eq!(bot.phase(), Phase::SteadyState);

    let step = bot.step(Event::Tick);
    assert!(step.send.is_none());
    assert!(step.close);
    assert_eq!(step.verdict, Verdict::Recovered(GatewayError::LivenessTimeout));
    assert!(bot.check_flag(Flag::Reconnect));
    assert_eq!(bot.phase(), Phase::Draining);

    assert!(bot.finish());
    assert!(!bot.check_flag(Flag::Reconnect));
    assert_eq!(bot.phase(), Phase::Bootstrapping);
    assert_eq!(bot.heartbeat_int(), 0);
    assert_eq!(bot.session_id(), "abc");
    assert_eq!(bot.seq_num(), 2);

    let step = bot.step(frame(HELLO));
    assert_eq!(step.send, Some(resume("abc", 2)));
    assert_eq!(bot.phase(), Phase::Replaying);
    assert_eq!(bot.heartbeat_int(), 45000);
    assert!(bot.check_flag(Flag::Heartbeat));
}

#[test]
fn the_identify_is_valid_json_with_the_client_s_data() {
    let bot = session();
    let sent: serde_json::Value = serde_json::from_str(&bot.id_packet()).unwrap();
    assert_eq!(sent["op"].as_u64(), Some(2));
    assert!(sent["t"].is_null());
    assert!(sent["s"].is_null());
    assert_eq!(sent["d"]["token"].as_str(), Some("tok"));
    assert_eq!(sent["d"]["intents"].as_u64(), Some(513));
    assert_eq!(sent["d"]["properties"]["$os"].as_str(), Some("linux"));
    assert_eq!(sent["d"]["properties"]["$browser"].as_str(), Some("skeuit"));
    assert_eq!(sent["d"]["properties"]["$device"].as_str(), Some("skeuit"));
    assert_eq!(sent.as_object().map(|o| o.len()), Some(4));
    assert_eq!(sent["d"].as_object().map(|o| o.len()), Some(3));
}

#[test]
fn the_identify_escapes_what_json_cannot_hold_as_it_is() {
    let bot = Bot::new(
        text("to\"k\\en\n\u{1}"),
        text("os \u{e9}/2"),
        0,
        text(""),
        text("1"),
        text(""),
    );
    assert_eq!(
        bot.id_packet(),
        "{\"op\":2,\"d\":{\"intents\":0,\"properties\":{\"$browser\":\"skeuit\",\"$device\":\"skeuit\",\"$os\":\"os \u{e9}/2\"},\"token\":\"to\\\"k\\\\en\\n\\u0001\"},\"t\":null,\"s\":null}"
    );
    let sent: serde_json::Value = serde_json::from_str(&bot.id_packet()).unwrap();
    assert_eq!(sent["d"]["token"].as_str(), Some("to\"k\\en\n\u{1}"));
    assert_eq!(sent["d"]["properties"]["$os"].as_str(), Some("os \u{e9}/2"));
}

#[test]
fn the_resume_carries_session_sequence_and_token() {
    let bot = reconnecting(8);
    assert_eq!(bot.resume_packet(), resume("abc", 1));
    let sent: serde_json::Value = serde_json::from_str(&bot.resume_packet()).unwrap();
    assert_eq!(sent["op"].as_u64(), Some(6));
    assert_eq!(sent["d"]["session_id"].as_str(), Some("abc"));
    assert_eq!(sent["d"]["seq"].as_u64(), Some(1));
    assert_eq!(sent["d"]["token"].as_str(), Some("tok"));
    assert_eq!(sent["d"].as_object().map(|o| o.len()), Some(3));
}

#[test]
fn the_heartbeat_is_an_envelope_without_payload() {
    assert_eq!(session().heartbeat_packet(), HEARTBEAT);
}

#[test]
fn a_session_identifier_with_quotes_goes_out_escaped() {
    let mut bot = session();
    bot.step(frame(HELLO));
    bot.step(frame("{\"op\":0,\"d\":{\"session_id\":\"a\\\"b\"},\"t\":\"READY\",\"s\":4}"));
    assert_eq!(bot.session_id(), "a\"b");
    bot.step(frame("{\"op\":7}"));
    assert!(bot.finish());
    let step = bot.step(frame(HELLO));
    assert_eq!(step.send, Some(resume("a\\\"b", 4)));
}

#[test]
fn the_sequence_number_is_the_greatest_seen() {
    let mut bot = identified(8);
    let mut seen = Vec::new();
    for seq in [5, 3, 9, 2, 9, 10, 0] {
        bot.step(frame(&dispatch(seq)));
        seen.push(bot.seq_num());
    }
    assert_eq!(seen, vec![5, 5, 9, 9, 9, 10, 10]);
}

#[test]
fn the_sequence_number_reaches_the_largest_value() {
    let mut bot = identified(8);
    bot.step(frame(&dispatch(u64::MAX)));
    assert_eq!(bot.seq_num(), u64::MAX);
    bot.step(frame(&dispatch(7)));
    assert_eq!(bot.seq_num(), u64::MAX);
}

#[test]
fn a_late_identify_answer_does_not_move_the_sequence_back() {
    let mut bot = identified(8);
    bot.step(frame(&dispatch(50)));
    bot.step(frame("{\"op\":9,\"d\":false,\"t\":null,\"s\":null}"));
    assert!(bot.finish());
    bot.step(frame(HELLO));
    assert_eq!(bot.phase(), Phase::Identifying);
    bot.step(frame(READY));
    assert_eq!(bot.seq_num(), 50);
    assert_eq!(bot.session_id(), "abc");
}

#[test]
fn every_dispatch_is_handed_on_at_once_in_the_steady_state() {
    let mut bot = identified(8);
    for seq in [4, 5, 6] {
        let step = bot.step(frame(&dispatch(seq)));
        assert_eq!(sequences(&step), vec![seq]);
        assert_eq!(step.verdict, Verdict::Proceed);
        assert_eq!(bot.queued(), 0);
    }
}

#[test]
fn heartbeat_and_acknowledgement_both_set_the_liveness_flag() {
    for sign in ["{\"op\":1,\"d\":null}", "{\"op\":11,\"d\":null}"] {
        let mut bot = identified(8);
        bot.step(Event::Tick);
        assert!(!bot.check_flag(Flag::Heartbeat));
        let step = bot.step(frame(sign));
        assert!(asks_nothing(&step));
        assert_eq!(step.verdict, Verdict::Proceed);
        assert!(bot.check_flag(Flag::Heartbeat));
        let step = bot.step(Event::Tick);
        assert_eq!(step.send.as_deref(), Some(HEARTBEAT));
        assert!(!bot.check_flag(Flag::Heartbeat));
        assert_eq!(bot.phase(), Phase::SteadyState);
    }
}

#[test]
fn a_heartbeat_from_the_server_is_not_answered_out_of_turn() {
    let mut bot = identified(8);
    let step = bot.step(frame(HEARTBEAT));
    assert!(step.send.is_none());
    assert!(bot.check_flag(Flag::Heartbeat));
}

#[test]
fn no_second_heartbeat_goes_out_unanswered() {
    let mut bot = identified(8);
    assert!(bot.step(Event::Tick).send.is_some());
    let step = bot.step(frame(&dispatch(2)));
    assert!(step.send.is_none());
    let step = bot.step(frame("garbage"));
    assert!(step.send.is_none());
    let step = bot.step(Event::Tick);
    assert!(step.send.is_none());
    assert!(step.close);
    assert_eq!(bot.phase(), Phase::Draining);
    let step = bot.step(Event::Tick);
    assert!(asks_nothing(&step));
}

#[test]
fn a_session_without_identifier_identifies() {
    let mut bot = session();
    let step = bot.step(frame(HELLO));
    assert_eq!(step.send.as_deref(), Some(IDENTIFY));
    assert_eq!(bot.phase(), Phase::Identifying);
}

#[test]
fn a_session_with_identifier_resumes_with_its_sequence_number() {
    let mut bot = identified(8);
    bot.step(frame(&dispatch(41)));
    bot.step(frame("{\"op\":7,\"d\":null,\"t\":null,\"s\":null}"));
    assert_eq!(bot.phase(), Phase::Draining);
    assert!(bot.check_flag(Flag::Reconnect));
    assert_eq!(bot.session_id(), "abc");
    assert!(bot.finish());
    let step = bot.step(frame(HELLO));
    assert_eq!(step.send, Some(resume("abc", 41)));
    assert_eq!(bot.phase(), Phase::Replaying);
}

#[test]
fn an_invalid_session_forgets_the_identifier_and_identifies_again() {
    let mut bot = identified(8);
    let step = bot.step(frame("{\"op\":9,\"d\":false,\"t\":null,\"s\":null}"));
    assert!(asks_nothing(&step));
    assert_eq!(step.verdict, Verdict::Recovered(GatewayError::SessionInvalidated));
    assert_eq!(bot.session_id(), "");
    assert!(bot.check_flag(Flag::Reconnect));
    assert_eq!(bot.phase(), Phase::Draining);
    assert!(bot.finish());
    let step = bot.step(frame(HELLO));
    assert_eq!(step.send.as_deref(), Some(IDENTIFY));
    assert_eq!(bot.phase(), Phase::Identifying);
}

#[test]
fn an_empty_session_identifier_means_no_session() {
    let mut bot = session();
    bot.step(frame(HELLO));
    let step = bot.step(frame("{\"op\":0,\"d\":{\"session_id\":\"\"},\"t\":\"READY\",\"s\":1}"));
    assert_eq!(step.verdict, Verdict::Proceed);
    assert_eq!(bot.phase(), Phase::SteadyState);
    bot.step(frame("{\"op\":7}"));
    assert!(bot.finish());
    let step = bot.step(frame(HELLO));
    assert_eq!(step.send.as_deref(), Some(IDENTIFY));
}

#[test]
fn the_replay_is_queued_in_the_order_of_arrival() {
    let mut bot = replaying(8);
    for seq in [2, 3, 4, 5] {
        let step = bot.step(frame(&dispatch(seq)));
        assert!(asks_nothing(&step));
        assert_eq!(step.verdict, Verdict::Proceed);
    }
    assert_eq!(bot.queued(), 4);
    assert_eq!(bot.seq_num(), 1);
    let step = bot.step(Event::CaughtUp);
    assert!(asks_nothing(&step));
    assert_eq!(bot.phase(), Phase::SteadyState);
    assert_eq!(bot.queued(), 4);
    let step = bot.step(frame(&dispatch(6)));
    assert_eq!(sequences(&step), vec![2, 3, 4, 5, 6]);
    assert_eq!(bot.queued(), 0);
    assert_eq!(bot.seq_num(), 6);
}

#[test]
fn the_replay_is_handed_on_by_the_first_turn_of_the_steady_state() {
    let mut bot = replaying(8);
    bot.step(frame(&dispatch(2)));
    bot.step(frame(&dispatch(3)));
    bot.step(Event::CaughtUp);
    let step = bot.step(Event::Tick);
    assert_eq!(sequences(&step), vec![2, 3]);
    assert_eq!(step.send.as_deref(), Some(HEARTBEAT));
    assert_eq!(bot.queued(), 0);
}

#[test]
fn the_replay_passes_over_what_is_no_dispatch() {
    let mut bot = replaying(8);
    let step = bot.step(frame("not an envelope"));
    assert!(asks_nothing(&step));
    assert_eq!(step.verdict, Verdict::Recovered(GatewayError::MalformedEnvelope));
    assert_eq!(bot.phase(), Phase::Replaying);
    for other in [HEARTBEAT, HELLO, "{\"op\":9}", "{\"op\":7}", "{\"op\":11}"] {
        let step = bot.step(frame(other));
        assert!(asks_nothing(&step));
        assert_eq!(step.verdict, Verdict::Proceed);
        assert_eq!(bot.phase(), Phase::Replaying);
    }
    assert!(asks_nothing(&bot.step(Event::Tick)));
    assert_eq!(bot.queued(), 0);
    assert_eq!(bot.session_id(), "abc");
    assert!(!bot.check_flag(Flag::Reconnect));
}

#[test]
fn a_full_queue_drops_what_arrives_and_says_so() {
    let mut bot = replaying(2);
    assert_eq!(bot.step(frame(&dispatch(2))).verdict, Verdict::Proceed);
    assert_eq!(bot.step(frame(&dispatch(3))).verdict, Verdict::Proceed);
    let step = bot.step(frame(&dispatch(4)));
    assert!(asks_nothing(&step));
    assert_eq!(step.verdict, Verdict::Recovered(GatewayError::QueueOverflow));
    assert_eq!(bot.queued(), 2);
    bot.step(Event::CaughtUp);
    let step = bot.step(frame(&dispatch(5)));
    assert_eq!(step.verdict, Verdict::Recovered(GatewayError::QueueOverflow));
    assert_eq!(sequences(&step), vec![2, 3]);
    assert_eq!(bot.seq_num(), 5);
    let step = bot.step(frame(&dispatch(6)));
    assert_eq!(step.verdict, Verdict::Proceed);
    assert_eq!(sequences(&step), vec![6]);
}

#[test]
fn a_session_without_room_drops_every_dispatch() {
    let mut bot = identified(0);
    let step = bot.step(frame(&dispatch(2)));
    assert!(step.deliver.is_empty());
    assert_eq!(step.verdict, Verdict::Recovered(GatewayError::QueueOverflow));
    assert_eq!(bot.seq_num(), 2);
}

#[test]
fn a_garbled_text_is_passed_over_in_the_steady_state() {
    let mut bot = identified(8);
    let step = bot.step(frame("{\"op\":"));
    assert!(asks_nothing(&step));
    assert_eq!(step.verdict, Verdict::Recovered(GatewayError::MalformedEnvelope));
    assert_eq!(bot.phase(), Phase::SteadyState);
    assert_eq!(bot.seq_num(), 1);
    let step = bot.step(frame(&dispatch(2)));
    assert_eq!(sequences(&step), vec![2]);
}

#[test]
fn unknown_operations_change_nothing() {
    let mut bot = identified(8);
    for other in ["{\"op\":2}", "{\"op\":6}", "{\"op\":10,\"d\":{\"heartbeat_interval\":1}}", "{\"op\":3}", "{\"op\":255,\"s\":77}"] {
        let step = bot.step(frame(other));
        assert!(asks_nothing(&step));
        assert_eq!(step.verdict, Verdict::Proceed);
    }
    assert_eq!(bot.phase(), Phase::SteadyState);
    assert_eq!(bot.seq_num(), 1);
    assert_eq!(bot.heartbeat_int(), 45000);
    assert_eq!(bot.session_id(), "abc");
    assert!(bot.check_flag(Flag::Heartbeat));
}

#[test]
fn a_reconnect_request_keeps_the_session() {
    let mut bot = identified(8);
    let step = bot.step(frame("{\"op\":7,\"d\":null,\"t\":null,\"s\":null}"));
    assert!(asks_nothing(&step));
    assert_eq!(step.verdict, Verdict::Proceed);
    assert!(bot.check_flag(Flag::Reconnect));
    assert_eq!(bot.phase(), Phase::Draining);
    assert_eq!(bot.session_id(), "abc");
}

#[test]
fn a_clean_close_ends_the_session() {
    let mut bot = identified(8);
    let step = bot.step(Event::Closed);
    assert!(asks_nothing(&step));
    assert_eq!(step.verdict, Verdict::Proceed);
    assert!(!bot.check_flag(Flag::Reconnect));
    assert_eq!(bot.phase(), Phase::Draining);
    assert!(!bot.finish());
    assert_eq!(bot.phase(), Phase::Closed);
    assert!(asks_nothing(&bot.step(frame(HELLO))));
    assert_eq!(bot.phase(), Phase::Closed);
    assert!(!bot.finish());
}

#[test]
fn a_clean_close_during_the_replay_ends_the_session_and_keeps_the_queue() {
    let mut bot = replaying(8);
    bot.step(frame(&dispatch(2)));
    let step = bot.step(Event::Closed);
    assert!(asks_nothing(&step));
    assert_eq!(bot.phase(), Phase::Draining);
    assert!(!bot.finish());
    assert_eq!(bot.phase(), Phase::Closed);
    assert_eq!(bot.queued(), 1);
}

#[test]
fn a_failing_transport_in_the_steady_state_leads_to_a_reconnect() {
    let mut bot = identified(8);
    let step = bot.step(Event::TransportFailed);
    assert!(step.close);
    assert!(step.send.is_none());
    assert_eq!(step.verdict, Verdict::Recovered(GatewayError::TransportError));
    assert!(bot.check_flag(Flag::Reconnect));
    assert_eq!(bot.phase(), Phase::Draining);
    assert!(bot.finish());
    assert_eq!(bot.step(frame(HELLO)).send, Some(resume("abc", 1)));
}

#[test]
fn a_failing_transport_before_the_steady_state_is_fatal() {
    let mut fresh = session();
    assert_eq!(fresh.step(Event::TransportFailed).verdict, Verdict::Fatal(GatewayError::TransportError));
    assert_eq!(fresh.phase(), Phase::Closed);

    let mut identifying = session();
    identifying.step(frame(HELLO));
    assert_eq!(
        identifying.step(Event::TransportFailed).verdict,
        Verdict::Fatal(GatewayError::TransportError)
    );
    assert_eq!(identifying.phase(), Phase::Closed);

    let mut resuming = replaying(8);
    assert_eq!(
        resuming.step(Event::TransportFailed).verdict,
        Verdict::Fatal(GatewayError::TransportError)
    );
    assert_eq!(resuming.phase(), Phase::Closed);
    assert!(!resuming.finish());
}

#[test]
fn a_garbled_hello_is_fatal() {
    let mut bot = session();
    let step = bot.step(frame("hello?"));
    assert!(asks_nothing(&step));
    assert_eq!(step.verdict, Verdict::Fatal(GatewayError::MalformedEnvelope));
    assert_eq!(bot.phase(), Phase::Closed);
    assert!(!bot.finish());
}

#[test]
fn a_first_envelope_that_is_no_hello_is_fatal() {
    for first in [READY, HEARTBEAT, "{\"op\":11}", "{\"op\":9}", "{\"op\":7}"] {
        let mut bot = session();
        let step = bot.step(frame(first));
        assert_eq!(step.verdict, Verdict::Fatal(GatewayError::ProtocolViolation), "on {:?}", first);
        assert_eq!(bot.phase(), Phase::Closed);
        assert_eq!(bot.heartbeat_int(), 0);
    }
}

#[test]
fn a_hello_without_a_usable_interval_is_fatal() {
    for hello in [
        "{\"op\":10}",
        "{\"op\":10,\"d\":{}}",
        "{\"op\":10,\"d\":{\"heartbeat_interval\":0}}",
        "{\"op\":10,\"d\":{\"heartbeat_interval\":\"45000\"}}",
        "{\"op\":10,\"d\":{\"heartbeat_interval\":-5}}",
        "{\"op\":10,\"d\":{\"heartbeat_interval\":41.25}}",
    ] {
        let mut bot = session();
        let step = bot.step(frame(hello));
        assert_eq!(step.verdict, Verdict::Fatal(GatewayError::MalformedEnvelope), "on {:?}", hello);
        assert!(step.send.is_none());
        assert_eq!(bot.phase(), Phase::Closed);
    }
}

#[test]
fn a_transport_that_closes_before_the_hello_is_fatal() {
    let mut bot = session();
    assert_eq!(bot.step(Event::Closed).verdict, Verdict::Fatal(GatewayError::ProtocolViolation));
    assert_eq!(bot.phase(), Phase::Closed);
}

#[test]
fn a_garbled_answer_to_the_identify_is_fatal() {
    let mut bot = session();
    bot.step(frame(HELLO));
    let step = bot.step(frame("{\"op\":0,"));
    assert_eq!(step.verdict, Verdict::Fatal(GatewayError::MalformedEnvelope));
    assert_eq!(bot.phase(), Phase::Closed);
}

#[test]
fn an_answer_to_the_identify_without_session_identifier_is_fatal() {
    for answer in [
        "{\"op\":0,\"d\":{},\"t\":\"READY\",\"s\":1}",
        "{\"op\":0,\"d\":{\"session_id\":7},\"t\":\"READY\",\"s\":1}",
        "{\"op\":0,\"d\":null,\"t\":\"READY\",\"s\":1}",
    ] {
        let mut bot = session();
        bot.step(frame(HELLO));
        let step = bot.step(frame(answer));
        assert_eq!(step.verdict, Verdict::Fatal(GatewayError::MalformedEnvelope), "on {:?}", answer);
        assert_eq!(bot.phase(), Phase::Closed);
        assert_eq!(bot.session_id(), "");
    }
}

#[test]
fn an_answer_to_the_identify_that_is_no_dispatch_is_fatal() {
    for answer in ["{\"op\":9,\"d\":false}", HELLO, "{\"op\":11,\"d\":{\"session_id\":\"abc\"}}"] {
        let mut bot = session();
        bot.step(frame(HELLO));
        let step = bot.step(frame(answer));
        assert_eq!(step.verdict, Verdict::Fatal(GatewayError::ProtocolViolation), "on {:?}", answer);
        assert_eq!(bot.phase(), Phase::Closed);
    }
    let mut bot = session();
    bot.step(frame(HELLO));
    assert_eq!(bot.step(Event::Closed).verdict, Verdict::Fatal(GatewayError::ProtocolViolation));
}

#[test]
fn timer_and_replay_end_mean_nothing_before_the_steady_state() {
    let mut bot = session();
    assert!(asks_nothing(&bot.step(Event::Tick)));
    assert!(asks_nothing(&bot.step(Event::CaughtUp)));
    assert_eq!(bot.phase(), Phase::Bootstrapping);
    bot.step(frame(HELLO));
    assert!(asks_nothing(&bot.step(Event::Tick)));
    assert!(asks_nothing(&bot.step(Event::CaughtUp)));
    assert_eq!(bot.phase(), Phase::Identifying);
    assert!(bot.check_flag(Flag::Heartbeat));
}

#[test]
fn a_session_that_drains_takes_no_more_input() {
    let mut bot = identified(8);
    bot.step(frame("{\"op\":7}"));
    for event in [frame(&dispatch(9)), Event::Tick, Event::Closed, Event::TransportFailed, Event::CaughtUp] {
        let step = bot.step(event);
        assert!(asks_nothing(&step));
        assert_eq!(step.verdict, Verdict::Proceed);
    }
    assert_eq!(bot.phase(), Phase::Draining);
    assert_eq!(bot.seq_num(), 1);
    assert!(bot.check_flag(Flag::Reconnect));
}

#[test]
fn what_waits_when_the_connection_ends_is_kept_for_the_next() {
    let mut bot = replaying(8);
    bot.step(frame(&dispatch(2)));
    bot.step(frame(&dispatch(3)));
    bot.step(Event::CaughtUp);
    bot.step(frame("{\"op\":7}"));
    assert_eq!(bot.queued(), 2);
    assert!(bot.finish());
    assert_eq!(bot.queued(), 2);
    bot.step(frame(HELLO));
    bot.step(frame(&dispatch(4)));
    bot.step(Event::CaughtUp);
    let step = bot.step(frame(HEARTBEAT));
    assert_eq!(sequences(&step), vec![2, 3, 4]);
}

#[test]
fn events_are_read_by_the_phase() {
    let fresh = session();
    assert!(matches!(fresh.interpret(frame(HELLO)), Input::Hello(Some(45000))));
    assert!(matches!(fresh.interpret(frame("{\"op\":10}")), Input::Hello(None)));
    assert!(matches!(fresh.interpret(frame("oops")), Input::Garbled));
    assert!(matches!(fresh.interpret(frame(READY)), Input::Envelope(_)));
    assert!(matches!(fresh.interpret(Event::Tick), Input::Tick));
    assert!(matches!(fresh.interpret(Event::Closed), Input::Closed));
    assert!(matches!(fresh.interpret(Event::CaughtUp), Input::CaughtUp));
    assert!(matches!(fresh.interpret(Event::TransportFailed), Input::TransportFailed));

    let mut identifying = session();
    identifying.step(frame(HELLO));
    match identifying.interpret(frame(READY)) {
        Input::Ready { session, seq } => {
            assert_eq!(session.as_deref(), Some("abc"));
            assert_eq!(seq, 1);
        }
        other => panic!("read as {:?}", other),
    }
    assert!(matches!(identifying.interpret(frame(HELLO)), Input::Envelope(_)));

    let steady = identified(8);
    assert!(matches!(steady.interpret(frame(READY)), Input::Envelope(_)));
    assert!(matches!(steady.interpret(frame(HELLO)), Input::Envelope(_)));
}

#[test]
fn decoded_input_can_be_fed_directly() {
    let mut bot = session();
    let step = bot.advance(Input::Hello(Some(250)));
    assert_eq!(step.send.as_deref(), Some(IDENTIFY));
    assert_eq!(bot.heartbeat_int(), 250);
    let step = bot.advance(Input::Ready { session: Some(text("s-1")), seq: 12 });
    assert!(asks_nothing(&step));
    assert_eq!(bot.session_id(), "s-1");
    assert_eq!(bot.seq_num(), 12);
    let step = bot.advance(Input::Envelope(Packet::new(0, text("{}"), text("\"E\""), 13)));
    assert_eq!(sequences(&step), vec![13]);
    assert_eq!(bot.seq_num(), 13);
    let step = bot.advance(Input::Hello(Some(1)));
    assert!(asks_nothing(&step));
    let step = bot.advance(Input::Ready { session: None, seq: 99 });
    assert!(asks_nothing(&step));
    assert_eq!(bot.heartbeat_int(), 250);
    assert_eq!(bot.seq_num(), 13);
    assert_eq!(bot.phase(), Phase::SteadyState);
}

#[test]
fn ending_a_live_connection_closes_the_session() {
    let mut bot = identified(8);
    assert!(!bot.finish());
    assert_eq!(bot.phase(), Phase::Closed);
    assert_eq!(bot.session_id(), "abc");
}
