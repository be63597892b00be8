use hl7_send_receive::ack::AckMode;
use hl7_send_receive::session::{
    decode_reply, handle_frame, plan_reply_wait, prepare_send, FrameOutcome, ListenConfig,
    ListenState, ReplyContent, ReplyWait,
};

const INBOUND: &str =
    "MSH|^~\\&|AccMgr|1|||20050110045504||ADT^A01|599102|P|2.3|||AL\rPID|1";

fn frame(text: &str) -> Vec<u8> {
    text.as_bytes().to_vec()
}

fn success_config() -> ListenConfig {
    ListenConfig { ack_mode: AckMode::Success, message_count: None, correct_newlines: true }
}

#[test]
fn ignore_mode_never_replies() {
    let cfg = ListenConfig { ack_mode: AckMode::Ignore, ..success_config() };
    let mut state = ListenState::new();
    let outcome: FrameOutcome = handle_frame(&cfg, &mut state, &frame(INBOUND)).unwrap();
    assert!(outcome.reply.is_none());
    assert!(outcome.parsed.is_none());
    assert_eq!(outcome.text, INBOUND);
    let garbled = handle_frame(&cfg, &mut state, &frame("not a message")).unwrap();
    assert!(garbled.reply.is_none());
    assert_eq!(state.received, 2);
}

#[test]
fn end_to_end_enhanced_success_ack() {
    let cfg = success_config();
    let mut state = ListenState::new();
    let outcome = handle_frame(&cfg, &mut state, &frame(INBOUND)).unwrap();
    let reply = outcome.reply.expect("exactly one reply frame");
    let segments: Vec<&str> = reply.split('\r').collect();
    assert!(segments.contains(&"MSA|CA|599102|Message accepted"));
}

#[test]
fn listener_counts_to_configured_maximum() {
    let cfg = ListenConfig { message_count: Some(3), ..success_config() };
    let mut state = ListenState::new();
    let first = handle_frame(&cfg, &mut state, &frame(INBOUND)).unwrap();
    assert!(!first.done);
    let second = handle_frame(&cfg, &mut state, &frame(INBOUND)).unwrap();
    assert!(!second.done);
    let third = handle_frame(&cfg, &mut state, &frame(INBOUND)).unwrap();
    assert!(third.done);
    assert_eq!(state.received, 3);
}

#[test]
fn listener_without_maximum_never_stops() {
    let cfg = success_config();
    let mut state = ListenState::new();
    for _ in 0..5 {
        let outcome = handle_frame(&cfg, &mut state, &frame(INBOUND)).unwrap();
        assert!(!outcome.done);
    }
    assert_eq!(state.received, 5);
}

#[test]
fn inbound_newlines_are_corrected() {
    let cfg = ListenConfig { ack_mode: AckMode::Ignore, ..success_config() };
    let mut state = ListenState::new();
    let text = "MSH|^~\\&|A|B|||20050110045504||ADT^A01|1|P|2.3\nPID|1\r\n";
    let outcome = handle_frame(&cfg, &mut state, &frame(text)).unwrap();
    assert_eq!(
        outcome.text,
        "MSH|^~\\&|A|B|||20050110045504||ADT^A01|1|P|2.3\rPID|1\r"
    );
}

#[test]
fn invalid_bytes_decode_lossily() {
    let cfg = ListenConfig { ack_mode: AckMode::Ignore, ..success_config() };
    let mut state = ListenState::new();
    let mut bytes = frame("PID|");
    bytes.push(0xFF);
    let outcome = handle_frame(&cfg, &mut state, &bytes).unwrap();
    assert_eq!(outcome.text, "PID|\u{FFFD}");
}

#[test]
fn parse_failure_is_fatal_and_uncounted() {
    let cfg = success_config();
    let mut state = ListenState::new();
    assert!(handle_frame(&cfg, &mut state, &frame("garbage")).is_err());
    assert_eq!(state.received, 0);
}

#[test]
fn zero_wait_returns_no_reply_without_reading() {
    assert_eq!(plan_reply_wait(0), ReplyWait::NoReply);
    assert_eq!(plan_reply_wait(1), ReplyWait::AwaitFor(1));
    assert_eq!(plan_reply_wait(10_000), ReplyWait::AwaitFor(10_000));
}

#[test]
fn prepare_send_normalizes_and_trims() {
    let input = "MSH|^~\\&|A|B|||20050110045504||ADT^A01|1|P|2.3\nPID|1\n";
    let prepared = prepare_send(input, true, false).unwrap();
    assert_eq!(prepared, "MSH|^~\\&|A|B|||20050110045504||ADT^A01|1|P|2.3\rPID|1");
}

#[test]
fn prepare_send_strips_ansi_escapes() {
    let input = "\u{1b}[32mMSH|^~\\&|A|B|||20050110045504||ADT^A01|1|P|2.3\u{1b}[0m";
    let prepared = prepare_send(input, true, true).unwrap();
    assert_eq!(prepared, "MSH|^~\\&|A|B|||20050110045504||ADT^A01|1|P|2.3");
}

#[test]
fn prepare_send_trims_only_one_trailing_separator() {
    let input = "MSH|^~\\&|A|B|||20050110045504||ADT^A01|1|P|2.3\n\n";
    let prepared = prepare_send(input, true, true).unwrap();
    assert_eq!(prepared, "MSH|^~\\&|A|B|||20050110045504||ADT^A01|1|P|2.3\r");
}

#[test]
fn prepare_send_validates_unless_suppressed() {
    assert!(prepare_send("not hl7", true, false).is_err());
    assert_eq!(prepare_send("not hl7", true, true).unwrap(), "not hl7");
}

#[test]
fn reply_decoding_respects_no_parse() {
    let bytes = frame(INBOUND);
    match decode_reply(&bytes, true).unwrap() {
        ReplyContent::Raw(text) => assert_eq!(text, INBOUND),
        ReplyContent::Parsed(_) => panic!("no parse requested"),
    }
    match decode_reply(&bytes, false).unwrap() {
        ReplyContent::Parsed(m) => assert_eq!(m.source, INBOUND),
        ReplyContent::Raw(_) => panic!("parse requested"),
    }
    assert!(decode_reply(&frame("junk"), false).is_err());
}
