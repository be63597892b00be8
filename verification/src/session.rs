//! Session logic for the two transport roles.
//!
//! The outbound role prepares and validates one message, sends one frame,
//! and waits a bounded time for at most one reply. The inbound role counts
//! messages across connections, answers each frame according to the
//! acknowledgment mode, and stops once a configured message count is
//! reached. All I/O stays with the caller; these functions decide what the
//! caller writes, reads and keeps.
//!
//! Outbound text is trimmed of one trailing CR before validation; inbound
//! text deliberately is not, mirroring the asymmetry of the reference
//! behavior.

use vstd::prelude::*;

use crate::ack::{
    ack_requests_ok, fields_of, generate_ack, spec_generated_ack, AckError, AckMode,
};
use crate::message::{hl7_parse_ok, msg_text, parse_message};
use crate::text::{
    correct_newlines, normalize_spec, strip_ansi, stripped_of, trim_trailing_cr,
    trim_trailing_cr_spec,
};

verus! {

/// What `String::from_utf8_lossy` yields on `bytes`: the decoded text,
/// with invalid sequences replaced, a deterministic function of the bytes.
pub uninterp spec fn lossy_of(bytes: Seq<u8>) -> Seq<char>;

/// Relies on `String::from_utf8_lossy`: decodes a frame's bytes to text,
/// substituting the replacement character for invalid UTF-8.
#[verifier::external_body]
pub(crate) fn decode_lossy(bytes: &Vec<u8>) -> (r: String)
    ensures
        r@ == lossy_of(bytes@),
{
    String::from_utf8_lossy(bytes.as_slice()).into_owned()
}

/// The text an outbound message is sent as: ANSI escapes stripped,
/// separators normalized unless disabled, one trailing CR trimmed.
pub open spec fn outbound_text(input: Seq<char>, correct: bool) -> Seq<char> {
    trim_trailing_cr_spec(
        if correct {
            normalize_spec(stripped_of(input))
        } else {
            stripped_of(input)
        },
    )
}

/// Prepare one outbound message: strip ANSI escapes, normalize separators
/// unless disabled, trim one trailing CR, and then, unless validation is
/// suppressed, require the result to parse before any I/O is attempted.
pub fn prepare_send(input: &str, correct: bool, no_parse: bool) -> (r: Result<String, AckError>)
    ensures
        r.is_ok() <==> no_parse || hl7_parse_ok(outbound_text(input@, correct)),
        r matches Ok(s) ==> s@ == outbound_text(input@, correct),
        r is Err ==> r matches Err(AckError::Parse(_)),
{
    let stripped = strip_ansi(input);
    let corrected = if correct {
        correct_newlines(stripped.as_str())
    } else {
        stripped
    };
    let prepared = trim_trailing_cr(corrected.as_str());
    if !no_parse {
        match parse_message(prepared.as_str()) {
            Ok(_m) => {},
            Err(e) => {
                return Err(AckError::Parse(e));
            },
        }
    }
    Ok(prepared)
}

/// Whether the sender waits for a reply at all.
#[derive(Debug, Copy, Clone, PartialEq, Eq, Structural)]
pub enum ReplyWait {
    /// Report "no reply" immediately; no read is issued.
    NoReply,
    /// Read at most one frame, racing the given deadline in milliseconds.
    AwaitFor(u64),
}

/// Decide the bounded wait for a reply: a zero wait time skips the network
/// read entirely and yields "no reply" at once.
pub fn plan_reply_wait(wait_millis: u64) -> (r: ReplyWait)
    ensures
        wait_millis == 0 ==> r == ReplyWait::NoReply,
        wait_millis > 0 ==> r == ReplyWait::AwaitFor(wait_millis),
{
    if wait_millis == 0 {
        ReplyWait::NoReply
    } else {
        ReplyWait::AwaitFor(wait_millis)
    }
}

/// A received reply, decoded and, unless suppressed, parsed.
pub enum ReplyContent {
    /// The decoded reply text, kept unparsed.
    Raw(String),
    /// The reply, parsed as a message.
    Parsed(hl7_parser::ParsedMessageOwned),
}

/// Decode the reply frame's bytes; unless parsing is suppressed, the reply
/// must parse as a message.
pub fn decode_reply(bytes: &Vec<u8>, no_parse: bool) -> (r: Result<ReplyContent, AckError>)
    ensures
        no_parse ==> (r matches Ok(ReplyContent::Raw(t)) && t@ == lossy_of(bytes@)),
        !no_parse ==> (r.is_ok() <==> hl7_parse_ok(lossy_of(bytes@))),
        !no_parse ==> (r matches Ok(c) ==> (c matches ReplyContent::Parsed(m) && msg_text(m)
            == lossy_of(bytes@))),
        r is Err ==> r matches Err(AckError::Parse(_)),
{
    let text = decode_lossy(bytes);
    if no_parse {
        Ok(ReplyContent::Raw(text))
    } else {
        match parse_message(text.as_str()) {
            Ok(m) => Ok(ReplyContent::Parsed(m)),
            Err(e) => Err(AckError::Parse(e)),
        }
    }
}

/// Listener configuration, fixed for the lifetime of one listen session.
pub struct ListenConfig {
    /// How inbound messages are acknowledged.
    pub ack_mode: AckMode,
    /// Stop after this many messages, when set.
    pub message_count: Option<usize>,
    /// Normalize inbound segment separators unless disabled.
    pub correct_newlines: bool,
}

/// Listener state that persists across connections.
pub struct ListenState {
    /// Messages fully processed so far.
    pub received: usize,
}

impl ListenState {
    /// A fresh session: nothing received yet.
    pub fn new() -> (s: Self)
        ensures
            s.received == 0,
    {
        ListenState { received: 0 }
    }
}

/// What the listener does with one received frame.
pub struct FrameOutcome {
    /// The decoded (and, unless disabled, normalized) message text.
    pub text: String,
    /// The reply to write back, if any.
    pub reply: Option<String>,
    /// The parsed message, when the mode required parsing.
    pub parsed: Option<hl7_parser::ParsedMessageOwned>,
    /// Whether the configured message count is now reached and the
    /// listener must stop accepting connections.
    pub done: bool,
}

/// The received-message counter after one more message: one step short of
/// saturation, which the termination predicate is indifferent to.
pub open spec fn bump(n: usize) -> usize {
    if n < usize::MAX {
        (n + 1) as usize
    } else {
        n
    }
}

/// The text a received frame is processed as.
pub open spec fn inbound_text(bytes: Seq<u8>, correct: bool) -> Seq<char> {
    if correct {
        normalize_spec(lossy_of(bytes))
    } else {
        lossy_of(bytes)
    }
}

/// Process one received frame: decode it, consult the acknowledgment mode,
/// and count it. Under `AckMode::Ignore` nothing is parsed and no reply is
/// ever produced. An acknowledgment failure leaves the count untouched and
/// is fatal to the listen session, as in the reference behavior.
pub fn handle_frame(cfg: &ListenConfig, state: &mut ListenState, bytes: &Vec<u8>) -> (r: Result<
    FrameOutcome,
    AckError,
>)
    ensures
        cfg.ack_mode == AckMode::Ignore ==> r.is_ok(),
        cfg.ack_mode != AckMode::Ignore ==> (r.is_ok() <==> hl7_parse_ok(
            inbound_text(bytes@, cfg.correct_newlines),
        ) && ack_requests_ok(fields_of(inbound_text(bytes@, cfg.correct_newlines)))),
        r matches Ok(o) ==> {
            &&& o.text@ == inbound_text(bytes@, cfg.correct_newlines)
            &&& (cfg.ack_mode == AckMode::Ignore ==> o.reply is None && o.parsed is None)
            &&& (cfg.ack_mode != AckMode::Ignore ==> (o.reply matches Some(s)
                && spec_generated_ack(
                inbound_text(bytes@, cfg.correct_newlines),
                cfg.ack_mode == AckMode::Success,
                s@,
            )))
            &&& (cfg.ack_mode != AckMode::Ignore ==> (o.parsed matches Some(m) && msg_text(m)
                == inbound_text(bytes@, cfg.correct_newlines)))
            &&& final(state).received == bump(old(state).received)
            &&& (o.done <==> (cfg.message_count matches Some(n) && final(state).received >= n))
        },
        cfg.ack_mode != AckMode::Ignore && !hl7_parse_ok(
            inbound_text(bytes@, cfg.correct_newlines),
        ) ==> r matches Err(AckError::Parse(_)),
        r is Err ==> *final(state) == *old(state),
{
    let raw = decode_lossy(bytes);
    let text = if cfg.correct_newlines {
        correct_newlines(raw.as_str())
    } else {
        raw
    };
    let (reply, parsed) = match cfg.ack_mode {
        AckMode::Ignore => (None, None),
        AckMode::Success | AckMode::Error => {
            match generate_ack(text.as_str(), cfg.ack_mode) {
                Ok((ack, m)) => (Some(ack), Some(m)),
                Err(e) => {
                    return Err(e);
                },
            }
        },
    };
    let received = if state.received < usize::MAX {
        state.received + 1
    } else {
        state.received
    };
    state.received = received;
    let done = match cfg.message_count {
        Some(n) => received >= n,
        None => false,
    };
    Ok(FrameOutcome { text, reply, parsed, done })
}

} // verus!
