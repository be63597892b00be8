//! Acknowledgment composition: negotiating basic vs. enhanced mode from the
//! inbound header's ack-request fields and building the reply text.
//!
//! The composed reply has two segments joined by CR: a header segment with
//! sender and receiver swapped relative to the inbound message, and an
//! acknowledgment segment carrying the accept/reject code and the inbound
//! control identifier.

use vstd::prelude::*;

use crate::fresh::{random_alphanumeric, spec_alnum, utc_timestamp};
use crate::message::{
    hl7_parse_ok, hl7_query_value, msg_text, parse_message, query_value, ParseIssue,
};
use crate::text::{free_of, str_eq};

verus! {

use vstd::string::StringExecFns;

/// Length of a freshly generated acknowledgment control identifier.
pub const CONTROL_ID_LEN: usize = 20;

/// How a listener answers inbound messages.
#[derive(Debug, Copy, Clone, PartialEq, Eq, Structural)]
pub enum AckMode {
    /// Do not parse inbound messages and never reply.
    Ignore,
    /// Parse inbound messages and acknowledge them as processed successfully.
    Success,
    /// Parse inbound messages and acknowledge them as failed.
    Error,
}

impl Default for AckMode {
    /// A listener acknowledges success unless told otherwise.
    fn default() -> (r: Self)
        ensures
            r == AckMode::Success,
    {
        AckMode::Success
    }
}

impl AckMode {
    /// The textual name of the mode, as written on a command line.
    pub fn label(&self) -> (r: String)
        ensures
            *self == AckMode::Ignore ==> r@ == "ignore"@,
            *self == AckMode::Success ==> r@ == "success"@,
            *self == AckMode::Error ==> r@ == "error"@,
    {
        match self {
            AckMode::Ignore => "ignore".to_owned(),
            AckMode::Success => "success".to_owned(),
            AckMode::Error => "error".to_owned(),
        }
    }
}

/// A commit-level acknowledgment request carried in one of the two
/// ack-request header fields.
#[derive(Debug, Copy, Clone, PartialEq, Eq, Structural)]
pub enum AckRequest {
    Always,
    Never,
    Success,
    Error,
}

/// Why an acknowledgment could not be generated.
#[derive(Debug)]
pub enum AckError {
    /// Acknowledgment generation was requested under [`AckMode::Ignore`].
    Ignore,
    /// The inbound message failed to parse.
    Parse(ParseIssue),
    /// An ack-request header field held an invalid literal.
    Protocol,
}

/// The reading of one ack-request field: `None` when the literal is
/// invalid, `Some(None)` when the field is empty, `Some(Some(_))` for one
/// of the four valid request codes.
pub open spec fn spec_ack_request(s: Seq<char>) -> Option<Option<AckRequest>> {
    if s.len() == 0 {
        Some(None)
    } else if s == "AL"@ {
        Some(Some(AckRequest::Always))
    } else if s == "NE"@ {
        Some(Some(AckRequest::Never))
    } else if s == "SU"@ {
        Some(Some(AckRequest::Success))
    } else if s == "ER"@ {
        Some(Some(AckRequest::Error))
    } else {
        None
    }
}

impl AckRequest {
    /// Read an ack-request field: empty means absent, and only the four
    /// request codes are valid.
    pub fn from_str(s: &str) -> (r: Result<Option<AckRequest>, AckError>)
        ensures
            spec_ack_request(s@) matches Some(v) ==> r == Ok::<Option<AckRequest>, AckError>(v),
            spec_ack_request(s@) is None ==> r matches Err(AckError::Protocol),
    {
        if s.is_empty() {
            Ok(None)
        } else if str_eq(s, "AL") {
            Ok(Some(AckRequest::Always))
        } else if str_eq(s, "NE") {
            Ok(Some(AckRequest::Never))
        } else if str_eq(s, "SU") {
            Ok(Some(AckRequest::Success))
        } else if str_eq(s, "ER") {
            Ok(Some(AckRequest::Error))
        } else {
            Err(AckError::Protocol)
        }
    }
}

/// The mathematical value of [`MshFields`].
#[verifier::ext_equal]
pub ghost struct MshFieldsView {
    pub sending_app: Seq<char>,
    pub sending_facility: Seq<char>,
    pub receiving_app: Seq<char>,
    pub receiving_facility: Seq<char>,
    pub trigger_event: Seq<char>,
    pub control_id: Seq<char>,
    pub processing_id: Seq<char>,
    pub version: Seq<char>,
    pub accept_ack: Seq<char>,
    pub application_ack: Seq<char>,
}

/// The header fields an acknowledgment is composed from, each empty when
/// absent from the inbound message.
pub struct MshFields {
    pub sending_app: String,
    pub sending_facility: String,
    pub receiving_app: String,
    pub receiving_facility: String,
    pub trigger_event: String,
    pub control_id: String,
    pub processing_id: String,
    pub version: String,
    pub accept_ack: String,
    pub application_ack: String,
}

impl View for MshFields {
    type V = MshFieldsView;

    open spec fn view(&self) -> MshFieldsView {
        MshFieldsView {
            sending_app: self.sending_app@,
            sending_facility: self.sending_facility@,
            receiving_app: self.receiving_app@,
            receiving_facility: self.receiving_facility@,
            trigger_event: self.trigger_event@,
            control_id: self.control_id@,
            processing_id: self.processing_id@,
            version: self.version@,
            accept_ack: self.accept_ack@,
            application_ack: self.application_ack@,
        }
    }
}

/// The queried value of a field, defaulting to empty when absent.
pub open spec fn field_or_empty(text: Seq<char>, query: Seq<char>) -> Seq<char> {
    match hl7_query_value(text, query) {
        Some(v) => v,
        None => Seq::empty(),
    }
}

/// The header fields of the message parsed from `text`.
pub open spec fn fields_of(text: Seq<char>) -> MshFieldsView {
    MshFieldsView {
        sending_app: field_or_empty(text, "MSH.3"@),
        sending_facility: field_or_empty(text, "MSH.4"@),
        receiving_app: field_or_empty(text, "MSH.5"@),
        receiving_facility: field_or_empty(text, "MSH.6"@),
        trigger_event: field_or_empty(text, "MSH.9.2"@),
        control_id: field_or_empty(text, "MSH.10"@),
        processing_id: field_or_empty(text, "MSH.11"@),
        version: field_or_empty(text, "MSH.12"@),
        accept_ack: field_or_empty(text, "MSH.15"@),
        application_ack: field_or_empty(text, "MSH.16"@),
    }
}

fn field_of(m: &hl7_parser::ParsedMessageOwned, query: &str) -> (r: String)
    ensures
        r@ == field_or_empty(msg_text(*m), query@),
{
    match query_value(m, query) {
        Some(v) => v,
        None => String::new(),
    }
}

/// Extract the header fields the acknowledgment depends on, each defaulting
/// to the empty string.
pub fn extract_msh_fields(m: &hl7_parser::ParsedMessageOwned) -> (f: MshFields)
    ensures
        f@ == fields_of(msg_text(*m)),
{
    let f = MshFields {
        sending_app: field_of(m, "MSH.3"),
        sending_facility: field_of(m, "MSH.4"),
        receiving_app: field_of(m, "MSH.5"),
        receiving_facility: field_of(m, "MSH.6"),
        trigger_event: field_of(m, "MSH.9.2"),
        control_id: field_of(m, "MSH.10"),
        processing_id: field_of(m, "MSH.11"),
        version: field_of(m, "MSH.12"),
        accept_ack: field_of(m, "MSH.15"),
        application_ack: field_of(m, "MSH.16"),
    };
    proof {
        assert(f@ =~= fields_of(msg_text(*m)));
    }
    f
}

/// Enhanced mode is negotiated iff either ack-request field is present.
pub open spec fn enhanced_of(f: MshFieldsView) -> bool {
    f.accept_ack.len() > 0 || f.application_ack.len() > 0
}

/// Both ack-request fields hold empty or valid literals.
pub open spec fn ack_requests_ok(f: MshFieldsView) -> bool {
    spec_ack_request(f.accept_ack) is Some && spec_ack_request(f.application_ack) is Some
}

/// The field separator.
pub open spec fn sep() -> Seq<char> {
    seq!['|']
}

/// The fixed head of the reply header segment: name, separator, and the
/// encoding characters.
pub open spec fn msh_head() -> Seq<char> {
    seq!['M', 'S', 'H', '|', '^', '~', '\\', '&', '|']
}

/// The reply's message-type field for an inbound trigger event.
pub open spec fn ack_type(trigger: Seq<char>) -> Seq<char> {
    seq!['A', 'C', 'K', '^'] + trigger + seq!['^', 'A', 'C', 'K']
}

/// The two-character acknowledgment code: commit- or application-level,
/// accept or error.
pub open spec fn ack_code(enhanced: bool, success: bool) -> Seq<char> {
    seq![
        if enhanced {
            'C'
        } else {
            'A'
        },
        if success {
            'A'
        } else {
            'E'
        },
    ]
}

/// The reply header segment: sender and receiver swapped relative to the
/// inbound fields, the fresh control identifier and timestamp, and the
/// inbound processing id and version copied over.
pub open spec fn ack_msh_segment(f: MshFieldsView, new_id: Seq<char>, ts: Seq<char>) -> Seq<char> {
    msh_head() + f.receiving_app + sep() + f.receiving_facility + sep() + f.sending_app + sep()
        + f.sending_facility + sep() + ts + sep() + sep() + ack_type(f.trigger_event) + sep()
        + new_id + sep() + f.processing_id + sep() + f.version
}

/// The acknowledgment segment: code, the inbound control identifier, and a
/// human-readable reason.
pub open spec fn ack_msa_segment(code: Seq<char>, control_id: Seq<char>, success: bool) -> Seq<
    char,
> {
    seq!['M', 'S', 'A', '|'] + code + sep() + control_id + sep() + (if success {
        "Message accepted"@
    } else {
        "Message rejected"@
    })
}

/// The complete reply text for inbound fields `f`.
pub open spec fn ack_message(f: MshFieldsView, success: bool, new_id: Seq<char>, ts: Seq<
    char,
>) -> Seq<char> {
    ack_msh_segment(f, new_id, ts) + seq!['\r'] + ack_msa_segment(
        ack_code(enhanced_of(f), success),
        f.control_id,
        success,
    )
}

/// A freshly generated control identifier: twenty ASCII letters or digits.
pub open spec fn is_control_id(s: Seq<char>) -> bool {
    s.len() == CONTROL_ID_LEN && forall|i: int| 0 <= i < s.len() ==> spec_alnum(s[i])
}

/// `s` is an acknowledgment for the message parsed from `text`: composed
/// from its fields with some fresh control identifier and some
/// separator-free timestamp.
pub open spec fn spec_generated_ack(text: Seq<char>, success: bool, s: Seq<char>) -> bool {
    exists|id: Seq<char>, ts: Seq<char>|
        is_control_id(id) && free_of(ts, '|') && free_of(ts, '\r') && s == #[trigger] ack_message(
            fields_of(text),
            success,
            id,
            ts,
        )
}

/// Compose the acknowledgment for a parsed inbound message from the given
/// control identifier and timestamp.
#[verifier::rlimit(100)]
pub fn compose_ack_with(
    m: &hl7_parser::ParsedMessageOwned,
    success: bool,
    new_control_id: &str,
    timestamp: &str,
) -> (r: Result<String, AckError>)
    ensures
        r.is_ok() <==> ack_requests_ok(fields_of(msg_text(*m))),
        r matches Ok(s) ==> s@ == ack_message(
            fields_of(msg_text(*m)),
            success,
            new_control_id@,
            timestamp@,
        ),
        r is Err ==> r matches Err(AckError::Protocol),
{
    let f = extract_msh_fields(m);
    let accept = match AckRequest::from_str(f.accept_ack.as_str()) {
        Ok(v) => v,
        Err(_) => {
            return Err(AckError::Protocol);
        },
    };
    let application = match AckRequest::from_str(f.application_ack.as_str()) {
        Ok(v) => v,
        Err(_) => {
            return Err(AckError::Protocol);
        },
    };
    let enhanced = accept.is_some() || application.is_some();
    proof {
        assert(enhanced == enhanced_of(f@));
    }
    let mut msh = String::new();
    msh.append("MSH|^~\\&|");
    msh.append(f.receiving_app.as_str());
    msh.append("|");
    msh.append(f.receiving_facility.as_str());
    msh.append("|");
    msh.append(f.sending_app.as_str());
    msh.append("|");
    msh.append(f.sending_facility.as_str());
    msh.append("|");
    msh.append(timestamp);
    msh.append("||ACK^");
    msh.append(f.trigger_event.as_str());
    msh.append("^ACK|");
    msh.append(new_control_id);
    msh.append("|");
    msh.append(f.processing_id.as_str());
    msh.append("|");
    msh.append(f.version.as_str());
    proof {
        reveal_strlit("MSH|^~\\&|");
        reveal_strlit("|");
        reveal_strlit("||ACK^");
        reveal_strlit("^ACK|");
        assert(msh@ =~= ack_msh_segment(f@, new_control_id@, timestamp@));
    }
    let mut msa = String::new();
    msa.append("MSA|");
    if enhanced {
        msa.append("C");
    } else {
        msa.append("A");
    }
    if success {
        msa.append("A");
    } else {
        msa.append("E");
    }
    msa.append("|");
    msa.append(f.control_id.as_str());
    msa.append("|");
    if success {
        msa.append("Message accepted");
    } else {
        msa.append("Message rejected");
    }
    proof {
        reveal_strlit("MSA|");
        reveal_strlit("|");
        reveal_strlit("C");
        reveal_strlit("A");
        reveal_strlit("E");
        assert(msa@ =~= ack_msa_segment(ack_code(enhanced, success), f.control_id@, success));
    }
    let mut out = msh;
    out.append("\r");
    out.append(msa.as_str());
    proof {
        reveal_strlit("\r");
        assert("\r"@ =~= seq!['\r']);
        assert(out@ == ack_message(fields_of(msg_text(*m)), success, new_control_id@, timestamp@));
    }
    Ok(out)
}

/// Compose the acknowledgment for a parsed inbound message, generating a
/// fresh control identifier and reading the UTC clock.
pub fn compose_ack(m: &hl7_parser::ParsedMessageOwned, success: bool) -> (r: Result<
    String,
    AckError,
>)
    ensures
        r.is_ok() <==> ack_requests_ok(fields_of(msg_text(*m))),
        r matches Ok(s) ==> spec_generated_ack(msg_text(*m), success, s@),
        r is Err ==> r matches Err(AckError::Protocol),
{
    let id = random_alphanumeric(CONTROL_ID_LEN);
    let ts = utc_timestamp();
    match compose_ack_with(m, success, id.as_str(), ts.as_str()) {
        Ok(s) => {
            proof {
                assert(is_control_id(id@) && free_of(ts@, '|') && free_of(ts@, '\r') && s@
                    == ack_message(fields_of(msg_text(*m)), success, id@, ts@));
            }
            Ok(s)
        },
        Err(e) => Err(e),
    }
}

/// Parse an inbound message and compose its acknowledgment according to the
/// mode: under [`AckMode::Ignore`] no acknowledgment is ever produced.
pub fn generate_ack(message: &str, ack_mode: AckMode) -> (r: Result<
    (String, hl7_parser::ParsedMessageOwned),
    AckError,
>)
    ensures
        ack_mode == AckMode::Ignore <==> r matches Err(AckError::Ignore),
        ack_mode != AckMode::Ignore ==> (r.is_ok() <==> hl7_parse_ok(message@) && ack_requests_ok(
            fields_of(message@),
        )),
        r matches Ok((s, m)) ==> msg_text(m) == message@ && spec_generated_ack(
            message@,
            ack_mode == AckMode::Success,
            s@,
        ),
        ack_mode != AckMode::Ignore && !hl7_parse_ok(message@) ==> r matches Err(
            AckError::Parse(_),
        ),
        ack_mode != AckMode::Ignore && hl7_parse_ok(message@) && !ack_requests_ok(
            fields_of(message@),
        ) ==> r matches Err(AckError::Protocol),
{
    match ack_mode {
        AckMode::Ignore => Err(AckError::Ignore),
        AckMode::Success | AckMode::Error => {
            let m = match parse_message(message) {
                Ok(m) => m,
                Err(e) => {
                    return Err(AckError::Parse(e));
                },
            };
            let success = match ack_mode {
                AckMode::Success => true,
                _ => false,
            };
            let ack = match compose_ack(&m, success) {
                Ok(a) => a,
                Err(e) => {
                    return Err(e);
                },
            };
            Ok((ack, m))
        },
    }
}

} // verus!
