//! Trusted interface to the message grammar parser of the `hl7-parser`
//! crate.
//!
//! A parsed message is opaque here; everything the library states about one
//! goes through `msg_text`, the source text it was parsed from. Parsing and
//! querying are deterministic functions of that text, which is what lets the
//! results be named by uninterpreted spec functions.

use vstd::prelude::*;

use crate::location::{Location, LocationView};

verus! {

#[verifier::external_type_specification]
#[verifier::external_body]
pub struct ExParsedMessageOwned(hl7_parser::ParsedMessageOwned);

/// Whether `hl7-parser` accepts `text` as a structurally valid message,
/// with strict (CR-only) segment separators.
pub uninterp spec fn hl7_parse_ok(text: Seq<char>) -> bool;

/// The source text a parsed message was built from.
pub uninterp spec fn msg_text(m: hl7_parser::ParsedMessageOwned) -> Seq<char>;

/// What `query_value` yields for the message parsed from `text` under the
/// textual query `query`: the addressed value, or `None` when the query is
/// invalid or the addressed item is absent.
pub uninterp spec fn hl7_query_value(text: Seq<char>, query: Seq<char>) -> Option<Seq<char>>;

/// Whether the message parsed from `text` contains a segment named
/// `segment`.
pub uninterp spec fn hl7_has_segment(text: Seq<char>, segment: Seq<char>) -> bool;

/// What `query` yields for the message parsed from `text` at location
/// `loc`: the start and end positions in `text` of the addressed item, or
/// `None` when it is absent.
pub uninterp spec fn hl7_query_range(text: Seq<char>, loc: LocationView) -> Option<(usize, usize)>;

/// Why a text was rejected by the message parser.
#[derive(Debug)]
pub enum ParseIssue {
    /// The parse failed at the given position.
    Failed { position: usize, line: usize, column: usize, fragment: String },
    /// The input ended too early; more characters were needed.
    Incomplete(Option<usize>),
}

/// Relies on `hl7_parser::ParsedMessageOwned::parse` with strict segment
/// separators: deterministically accepts or rejects `text`, and a parsed
/// message keeps `text` as its source.
#[verifier::external_body]
pub(crate) fn parse_message(text: &str) -> (r: Result<
    hl7_parser::ParsedMessageOwned,
    ParseIssue,
>)
    ensures
        r.is_ok() == hl7_parse_ok(text@),
        r matches Ok(m) ==> msg_text(m) == text@,
{
    match hl7_parser::ParsedMessageOwned::parse(text, false) {
        Ok(m) => Ok(m),
        Err(hl7_parser::ParseError::FailedToParse { position, line, column, fragment }) => Err(
            ParseIssue::Failed { position, line, column, fragment },
        ),
        Err(hl7_parser::ParseError::IncompleteInput(n)) => Err(ParseIssue::Incomplete(n)),
    }
}

/// Relies on `hl7_parser::ParsedMessageOwned::query_value`: querying is a
/// deterministic function of the message source and the query text.
#[verifier::external_body]
pub(crate) fn query_value(m: &hl7_parser::ParsedMessageOwned, query: &str) -> (r: Option<String>)
    ensures
        r is Some <==> hl7_query_value(msg_text(*m), query@) is Some,
        r matches Some(s) ==> hl7_query_value(msg_text(*m), query@) == Some(s@),
{
    match m.query_value(query) {
        Ok(v) => v.map(|s| s.to_string()),
        Err(_e) => None,
    }
}

/// Relies on `hl7_parser::ParsedMessageOwned::has_segment`: a deterministic
/// lookup of the segment name among the parsed segments.
#[verifier::external_body]
pub(crate) fn has_segment(m: &hl7_parser::ParsedMessageOwned, segment: &str) -> (r: bool)
    ensures
        r == hl7_has_segment(msg_text(*m), segment@),
{
    m.has_segment(segment)
}

/// Relies on `hl7_parser::ParsedMessageOwned::query`: the returned range is
/// a byte range lying within the source text, so in ASCII text it is a
/// valid character range.
#[verifier::external_body]
pub(crate) fn query_range(m: &hl7_parser::ParsedMessageOwned, loc: &Location) -> (r: Option<
    (usize, usize),
>)
    ensures
        r == hl7_query_range(msg_text(*m), loc@),
        r matches Some((lo, hi)) ==> lo <= hi && (vstd::utf8::is_ascii_chars(msg_text(*m))
            ==> hi <= msg_text(*m).len()),
{
    let q = hl7_parser::LocationQuery {
        segment: loc.segment.clone(),
        field: loc.field.and_then(std::num::NonZeroUsize::new),
        repeat: loc.repeat.and_then(std::num::NonZeroUsize::new),
        component: loc.component.and_then(std::num::NonZeroUsize::new),
        sub_component: loc.sub_component.and_then(std::num::NonZeroUsize::new),
    };
    let r: Result<Option<std::ops::Range<usize>>, std::convert::Infallible> = m.query(&q);
    match r {
        Ok(range) => range.map(|x| (x.start, x.end)),
        Err(_e) => None,
    }
}

/// Relies on the `source` field of `hl7_parser::ParsedMessageOwned`: the
/// text the message was parsed from.
#[verifier::external_body]
pub(crate) fn message_source(m: &hl7_parser::ParsedMessageOwned) -> (r: String)
    ensures
        r@ == msg_text(*m),
{
    m.source.clone()
}

} // verus!
