//! Locations within a message: a segment identifier plus optional 1-based
//! field, repeat, component and sub-component indices.
//!
//! This mirrors the location queries of the `hl7-parser` crate as plain
//! values, so that logic over locations can be verified; parsing a textual
//! query is delegated to that crate behind a trusted wrapper.

use std::str::FromStr;
use vstd::prelude::*;

verus! {

/// The mathematical value of a [`Location`].
#[verifier::ext_equal]
pub ghost struct LocationView {
    pub segment: Seq<char>,
    pub field: Option<int>,
    pub repeat: Option<int>,
    pub component: Option<int>,
    pub sub_component: Option<int>,
}

/// A location within a message, as plain values.
#[derive(Debug, Clone)]
pub struct Location {
    pub segment: String,
    pub field: Option<usize>,
    pub repeat: Option<usize>,
    pub component: Option<usize>,
    pub sub_component: Option<usize>,
}

pub open spec fn index_view(v: Option<usize>) -> Option<int> {
    match v {
        Some(x) => Some(x as int),
        None => None,
    }
}

impl View for Location {
    type V = LocationView;

    open spec fn view(&self) -> LocationView {
        LocationView {
            segment: self.segment@,
            field: index_view(self.field),
            repeat: index_view(self.repeat),
            component: index_view(self.component),
            sub_component: index_view(self.sub_component),
        }
    }
}

impl Location {
    /// All indices present are 1-based, hence nonzero.
    pub open spec fn wf(&self) -> bool {
        &&& (self@.field matches Some(f) ==> f >= 1)
        &&& (self@.repeat matches Some(r) ==> r >= 1)
        &&& (self@.component matches Some(c) ==> c >= 1)
        &&& (self@.sub_component matches Some(s) ==> s >= 1)
    }

    /// A location addressing one repeat of one field of a segment, as the
    /// query grammar would produce for `SEG.f[r]`.
    pub fn new_field_repeat(segment: &str, field: usize, repeat: usize) -> (r: Option<Location>)
        ensures
            r is Some <==> field >= 1 && repeat >= 1,
            r matches Some(l) ==> l@ =~= (LocationView {
                segment: segment@,
                field: Some(field as int),
                repeat: Some(repeat as int),
                component: None,
                sub_component: None,
            }) && l.wf(),
    {
        if field >= 1 && repeat >= 1 {
            Some(
                Location {
                    segment: segment.to_owned(),
                    field: Some(field),
                    repeat: Some(repeat),
                    component: None,
                    sub_component: None,
                },
            )
        } else {
            None
        }
    }
}

/// What `hl7_parser::LocationQuery::from_str` yields on `s`: the parsed
/// location, or `None` when `s` is not a valid location query.
pub uninterp spec fn loc_parse(s: Seq<char>) -> Option<LocationView>;

/// Relies on `hl7_parser::LocationQuery::from_str`: parses a textual
/// location query ("MSH.9.2") into its segment identifier and 1-based
/// (hence nonzero) indices; the grammar always supplies a repeat index.
#[verifier::external_body]
pub(crate) fn parse_location(s: &str) -> (r: Result<Location, String>)
    ensures
        r.is_ok() == (loc_parse(s@) is Some),
        r matches Ok(l) ==> loc_parse(s@) == Some(l@) && l.wf(),
{
    match hl7_parser::LocationQuery::from_str(s) {
        Ok(q) => Ok(
            Location {
                segment: q.segment,
                field: q.field.map(|v| v.get()),
                repeat: q.repeat.map(|v| v.get()),
                component: q.component.map(|v| v.get()),
                sub_component: q.sub_component.map(|v| v.get()),
            },
        ),
        Err(e) => Err(e),
    }
}

} // verus!
