//! Location-to-value mappings applied to a message before output.
//!
//! A mapping addresses a location and supplies a value: an explicit
//! string, the current local time, or an automatically chosen value (a
//! timestamp for the message-time field, a fresh control identifier for
//! the control-id field, a short random value elsewhere). Applying a
//! mapping substitutes the value for the addressed range of the message
//! text and re-parses the result.

use vstd::prelude::*;

use crate::ack::CONTROL_ID_LEN;
use crate::fresh::{local_timestamp, random_alphanumeric, spec_alnum};
use crate::location::{loc_parse, parse_location, Location, LocationView};
use crate::message::{
    has_segment, hl7_has_segment, hl7_parse_ok, hl7_query_range, message_source, msg_text,
    parse_message, query_range, ParseIssue,
};
use crate::text::str_eq;

verus! {

use vstd::string::StrSliceExecFns;
use vstd::string::StringExecFns;

/// The location of one repeat of one field of the header segment.
pub open spec fn msh_field_loc(field: int) -> LocationView {
    LocationView {
        segment: "MSH"@,
        field: Some(field),
        repeat: Some(1),
        component: None,
        sub_component: None,
    }
}

fn is_msh_field(loc: &Location, field: usize) -> (r: bool)
    ensures
        r == (loc@ == msh_field_loc(field as int)),
{
    let seg_ok = str_eq(loc.segment.as_str(), "MSH");
    let field_ok = match loc.field {
        Some(x) => x == field,
        None => false,
    };
    let repeat_ok = match loc.repeat {
        Some(x) => x == 1,
        None => false,
    };
    let comp_none = match loc.component {
        Some(_) => false,
        None => true,
    };
    let sub_none = match loc.sub_component {
        Some(_) => false,
        None => true,
    };
    let r = seg_ok && field_ok && repeat_ok && comp_none && sub_none;
    proof {
        if r {
            assert(loc@ =~= msh_field_loc(field as int));
        }
    }
    r
}

/// The location a mapping reads from.
#[derive(Debug, Clone)]
pub struct ValueMapFrom(pub Location);

/// The value a mapping writes.
#[derive(Debug, Clone)]
pub enum ValueMapTo {
    /// Choose a value fitting the location.
    Auto,
    /// The current local time.
    Now,
    /// The given string.
    Explicit(String),
}

/// One mapping: a location and the value to put there.
#[derive(Debug, Clone)]
pub struct ValueMap {
    pub from: ValueMapFrom,
    pub to: ValueMapTo,
}

impl ValueMapTo {
    /// Produce the value for `location`: the explicit string, a local
    /// timestamp, or an automatically chosen value — a timestamp for the
    /// message-time field, a fresh control identifier for the control-id
    /// field, and a short random value elsewhere.
    pub fn reify(&self, location: &Location) -> (r: String)
        ensures
            *self matches ValueMapTo::Explicit(s) ==> r@ == s@,
            *self matches ValueMapTo::Auto && location@ != msh_field_loc(7) && location@
                == msh_field_loc(10) ==> r@.len() == CONTROL_ID_LEN && (forall|i: int|
                0 <= i < r@.len() ==> spec_alnum(r@[i])),
            *self matches ValueMapTo::Auto && location@ != msh_field_loc(7) && location@
                != msh_field_loc(10) ==> r@.len() == 8 && (forall|i: int|
                0 <= i < r@.len() ==> spec_alnum(r@[i])),
    {
        match self {
            ValueMapTo::Auto => {
                if is_msh_field(location, 7) {
                    local_timestamp()
                } else if is_msh_field(location, 10) {
                    random_alphanumeric(CONTROL_ID_LEN)
                } else {
                    random_alphanumeric(8)
                }
            },
            ValueMapTo::Now => local_timestamp(),
            ValueMapTo::Explicit(s) => s.clone(),
        }
    }

    /// The textual form of the value side, as written on a command line.
    pub fn label(&self) -> (r: String)
        ensures
            *self matches ValueMapTo::Auto ==> r@ == "<auto>"@,
            *self matches ValueMapTo::Now ==> r@ == "<now>"@,
            *self matches ValueMapTo::Explicit(s) ==> r@ == s@,
    {
        match self {
            ValueMapTo::Auto => "<auto>".to_owned(),
            ValueMapTo::Now => "<now>".to_owned(),
            ValueMapTo::Explicit(s) => s.clone(),
        }
    }
}

/// The position of the first occurrence of `c` in `s`, if any.
pub open spec fn first_index_of(s: Seq<char>, c: char) -> Option<int>
    decreases s.len(),
{
    if s.len() == 0 {
        None
    } else if s[0] == c {
        Some(0)
    } else {
        match first_index_of(s.skip(1), c) {
            Some(i) => Some(i + 1),
            None => None,
        }
    }
}

proof fn lemma_first_index_found(s: Seq<char>, c: char, i: int)
    requires
        0 <= i < s.len(),
        s[i] == c,
        forall|j: int| 0 <= j < i ==> s[j] != c,
    ensures
        first_index_of(s, c) == Some(i),
    decreases i,
{
    if i == 0 {
    } else {
        assert(s[0] != c);
        assert(s.skip(1)[i - 1] == c);
        assert forall|j: int| 0 <= j < i - 1 implies s.skip(1)[j] != c by {
            assert(s.skip(1)[j] == s[j + 1]);
        }
        lemma_first_index_found(s.skip(1), c, i - 1);
    }
}

proof fn lemma_first_index_none(s: Seq<char>, c: char)
    requires
        forall|j: int| 0 <= j < s.len() ==> s[j] != c,
    ensures
        first_index_of(s, c) is None,
    decreases s.len(),
{
    if s.len() == 0 {
    } else {
        lemma_first_index_none(s.skip(1), c);
    }
}

/// `to` is the reading of the value text `t`: the two keywords name the
/// generated values, anything else is explicit.
pub open spec fn spec_map_to(t: Seq<char>, to: ValueMapTo) -> bool {
    if t == "<auto>"@ {
        to matches ValueMapTo::Auto
    } else if t == "<now>"@ {
        to matches ValueMapTo::Now
    } else {
        to matches ValueMapTo::Explicit(x) && x@ == t
    }
}

impl ValueMap {
    /// Parse `location=value`: the part before the first `=` is a
    /// location query, the part after it a value keyword or an explicit
    /// string.
    pub fn from_str(s: &str) -> (r: Result<ValueMap, String>)
        ensures
            r.is_ok() <==> (first_index_of(s@, '=') matches Some(i) && loc_parse(
                s@.subrange(0, i),
            ) is Some),
            r matches Ok(vm) ==> (first_index_of(s@, '=') matches Some(i) && loc_parse(
                s@.subrange(0, i),
            ) == Some(vm.from.0@) && vm.from.0.wf() && spec_map_to(
                s@.subrange(i + 1, s@.len() as int),
                vm.to,
            )),
            first_index_of(s@, '=') is None ==> (r matches Err(e) && e@ == "missing to"@),
    {
        let n = s.unicode_len();
        let mut i: usize = 0;
        let mut found = false;
        while !found && i < n
            invariant
                i <= n,
                n == s@.len(),
                forall|j: int| 0 <= j < i ==> s@[j] != '=',
                found ==> i < n && s@[i as int] == '=',
            decreases n - i, (if found {
                0int
            } else {
                1int
            }),
        {
            if s.get_char(i) == '=' {
                found = true;
            } else {
                i = i + 1;
            }
        }
        if !found {
            proof {
                lemma_first_index_none(s@, '=');
            }
            return Err("missing to".to_owned());
        }
        proof {
            lemma_first_index_found(s@, '=', i as int);
        }
        let from_txt = s.substring_char(0, i);
        let to_txt = s.substring_char(i + 1, n);
        let loc = match parse_location(from_txt) {
            Ok(l) => l,
            Err(e) => {
                return Err(e);
            },
        };
        let to = if str_eq(to_txt, "<auto>") {
            ValueMapTo::Auto
        } else if str_eq(to_txt, "<now>") {
            ValueMapTo::Now
        } else {
            ValueMapTo::Explicit(to_txt.to_owned())
        };
        Ok(ValueMap { from: ValueMapFrom(loc), to })
    }
}

/// Why applying mappings failed.
#[derive(Debug)]
pub enum MapError {
    /// The input text is not a valid message.
    Parse(ParseIssue),
    /// The text no longer parses after a substitution.
    Reparse(ParseIssue),
    /// The message text is not ASCII, so the parser's positions cannot be
    /// used as character positions.
    NotAscii,
}

/// `text` with `v` substituted for the range from `lo` to `hi`.
pub open spec fn spliced(text: Seq<char>, lo: int, hi: int, v: Seq<char>) -> Seq<char> {
    text.subrange(0, lo) + v + text.subrange(hi, text.len() as int)
}

/// `v` is a value `to` can produce for the location `loc`.
pub open spec fn reify_ok(to: ValueMapTo, loc: LocationView, v: Seq<char>) -> bool {
    match to {
        ValueMapTo::Explicit(s) => v == s@,
        ValueMapTo::Now => true,
        ValueMapTo::Auto => {
            if loc == msh_field_loc(7) {
                true
            } else {
                v.len() == (if loc == msh_field_loc(10) {
                    CONTROL_ID_LEN as int
                } else {
                    8
                }) && (forall|i: int| 0 <= i < v.len() ==> spec_alnum(v[i]))
            }
        },
    }
}

/// None of the mappings addresses a segment the message has: applying
/// them leaves the text unchanged.
pub open spec fn no_addressed_segments(text: Seq<char>, maps: Seq<ValueMap>) -> bool {
    forall|k: int|
        0 <= k < maps.len() ==> !#[trigger] hl7_has_segment(text, maps[k].from.0@.segment)
}

/// One mapping applied to `text` yields `out`: unchanged when the segment
/// or the addressed range is absent, otherwise a substitution of some
/// value the mapping can produce, after which the text still parses.
pub open spec fn map_step(
    text: Seq<char>,
    loc: LocationView,
    to: ValueMapTo,
    out: Seq<char>,
) -> bool {
    if !hl7_has_segment(text, loc.segment) {
        out == text
    } else {
        match hl7_query_range(text, loc) {
            None => out == text,
            Some((lo, hi)) => exists|v: Seq<char>|
                reify_ok(to, loc, v) && hl7_parse_ok(out) && out == #[trigger] spliced(
                    text,
                    lo as int,
                    hi as int,
                    v,
                ),
        }
    }
}

/// `mids` is the chain of texts the mappings pass through, from `text` to
/// `out`, each mapping stepping from one to the next.
pub open spec fn maps_applied_via(
    text: Seq<char>,
    maps: Seq<ValueMap>,
    mids: Seq<Seq<char>>,
    out: Seq<char>,
) -> bool {
    &&& mids.len() == maps.len() + 1
    &&& mids[0] == text
    &&& mids[maps.len() as int] == out
    &&& forall|k: int|
        0 <= k < maps.len() ==> map_step(mids[k], maps[k].from.0@, maps[k].to, #[trigger] mids[k + 1])
}

/// The mappings applied in order take `text` to `out` through some chain
/// of intermediate texts.
pub open spec fn maps_applied(text: Seq<char>, maps: Seq<ValueMap>, out: Seq<char>) -> bool {
    exists|mids: Seq<Seq<char>>| #[trigger] maps_applied_via(text, maps, mids, out)
}

/// Apply each mapping in order: skip those whose segment or addressed
/// range is absent, substitute the produced value otherwise, re-parsing
/// after every substitution.
pub fn apply_maps(message: hl7_parser::ParsedMessageOwned, maps: &Vec<ValueMap>) -> (r: Result<
    hl7_parser::ParsedMessageOwned,
    MapError,
>)
    ensures
        r matches Ok(m2) ==> maps_applied(msg_text(message), maps@, msg_text(m2)),
        no_addressed_segments(msg_text(message), maps@) ==> (r matches Ok(m2) && msg_text(m2)
            == msg_text(message)),
{
    let ghost text0 = msg_text(message);
    let mut cur = message;
    let mut idx: usize = 0;
    let ghost mut mids: Seq<Seq<char>> = seq![text0];
    while idx < maps.len()
        invariant
            text0 == msg_text(message),
            idx <= maps@.len(),
            mids.len() == idx + 1,
            mids[0] == text0,
            mids[idx as int] == msg_text(cur),
            forall|k: int|
                0 <= k < idx ==> map_step(mids[k], maps@[k].from.0@, maps@[k].to, #[trigger] mids[k
                    + 1]),
            no_addressed_segments(text0, maps@) ==> msg_text(cur) == text0,
        decreases maps@.len() - idx,
    {
        let mp = &maps[idx];
        let ghost pre_text = msg_text(cur);
        let ghost step_loc = maps@[idx as int].from.0@;
        let ghost step_to = maps@[idx as int].to;
        if has_segment(&cur, mp.from.0.segment.as_str()) {
            match query_range(&cur, &mp.from.0) {
                Some((lo, hi)) => {
                    proof {
                        if no_addressed_segments(text0, maps@) {
                            assert(!hl7_has_segment(text0, maps@[idx as int].from.0@.segment));
                            assert(false);
                        }
                    }
                    let src = message_source(&cur);
                    if !src.as_str().is_ascii() {
                        return Err(MapError::NotAscii);
                    }
                    let value = mp.to.reify(&mp.from.0);
                    let n = src.as_str().unicode_len();
                    let pre = src.as_str().substring_ascii(0, lo);
                    let post = src.as_str().substring_ascii(hi, n);
                    let mut ns = pre.to_owned();
                    ns.append(value.as_str());
                    ns.append(post);
                    match parse_message(ns.as_str()) {
                        Ok(m2) => {
                            proof {
                                assert(reify_ok(step_to, step_loc, value@));
                                assert(msg_text(m2) =~= spliced(
                                    pre_text,
                                    lo as int,
                                    hi as int,
                                    value@,
                                ));
                                assert(map_step(pre_text, step_loc, step_to, msg_text(m2)));
                                mids = mids.push(msg_text(m2));
                            }
                            cur = m2;
                        },
                        Err(e) => {
                            return Err(MapError::Reparse(e));
                        },
                    }
                },
                None => {
                    proof {
                        assert(map_step(pre_text, step_loc, step_to, pre_text));
                        mids = mids.push(pre_text);
                    }
                },
            }
        } else {
            proof {
                assert(map_step(pre_text, step_loc, step_to, pre_text));
                mids = mids.push(pre_text);
            }
        }
        idx = idx + 1;
    }
    proof {
        assert(maps_applied_via(text0, maps@, mids, msg_text(cur)));
    }
    Ok(cur)
}

/// Parse a message text, apply the mappings, and return the resulting
/// text.
pub fn apply_maps_text(text: &str, maps: &Vec<ValueMap>) -> (r: Result<String, MapError>)
    ensures
        !hl7_parse_ok(text@) ==> r matches Err(MapError::Parse(_)),
        r matches Ok(out) ==> hl7_parse_ok(text@) && maps_applied(text@, maps@, out@),
        hl7_parse_ok(text@) && no_addressed_segments(text@, maps@) ==> (r matches Ok(out)
            && out@ == text@),
{
    let m = match parse_message(text) {
        Ok(m) => m,
        Err(e) => {
            return Err(MapError::Parse(e));
        },
    };
    match apply_maps(m, maps) {
        Ok(m2) => Ok(message_source(&m2)),
        Err(e) => Err(e),
    }
}

} // verus!

