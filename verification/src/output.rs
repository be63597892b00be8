//! The output formats a message can be rendered in.

use vstd::prelude::*;

use crate::text::{lower_ascii, lower_char_spec, str_eq};

verus! {

use vstd::string::StringExecFns;

/// How a message is written out: as message text, as JSON, or as a table
/// of field names and values.
#[derive(Debug, Copy, Clone, PartialEq, Eq, Structural)]
pub enum OutputMode {
    HL7,
    Json,
    Table,
}

impl Default for OutputMode {
    /// Messages are printed as message text unless told otherwise.
    fn default() -> (r: Self)
        ensures
            r == OutputMode::HL7,
    {
        OutputMode::HL7
    }
}

/// The mode named by `s`, compared without regard to ASCII case; `None`
/// when `s` names no mode.
pub open spec fn spec_output_mode(s: Seq<char>) -> Option<OutputMode> {
    let lower = s.map_values(|c: char| lower_char_spec(c));
    if lower == "hl7"@ {
        Some(OutputMode::HL7)
    } else if lower == "json"@ {
        Some(OutputMode::Json)
    } else if lower == "table"@ {
        Some(OutputMode::Table)
    } else {
        None
    }
}

impl OutputMode {
    /// Parse a mode name, ignoring ASCII case; anything else is an error
    /// naming the rejected input.
    pub fn from_str(s: &str) -> (r: Result<OutputMode, String>)
        ensures
            spec_output_mode(s@) matches Some(m) ==> r == Ok::<OutputMode, String>(m),
            spec_output_mode(s@) is None ==> (r matches Err(e) && e@ == "invalid output mode: "@
                + s@),
    {
        let lower = lower_ascii(s);
        if str_eq(lower.as_str(), "hl7") {
            Ok(OutputMode::HL7)
        } else if str_eq(lower.as_str(), "json") {
            Ok(OutputMode::Json)
        } else if str_eq(lower.as_str(), "table") {
            Ok(OutputMode::Table)
        } else {
            let mut msg = "invalid output mode: ".to_owned();
            msg.append(s);
            Err(msg)
        }
    }

    /// The textual name of the mode, as written on a command line.
    pub fn label(&self) -> (r: String)
        ensures
            *self == OutputMode::HL7 ==> r@ == "hl7"@,
            *self == OutputMode::Json ==> r@ == "json"@,
            *self == OutputMode::Table ==> r@ == "table"@,
    {
        match self {
            OutputMode::HL7 => "hl7".to_owned(),
            OutputMode::Json => "json".to_owned(),
            OutputMode::Table => "table".to_owned(),
        }
    }
}

} // verus!
