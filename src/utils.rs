use vstd::prelude::*;
use vstd::string::StringExecFns;
use crate::error::GrokError;
use crate::text::{between_spec, chars_of, find_from, string_of};

verus! {

/// The message of a missing start delimiter.
pub open spec fn start_missing_message(start: Seq<char>) -> Seq<char> {
    "Start delimiter '"@ + start + "' not found"@
}

/// The message of a missing end delimiter.
pub open spec fn end_missing_message(end: Seq<char>) -> Seq<char> {
    "End delimiter '"@ + end + "' not found"@
}

/// Helpers for scraping delimited values out of pages and responses.
pub struct Utils;

impl Utils {
    /// The text between the first `start` and the first `end` after it; an
    /// error naming the delimiter that is missing.
    pub fn between(text: &str, start: &str, end: &str) -> (r: Result<String, GrokError>)
        ensures
            match r {
                Ok(s) => between_spec(text@, start@, end@) == Some(s@),
                Err(e) => between_spec(text@, start@, end@) is None && (e matches GrokError::ParseError(m)
                    && m@ == if find_from(text@, start@, 0) is None {
                        start_missing_message(start@)
                    } else {
                        end_missing_message(end@)
                    }),
            },
    {
        let t = chars_of(text);
        let st = chars_of(start);
        match crate::text::between_exec(&t, &st, &chars_of(end)) {
            Some(v) => Ok(string_of(&v)),
            None => {
                if crate::text::find_from_exec(&t, &st, 0).is_none() {
                    let mut msg = String::from_str("Start delimiter '");
                    msg.append(start);
                    msg.append("' not found");
                    Err(GrokError::ParseError(msg))
                } else {
                    let mut msg = String::from_str("End delimiter '");
                    msg.append(end);
                    msg.append("' not found");
                    Err(GrokError::ParseError(msg))
                }
            },
        }
    }
}

} // verus!
