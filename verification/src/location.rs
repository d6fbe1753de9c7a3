//! How a front end names what it asks for: a place in the tracee, a kind of
//! breakpoint, a condition to watch for.

use std::convert::Infallible;
use vstd::prelude::*;
use vstd::string::StringExecFns;

use crate::symbols::same_text;
use crate::text::{chars_of, parse_u64};
use crate::watchpoint::WatchpointDataCondition;

verus! {

/// The number that `text` spells: in hexadecimal after `0x` or `0X`, in
/// decimal otherwise.
pub open spec fn maybe_hex_value(text: Seq<char>) -> Option<u64> {
    if text.len() >= 2 && text[0] == '0' && (text[1] == 'x' || text[1] == 'X') {
        parse_u64(text.skip(2), 16)
    } else {
        parse_u64(text, 10)
    }
}

/// Calls `clap_num::maybe_hex::<u64>`, which reads what follows a prefix
/// `0x` or `0X` with `u64::from_str_radix` in radix 16, and a text without
/// such a prefix in radix 10. `u64::from_str_radix` takes an optional `+`
/// and then one digit or more, and fails on everything else and on a number
/// that does not fit.
#[verifier::external_body]
fn maybe_hex(text: &str) -> (number: Option<u64>)
    ensures
        number == maybe_hex_value(text@),
{
    clap_num::maybe_hex::<u64>(text).ok()
}

/// The condition that a front end asks a data watchpoint to have.
#[derive(Debug, Clone, Copy, PartialEq, Eq)]
pub struct WatchCondition(pub WatchpointDataCondition);

impl WatchCondition {
    /// The condition that `text` names.
    pub open spec fn named(text: Seq<char>) -> Option<WatchpointDataCondition> {
        if text == "w"@ || text == "write"@ {
            Some(WatchpointDataCondition::Write)
        } else if text == "rw"@ || text == "read_write"@ {
            Some(WatchpointDataCondition::ReadWrite)
        } else {
            None
        }
    }

    /// Reads a condition: `w` or `write` for writes, `rw` or `read_write`
    /// for reads and writes. Anything else is refused, with a message that
    /// quotes it.
    pub fn from_str(s: &str) -> (condition: Result<WatchCondition, String>)
        ensures
            match WatchCondition::named(s@) {
                Some(found) => condition == Ok::<WatchCondition, String>(WatchCondition(found)),
                None => condition matches Err(message) && message@
                    == "Unknown data watchpoint condition "@ + s@,
            },
    {
        if same_text(s, "w") || same_text(s, "write") {
            Ok(WatchCondition(WatchpointDataCondition::Write))
        } else if same_text(s, "rw") || same_text(s, "read_write") {
            Ok(WatchCondition(WatchpointDataCondition::ReadWrite))
        } else {
            Err(String::from_str("Unknown data watchpoint condition ").concat(s))
        }
    }
}

/// The two kinds of breakpoint: a hardware slot, or a trap opcode in memory.
#[derive(Debug, Clone, Copy, PartialEq, Eq)]
pub enum BreakpointType {
    Hardware,
    Software,
}

impl BreakpointType {
    /// The kind that `text` names.
    pub open spec fn named(text: Seq<char>) -> Option<BreakpointType> {
        if text == "hardware"@ || text == "hard"@ || text == "h"@ {
            Some(BreakpointType::Hardware)
        } else if text == "software"@ || text == "soft"@ || text == "s"@ {
            Some(BreakpointType::Software)
        } else {
            None
        }
    }

    /// The name of the kind, as a front end shows it.
    pub fn name(&self) -> (name: &'static str)
        ensures
            name@ == match *self {
                BreakpointType::Hardware => "hardware"@,
                BreakpointType::Software => "software"@,
            },
    {
        match self {
            BreakpointType::Hardware => "hardware",
            BreakpointType::Software => "software",
        }
    }

    /// Reads a kind: `hardware`, `hard` or `h`, and `software`, `soft` or `s`.
    pub fn from_str(s: &str) -> (kind: Result<BreakpointType, &'static str>)
        ensures
            match BreakpointType::named(s@) {
                Some(found) => kind == Ok::<BreakpointType, &'static str>(found),
                None => kind matches Err(message) && message@
                    == "Unknown breakpoint type {other}"@,
            },
    {
        if same_text(s, "hardware") || same_text(s, "hard") || same_text(s, "h") {
            Ok(BreakpointType::Hardware)
        } else if same_text(s, "software") || same_text(s, "soft") || same_text(s, "s") {
            Ok(BreakpointType::Software)
        } else {
            Err("Unknown breakpoint type {other}")
        }
    }
}

/// A place in the tracee, as a front end names it.
#[derive(Debug, Clone, PartialEq, Eq)]
pub enum BreakpointLocation {
    /// A live address.
    Address(u64),
    /// An offset into the executable.
    TextOffset(u64),
    /// The name of a symbol of the executable.
    Symbol(String),
}

/// A location as mathematics.
pub ghost enum BreakpointLocationView {
    Address(u64),
    TextOffset(u64),
    Symbol(Seq<char>),
}

impl View for BreakpointLocation {
    type V = BreakpointLocationView;

    open spec fn view(&self) -> BreakpointLocationView {
        match *self {
            BreakpointLocation::Address(address) => BreakpointLocationView::Address(address),
            BreakpointLocation::TextOffset(offset) => BreakpointLocationView::TextOffset(offset),
            BreakpointLocation::Symbol(name) => BreakpointLocationView::Symbol(name@),
        }
    }
}

/// Whether `text` begins with `text:`.
pub open spec fn names_text_offset(text: Seq<char>) -> bool {
    text.len() >= 5 && text[0] == 't' && text[1] == 'e' && text[2] == 'x' && text[3] == 't'
        && text[4] == ':'
}

/// The location that `text` names: an offset into the executable if it is
/// `text:` and a number; else an address if it is a number; else a symbol.
/// A number is decimal, or hexadecimal after `0x`.
pub open spec fn parse_location(text: Seq<char>) -> BreakpointLocationView {
    if names_text_offset(text) && maybe_hex_value(text.skip(5)) is Some {
        BreakpointLocationView::TextOffset(maybe_hex_value(text.skip(5))->0)
    } else if maybe_hex_value(text) is Some {
        BreakpointLocationView::Address(maybe_hex_value(text)->0)
    } else {
        BreakpointLocationView::Symbol(text)
    }
}

impl BreakpointLocation {
    /// Reads a location. Every text names one: what is no number, with or
    /// without `text:` before it, is taken for the name of a symbol.
    pub fn from_str(s: &str) -> (location: Result<BreakpointLocation, Infallible>)
        ensures
            location matches Ok(found) && found@ == parse_location(s@),
    {
        let chars = chars_of(s);
        if chars.len() >= 5 && chars[0] == 't' && chars[1] == 'e' && chars[2] == 'x' && chars[3]
            == 't' && chars[4] == ':' {
            let rest = s.substring_char(5, chars.len());
            proof {
                assert(rest@ =~= s@.skip(5));
            }
            if let Some(offset) = maybe_hex(rest) {
                return Ok(BreakpointLocation::TextOffset(offset));
            }
        }
        match maybe_hex(s) {
            Some(address) => Ok(BreakpointLocation::Address(address)),
            None => Ok(BreakpointLocation::Symbol(s.to_owned())),
        }
    }
}

} // verus!
