//! ANSI color codes for terminal output

use vstd::prelude::*;
use crate::diagnostic::Severity;

verus! {

pub const RESET: &'static str = "\x1b[0m";
pub const BOLD: &'static str = "\x1b[1m";
pub const RED: &'static str = "\x1b[31m";
pub const YELLOW: &'static str = "\x1b[33m";
pub const BLUE: &'static str = "\x1b[34m";
pub const CYAN: &'static str = "\x1b[36m";
pub const GREEN: &'static str = "\x1b[32m";

/// The color of a severity level, as text.
pub open spec fn severity_color(severity: Severity) -> Seq<char> {
    match severity {
        Severity::Error => RED@,
        Severity::Warning => YELLOW@,
        Severity::Info => BLUE@,
        Severity::Hint => CYAN@,
    }
}

/// Get the color for a severity level
pub fn for_severity(severity: Severity) -> (r: &'static str)
    ensures
        r@ == severity_color(severity),
{
    match severity {
        Severity::Error => RED,
        Severity::Warning => YELLOW,
        Severity::Info => BLUE,
        Severity::Hint => CYAN,
    }
}

} // verus!
