//! Compiler errors that are reported as a single value (as opposed to the
//! diagnostics collected during a pass).

use vstd::prelude::*;
use crate::text::{decimal, push_decimal, push_str};

verus! {

#[verifier::external_type_specification]
#[verifier::external_body]
pub struct ExIoError(std::io::Error);

/// Result type alias for Frel compiler operations
pub type Result<T> = std::result::Result<T, Error>;

/// Compiler errors
#[derive(Debug)]
pub enum Error {
    /// Parse error
    ParseError(String),

    /// Semantic analysis error
    SemanticError {
        message: String,
        location: Option<Location>,
    },

    /// Type checking error
    TypeError {
        message: String,
        location: Option<Location>,
    },

    /// IO error
    IoError(std::io::Error),
}

/// Source code location
#[derive(Debug, Clone)]
pub struct Location {
    pub file: String,
    pub line: usize,
    pub column: usize,
}

/// `file:line:column`
pub open spec fn location_text(loc: Location) -> Seq<char> {
    loc.file@ + ":"@ + decimal(loc.line as nat) + ":"@ + decimal(loc.column as nat)
}

/// The text of an error with an optional location, under a given title.
pub open spec fn located_text(title: Seq<char>, message: Seq<char>, location: Option<Location>) -> Seq<char> {
    match location {
        Some(loc) => title + " at "@ + location_text(loc) + ": "@ + message,
        None => title + ": "@ + message,
    }
}

/// The text of the operating-system error (its `Display` form).
#[verifier::external_body]
fn io_error_text(err: &std::io::Error) -> String {
    err.to_string()
}

fn push_located(out: &mut String, title: &str, message: &String, location: &Option<Location>)
    ensures
        final(out)@ == old(out)@ + located_text(title@, message@, *location),
{
    push_str(out, title);
    match location {
        Some(loc) => {
            push_str(out, " at ");
            push_str(out, loc.file.as_str());
            push_str(out, ":");
            push_decimal(out, loc.line);
            push_str(out, ":");
            push_decimal(out, loc.column);
            push_str(out, ": ");
            push_str(out, message.as_str());
            proof {
                assert(out@ =~= old(out)@ + located_text(title@, message@, *location));
            }
        },
        None => {
            push_str(out, ": ");
            push_str(out, message.as_str());
            proof {
                assert(out@ =~= old(out)@ + located_text(title@, message@, *location));
            }
        },
    }
}

impl Error {
    /// The human-readable message of this error (what `Display` prints).
    ///
    /// For `IoError` the text is the operating system's message, of which
    /// nothing is stated here beyond its `"IO error: "` prefix.
    pub fn message(&self) -> (r: String)
        ensures
            match self {
                Error::ParseError(msg) => r@ == "Parse error: "@ + msg@,
                Error::SemanticError { message, location } =>
                    r@ == located_text("Semantic error"@, message@, *location),
                Error::TypeError { message, location } =>
                    r@ == located_text("Type error"@, message@, *location),
                Error::IoError(_) => r@.len() >= "IO error: "@.len()
                    && r@.subrange(0, "IO error: "@.len() as int) == "IO error: "@,
            },
    {
        let mut out = String::new();
        match self {
            Error::ParseError(msg) => {
                push_str(&mut out, "Parse error: ");
                push_str(&mut out, msg.as_str());
            },
            Error::SemanticError { message, location } => {
                push_located(&mut out, "Semantic error", message, location);
            },
            Error::TypeError { message, location } => {
                push_located(&mut out, "Type error", message, location);
            },
            Error::IoError(err) => {
                push_str(&mut out, "IO error: ");
                let text = io_error_text(err);
                let ghost prefix = out@;
                push_str(&mut out, text.as_str());
                proof {
                    assert(out@.subrange(0, prefix.len() as int) =~= prefix);
                }
            },
        }
        out
    }

    /// Wraps an operating-system error.
    pub fn from_io(err: std::io::Error) -> (r: Self)
        ensures
            r == Error::IoError(err),
    {
        Error::IoError(err)
    }
}

impl From<std::io::Error> for Error {
    fn from(err: std::io::Error) -> (r: Self) {
        Error::IoError(err)
    }
}

impl vstd::std_specs::convert::FromSpecImpl<std::io::Error> for Error {
    open spec fn obeys_from_spec() -> bool {
        true
    }

    open spec fn from_spec(v: std::io::Error) -> Self {
        Error::IoError(v)
    }
}

} // verus!
