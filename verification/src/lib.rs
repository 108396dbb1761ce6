//! Frel core compiler library: the lexer, the recursive descent parser and
//! its syntax tree, the diagnostic system with its terminal rendering, and the
//! semantic model (types, scopes, symbols, module signatures, the instruction
//! registry and the type rules of operators).

use vstd::prelude::*;
use vstd::string::*;

pub mod text;
pub mod ast;
pub mod source;
pub mod lexer;
pub mod diagnostic;
pub mod error;
pub mod parser;
pub mod semantic;

pub use diagnostic::{Diagnostic, Diagnostics, Severity};
pub use error::{Error, Result};
pub use parser::ParseResult;
pub use source::{LineIndex, Span, Spanned};

verus! {

/// Compiler version
pub const VERSION: &'static str = "0.1.0";

/// Parse a Frel source file and return the AST with diagnostics; where no
/// file comes back, a diagnostic says why.
pub fn parse_file(source: &str) -> (r: ParseResult)
    requires
        source.spec_bytes().len() < u32::MAX,
    ensures
        r.file.is_none() ==> r.diagnostics@.len() > 0,
        parser::parsed_from(source, r.file),
{
    parser::parse(source)
}

/// Compile a Frel source file: for now, parse it. Returns the AST and any
/// diagnostics (errors, warnings).
pub fn compile(source: &str) -> (r: ParseResult)
    requires
        source.spec_bytes().len() < u32::MAX,
    ensures
        r.file.is_none() ==> r.diagnostics@.len() > 0,
        parser::parsed_from(source, r.file),
{
    parse_file(source)
}

} // verus!
