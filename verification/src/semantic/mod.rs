//! Semantic analysis: types, scopes, symbols, module signatures, type
//! checking rules, the instruction registry, and the result of an analysis
//! with its DUMP format.

pub mod dump;
pub mod instructions;
pub mod scope;
pub mod signature;
pub mod symbol;
pub mod typecheck;
pub mod types;

use vstd::prelude::*;
use crate::ast;
use crate::diagnostic::{count_severity, law_has_errors_iff_error_count, Diagnostics, Severity};
use crate::source::Span;
use self::scope::ScopeGraph;
use self::symbol::{SymbolId, SymbolTable};
use self::types::Type;

pub use self::dump::dump as dump_semantic;

verus! {

/// A module compilation unit (one or more files with the same module declaration)
#[derive(Debug)]
pub struct Module {
    /// Module path (e.g., "test.data")
    pub path: String,
    /// Files that make up this module
    pub files: Vec<ast::File>,
}

impl Module {
    /// Create a new module from a single file; the module takes the file's path
    pub fn from_file(file: ast::File) -> (r: Self)
        ensures
            r.path@ == file.module@,
            r.files@ == seq![file],
    {
        let path = file.module.clone();
        let mut files = Vec::new();
        files.push(file);
        Module { path, files }
    }

    /// Create a new module from multiple files, which should all declare `path`
    pub fn from_files(path: String, files: Vec<ast::File>) -> (r: Self)
        ensures
            r.path == path,
            r.files == files,
    {
        Module { path, files }
    }

    /// Add a file to this module
    pub fn add_file(&mut self, file: ast::File)
        ensures
            final(self).path == old(self).path,
            final(self).files@ == old(self).files@.push(file),
    {
        self.files.push(file);
    }
}

/// The value recorded for `span`: that of the first entry for it.
pub open spec fn entry_for<T>(entries: Seq<(Span, T)>, span: Span) -> Option<T>
    decreases entries.len(),
{
    if entries.len() == 0 {
        None
    } else if entries[0].0 == span {
        Some(entries[0].1)
    } else {
        entry_for(entries.drop_first(), span)
    }
}

/// Result of semantic analysis. The types recorded by span keep one entry
/// per span, in the order in which they were recorded.
#[derive(Debug)]
pub struct SemanticResult {
    /// The scope graph
    pub scopes: ScopeGraph,
    /// The symbol table
    pub symbols: SymbolTable,
    /// Diagnostics generated during analysis
    pub diagnostics: Diagnostics,
    /// Name resolutions: the symbol that the name at each span resolves to
    pub resolutions: Vec<(Span, SymbolId)>,
    /// Expression types, by the expression's span
    pub expr_types: Vec<(Span, Type)>,
    /// Resolved type expressions, by the type expression's span
    pub type_resolutions: Vec<(Span, Type)>,
}

/// The type recorded for `span` in `entries`, if any.
fn find_type(entries: &Vec<(Span, Type)>, span: Span) -> (r: Option<&Type>)
    ensures
        r.is_some() == entry_for(entries@, span).is_some(),
        r matches Some(t) ==> entry_for(entries@, span) == Some(*t),
{
    let mut i: usize = 0;
    proof {
        assert(entries@.subrange(0, entries@.len() as int) =~= entries@);
    }
    while i < entries.len()
        invariant
            i <= entries@.len(),
            entry_for(entries@, span) == entry_for(entries@.subrange(i as int, entries@.len() as int), span),
        decreases entries@.len() - i,
    {
        let ghost rest = entries@.subrange(i as int, entries@.len() as int);
        if entries[i].0 == span {
            return Some(&entries[i].1);
        }
        proof {
            assert(rest.drop_first() =~= entries@.subrange(i + 1, entries@.len() as int));
        }
        i = i + 1;
    }
    None
}

impl SemanticResult {
    /// Whether semantic analysis succeeded: no errors were reported
    pub fn success(&self) -> (r: bool)
        ensures
            r == (count_severity(self.diagnostics@, Severity::Error) == 0),
    {
        proof {
            law_has_errors_iff_error_count(self.diagnostics@);
        }
        !self.diagnostics.has_errors()
    }

    /// The number of errors
    pub fn error_count(&self) -> (r: usize)
        ensures
            r == count_severity(self.diagnostics@, Severity::Error),
    {
        self.diagnostics.error_count()
    }

    /// The type of the expression at a span
    pub fn expr_type(&self, span: Span) -> (r: Option<&Type>)
        ensures
            r.is_some() == entry_for(self.expr_types@, span).is_some(),
            r matches Some(t) ==> entry_for(self.expr_types@, span) == Some(*t),
    {
        find_type(&self.expr_types, span)
    }

    /// The resolved type of the type expression at a span
    pub fn resolved_type(&self, span: Span) -> (r: Option<&Type>)
        ensures
            r.is_some() == entry_for(self.type_resolutions@, span).is_some(),
            r matches Some(t) ==> entry_for(self.type_resolutions@, span) == Some(*t),
    {
        find_type(&self.type_resolutions, span)
    }
}

} // verus!
