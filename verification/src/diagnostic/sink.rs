//! Diagnostic sinks: an output-agnostic way for compiler passes to emit
//! diagnostics (collect them, count them, or discard them).

use vstd::prelude::*;
use super::{count_severity, lemma_count_severity_push, Diagnostic, Severity};

verus! {

/// A sink that receives diagnostics during compilation
pub trait DiagnosticSink {
    /// The number of errors emitted so far.
    spec fn spec_error_count(&self) -> nat;

    /// Whether the sink has room to count one more diagnostic of this severity.
    spec fn spec_can_emit(&self, severity: Severity) -> bool;

    /// Emit a diagnostic to the sink
    fn emit(&mut self, diagnostic: Diagnostic)
        requires
            old(self).spec_can_emit(diagnostic.severity),
        ensures
            final(self).spec_error_count() == old(self).spec_error_count() + if diagnostic.severity
                == Severity::Error {
                1nat
            } else {
                0nat
            },
    ;

    /// Check if any errors have been emitted
    fn has_errors(&self) -> (r: bool)
        ensures
            r == (self.spec_error_count() > 0),
    ;

    /// Get the count of errors emitted
    fn error_count(&self) -> (r: usize)
        ensures
            r == self.spec_error_count(),
    ;
}

/// Collects all diagnostics into a vector
#[derive(Debug)]
pub struct CollectingSink {
    diagnostics: Vec<Diagnostic>,
    error_count: usize,
}

impl CollectingSink {
    #[verifier::type_invariant]
    spec fn inv(self) -> bool {
        self.error_count == count_severity(self.diagnostics@, Severity::Error)
    }

    /// The diagnostics collected so far, in emission order.
    pub closed spec fn collected(&self) -> Seq<Diagnostic> {
        self.diagnostics@
    }

    pub fn new() -> (r: Self)
        ensures
            r.collected() == Seq::<Diagnostic>::empty(),
    {
        let r = CollectingSink { diagnostics: Vec::new(), error_count: 0 };
        proof {
            assert(r.diagnostics@.filter(|d: Diagnostic| d.severity == Severity::Error) =~= Seq::<
                Diagnostic,
            >::empty());
        }
        r
    }

    /// Get all collected diagnostics
    pub fn diagnostics(&self) -> (r: &[Diagnostic])
        ensures
            r@ == self.collected(),
    {
        self.diagnostics.as_slice()
    }

    /// Take ownership of collected diagnostics
    pub fn into_diagnostics(self) -> (r: Vec<Diagnostic>)
        ensures
            r@ == self.collected(),
    {
        let CollectingSink { diagnostics, error_count: _ } = self;
        diagnostics
    }

    /// Iterate over collected diagnostics
    pub fn iter(&self) -> (r: std::slice::Iter<'_, Diagnostic>)
        ensures
            exists|s: &[Diagnostic]| s@ == self.collected() && r == vstd::std_specs::slice::spec_slice_iter(s),
    {
        self.diagnostics.iter()
    }
}

impl DiagnosticSink for CollectingSink {
    /// The errors among the diagnostics collected.
    open spec fn spec_error_count(&self) -> nat {
        count_severity(self.collected(), Severity::Error)
    }

    /// The error count has room for one more.
    open spec fn spec_can_emit(&self, severity: Severity) -> bool {
        count_severity(self.collected(), Severity::Error) < usize::MAX
    }

    fn emit(&mut self, diagnostic: Diagnostic)
        ensures
            final(self).collected() == old(self).collected().push(diagnostic),
    {
        proof {
            use_type_invariant(&*self);
            lemma_count_severity_push(self.diagnostics@, diagnostic, Severity::Error);
        }
        let is_error = diagnostic.severity == Severity::Error;
        let count = if is_error { self.error_count + 1 } else { self.error_count };
        let mut taken = CollectingSink::new();
        std::mem::swap(self, &mut taken);
        let CollectingSink { diagnostics, error_count: _ } = taken;
        let mut diagnostics = diagnostics;
        diagnostics.push(diagnostic);
        *self = CollectingSink { diagnostics, error_count: count };
    }

    fn has_errors(&self) -> (r: bool) {
        proof {
            use_type_invariant(self);
        }
        self.error_count > 0
    }

    fn error_count(&self) -> (r: usize) {
        proof {
            use_type_invariant(self);
        }
        self.error_count
    }
}

/// A sink that counts diagnostics by severity without storing them
#[derive(Debug)]
pub struct CountingSink {
    error_count: usize,
    warning_count: usize,
    info_count: usize,
    hint_count: usize,
}

impl CountingSink {
    /// Number of errors counted.
    pub closed spec fn errors(&self) -> nat {
        self.error_count as nat
    }

    /// Number of warnings counted.
    pub closed spec fn warnings(&self) -> nat {
        self.warning_count as nat
    }

    /// Number of infos counted.
    pub closed spec fn infos(&self) -> nat {
        self.info_count as nat
    }

    /// Number of hints counted.
    pub closed spec fn hints(&self) -> nat {
        self.hint_count as nat
    }

    pub fn new() -> (r: Self)
        ensures
            r.errors() == 0 && r.warnings() == 0 && r.infos() == 0 && r.hints() == 0,
    {
        CountingSink { error_count: 0, warning_count: 0, info_count: 0, hint_count: 0 }
    }

    pub fn warning_count(&self) -> (r: usize)
        ensures
            r == self.warnings(),
    {
        self.warning_count
    }

    pub fn info_count(&self) -> (r: usize)
        ensures
            r == self.infos(),
    {
        self.info_count
    }

    pub fn hint_count(&self) -> (r: usize)
        ensures
            r == self.hints(),
    {
        self.hint_count
    }

    /// The number of diagnostics of every severity.
    pub fn total_count(&self) -> (r: usize)
        requires
            self.errors() + self.warnings() + self.infos() + self.hints() <= usize::MAX,
        ensures
            r == self.errors() + self.warnings() + self.infos() + self.hints(),
    {
        self.error_count + self.warning_count + self.info_count + self.hint_count
    }
}

impl Default for CountingSink {
    fn default() -> (r: Self)
        ensures
            r.errors() == 0 && r.warnings() == 0 && r.infos() == 0 && r.hints() == 0,
    {
        CountingSink::new()
    }
}

impl DiagnosticSink for CountingSink {
    open spec fn spec_error_count(&self) -> nat {
        self.errors()
    }

    /// The count of the diagnostic's severity has room for one more.
    open spec fn spec_can_emit(&self, severity: Severity) -> bool {
        match severity {
            Severity::Error => self.errors() < usize::MAX,
            Severity::Warning => self.warnings() < usize::MAX,
            Severity::Info => self.infos() < usize::MAX,
            Severity::Hint => self.hints() < usize::MAX,
        }
    }

    fn emit(&mut self, diagnostic: Diagnostic)
        ensures
            final(self).errors() == old(self).errors() + if diagnostic.severity == Severity::Error { 1nat } else { 0nat },
            final(self).warnings() == old(self).warnings() + if diagnostic.severity == Severity::Warning { 1nat } else { 0nat },
            final(self).infos() == old(self).infos() + if diagnostic.severity == Severity::Info { 1nat } else { 0nat },
            final(self).hints() == old(self).hints() + if diagnostic.severity == Severity::Hint { 1nat } else { 0nat },
    {
        match diagnostic.severity {
            Severity::Error => self.error_count = self.error_count + 1,
            Severity::Warning => self.warning_count = self.warning_count + 1,
            Severity::Info => self.info_count = self.info_count + 1,
            Severity::Hint => self.hint_count = self.hint_count + 1,
        }
    }

    fn has_errors(&self) -> (r: bool) {
        self.error_count > 0
    }

    fn error_count(&self) -> (r: usize) {
        self.error_count
    }
}

/// A sink that discards all diagnostics, counting only the errors
#[derive(Debug)]
pub struct NullSink {
    error_count: usize,
}

impl NullSink {
    pub fn new() -> (r: Self)
        ensures
            r.spec_error_count() == 0,
    {
        NullSink { error_count: 0 }
    }
}

impl Default for NullSink {
    fn default() -> (r: Self)
        ensures
            r.spec_error_count() == 0,
    {
        NullSink::new()
    }
}

impl DiagnosticSink for NullSink {
    closed spec fn spec_error_count(&self) -> nat {
        self.error_count as nat
    }

    /// The error count has room for one more.
    open spec fn spec_can_emit(&self, severity: Severity) -> bool {
        self.spec_error_count() < usize::MAX
    }

    fn emit(&mut self, diagnostic: Diagnostic) {
        if diagnostic.severity == Severity::Error {
            self.error_count = self.error_count + 1;
        }
    }

    fn has_errors(&self) -> (r: bool) {
        self.error_count > 0
    }

    fn error_count(&self) -> (r: usize) {
        self.error_count
    }
}

} // verus!

verus! {

/// Passes every diagnostic on to another sink, counting the errors it saw; for
/// incremental compilation, where the diagnostics of one file are recompiled.
pub struct FileScopedSink<'a, S: DiagnosticSink> {
    file_path: &'a str,
    inner: &'a mut S,
    scoped_error_count: usize,
}

impl<'a, S: DiagnosticSink> FileScopedSink<'a, S> {
    /// Get the file path this sink is scoped to
    pub fn file_path(&self) -> (r: &str)
        ensures
            r@ == self.path(),
    {
        self.file_path
    }

    /// The file this sink is scoped to.
    pub closed spec fn path(&self) -> Seq<char> {
        self.file_path@
    }

    /// The sink diagnostics are passed on to.
    pub closed spec fn inner_sink(&self) -> S {
        *self.inner
    }

    pub fn new(file_path: &'a str, inner: &'a mut S) -> (r: Self)
        ensures
            r.path() == file_path@,
            r.spec_error_count() == 0,
            r.inner_sink() == *old(inner),
    {
        FileScopedSink { file_path, inner, scoped_error_count: 0 }
    }
}

impl<'a, S: DiagnosticSink> DiagnosticSink for FileScopedSink<'a, S> {
    closed spec fn spec_error_count(&self) -> nat {
        self.scoped_error_count as nat
    }

    /// The scoped count has room, and the inner sink can take the diagnostic.
    open spec fn spec_can_emit(&self, severity: Severity) -> bool {
        self.spec_error_count() < usize::MAX && self.inner_sink().spec_can_emit(severity)
    }

    fn emit(&mut self, diagnostic: Diagnostic) {
        if diagnostic.severity == Severity::Error {
            self.scoped_error_count = self.scoped_error_count + 1;
        }
        self.inner.emit(diagnostic);
    }

    fn has_errors(&self) -> (r: bool) {
        self.scoped_error_count > 0
    }

    fn error_count(&self) -> (r: usize) {
        self.scoped_error_count
    }
}

/// Hands every diagnostic to a callback as it is emitted (for streaming to an
/// editor), counting the errors.
pub struct StreamingSink<F: FnMut(&Diagnostic)> {
    callback: F,
    error_count: usize,
}

impl<F: FnMut(&Diagnostic)> StreamingSink<F> {
    /// The callback, in its current state.
    pub closed spec fn callback(&self) -> F {
        self.callback
    }

    pub fn new(callback: F) -> (r: Self)
        ensures
            r.spec_error_count() == 0,
            r.callback() == callback,
    {
        StreamingSink { callback, error_count: 0 }
    }
}

impl<F: FnMut(&Diagnostic)> DiagnosticSink for StreamingSink<F> {
    closed spec fn spec_error_count(&self) -> nat {
        self.error_count as nat
    }

    /// The count has room, and the callback accepts any diagnostic.
    open spec fn spec_can_emit(&self, severity: Severity) -> bool {
        &&& self.spec_error_count() < usize::MAX
        &&& forall|d: &Diagnostic| call_requires(self.callback(), (d,))
    }

    fn emit(&mut self, diagnostic: Diagnostic) {
        if diagnostic.severity == Severity::Error {
            self.error_count = self.error_count + 1;
        }
        proof {
            let d = &diagnostic;
            assert(old(self).callback() == old(self).callback);
            assert(call_requires(old(self).callback(), (d,)));
        }
        (self.callback)(&diagnostic);
    }

    fn has_errors(&self) -> (r: bool) {
        self.error_count > 0
    }

    fn error_count(&self) -> (r: usize) {
        self.error_count
    }
}

} // verus!
