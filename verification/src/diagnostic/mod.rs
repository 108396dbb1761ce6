//! Diagnostics: severities, labels, suggestions, related information, tags,
//! the diagnostic record itself, and the collection that compiler passes fill.

pub mod codes;
pub mod format;
pub mod sink;

use vstd::prelude::*;
use vstd::string::*;
use crate::source::{line_starts_of, Span};
use crate::text::{push_str, to_string};
use codes::ErrorCode;

verus! {

/// Diagnostic severity level
#[derive(Debug, Clone, Copy, PartialEq, Eq, Structural)]
pub enum Severity {
    Error,
    Warning,
    Info,
    Hint,
}

impl Severity {
    pub open spec fn as_str_spec(&self) -> Seq<char> {
        match self {
            Severity::Error => "error"@,
            Severity::Warning => "warning"@,
            Severity::Info => "info"@,
            Severity::Hint => "hint"@,
        }
    }

    pub fn as_str(&self) -> (r: &'static str)
        ensures
            r@ == self.as_str_spec(),
    {
        match self {
            Severity::Error => "error",
            Severity::Warning => "warning",
            Severity::Info => "info",
            Severity::Hint => "hint",
        }
    }
}

/// A label pointing to a span with a message
#[derive(Debug, Clone)]
pub struct Label {
    pub span: Span,
    pub message: String,
}

impl Label {
    pub fn new(span: Span, message: &str) -> (r: Self)
        ensures
            r.span == span,
            r.message@ == message@,
    {
        Label { span, message: to_string(message) }
    }

    /// A label with an empty message.
    pub fn primary(span: Span) -> (r: Self)
        ensures
            r.span == span,
            r.message@ == Seq::<char>::empty(),
    {
        Label { span, message: String::new() }
    }
}

/// A suggested fix with replacement text
#[derive(Debug, Clone)]
pub struct Suggestion {
    pub span: Span,
    pub replacement: String,
    pub message: String,
}

impl Suggestion {
    pub fn new(span: Span, replacement: &str, message: &str) -> (r: Self)
        ensures
            r.span == span,
            r.replacement@ == replacement@,
            r.message@ == message@,
    {
        Suggestion { span, replacement: to_string(replacement), message: to_string(message) }
    }

    /// Create an insertion suggestion (insert text at a point)
    pub fn insert(pos: u32, text: &str, message: &str) -> (r: Self)
        ensures
            r.span == Span::point_spec(pos),
            r.replacement@ == text@,
            r.message@ == message@,
    {
        Suggestion { span: Span::point(pos), replacement: to_string(text), message: to_string(message) }
    }

    /// Create a deletion suggestion
    pub fn delete(span: Span, message: &str) -> (r: Self)
        ensures
            r.span == span,
            r.replacement@ == Seq::<char>::empty(),
            r.message@ == message@,
    {
        Suggestion { span, replacement: String::new(), message: to_string(message) }
    }
}

/// Related information pointing to another location ("defined here",
/// "previous occurrence", ...), possibly in another file.
#[derive(Debug, Clone)]
pub struct RelatedInfo {
    pub span: Span,
    pub file: Option<String>,
    pub message: String,
}

impl RelatedInfo {
    pub fn new(span: Span, message: &str) -> (r: Self)
        ensures
            r.span == span,
            r.file.is_none(),
            r.message@ == message@,
    {
        RelatedInfo { span, file: None, message: to_string(message) }
    }

    pub fn in_file(span: Span, file: &str, message: &str) -> (r: Self)
        ensures
            r.span == span,
            r.file matches Some(f) && f@ == file@,
            r.message@ == message@,
    {
        RelatedInfo { span, file: Some(to_string(file)), message: to_string(message) }
    }
}

/// Diagnostic tags for IDE presentation hints
#[derive(Debug, Clone, Copy, PartialEq, Eq, Structural)]
pub enum DiagnosticTag {
    /// The code is unnecessary (rendered grayed out)
    Unnecessary,
    /// The code is deprecated (rendered with strikethrough)
    Deprecated,
}

#[verifier::external_type_specification]
#[verifier::external_body]
pub struct ExJsonValue(serde_json::Value);

/// A single diagnostic message
#[derive(Debug)]
pub struct Diagnostic {
    pub severity: Severity,
    pub code: Option<String>,
    pub message: String,
    pub span: Span,
    pub labels: Vec<Label>,
    pub suggestions: Vec<Suggestion>,
    pub help: Option<String>,
    pub related: Vec<RelatedInfo>,
    pub tags: Vec<DiagnosticTag>,
    /// Custom data for code actions (LSP)
    pub data: Option<serde_json::Value>,
}

impl Diagnostic {
    /// A diagnostic of the given severity with only a message and a span.
    pub open spec fn is_plain(&self, severity: Severity, message: Seq<char>, span: Span) -> bool {
        &&& self.severity == severity
        &&& self.code.is_none()
        &&& self.message@ == message
        &&& self.span == span
        &&& self.labels@.len() == 0
        &&& self.suggestions@.len() == 0
        &&& self.help.is_none()
        &&& self.related@.len() == 0
        &&& self.tags@.len() == 0
        &&& self.data.is_none()
    }

    /// A diagnostic made from an error code: the code's severity and identifier,
    /// the given message and span, and nothing else.
    pub open spec fn is_coded(&self, code: ErrorCode, span: Span, message: Seq<char>) -> bool {
        &&& self.severity == code.default_severity
        &&& self.code matches Some(c) && c@ == code.code@
        &&& self.message@ == message
        &&& self.span == span
        &&& self.labels@.len() == 0
        &&& self.suggestions@.len() == 0
        &&& self.help.is_none()
        &&& self.related@.len() == 0
        &&& self.tags@.len() == 0
        &&& self.data.is_none()
    }

    fn plain(severity: Severity, message: &str, span: Span) -> (r: Self)
        ensures
            r.is_plain(severity, message@, span),
    {
        Diagnostic {
            severity,
            code: None,
            message: to_string(message),
            span,
            labels: Vec::new(),
            suggestions: Vec::new(),
            help: None,
            related: Vec::new(),
            tags: Vec::new(),
            data: None,
        }
    }

    /// Create a new error diagnostic
    pub fn error(message: &str, span: Span) -> (r: Self)
        ensures
            r.is_plain(Severity::Error, message@, span),
    {
        Self::plain(Severity::Error, message, span)
    }

    /// Create a new warning diagnostic
    pub fn warning(message: &str, span: Span) -> (r: Self)
        ensures
            r.is_plain(Severity::Warning, message@, span),
    {
        Self::plain(Severity::Warning, message, span)
    }

    /// Create a new info diagnostic
    pub fn info(message: &str, span: Span) -> (r: Self)
        ensures
            r.is_plain(Severity::Info, message@, span),
    {
        Self::plain(Severity::Info, message, span)
    }

    /// Create a new hint diagnostic
    pub fn hint(message: &str, span: Span) -> (r: Self)
        ensures
            r.is_plain(Severity::Hint, message@, span),
    {
        Self::plain(Severity::Hint, message, span)
    }

    /// Create a diagnostic from an ErrorCode: its default severity and its code.
    pub fn from_code(code: &ErrorCode, span: Span, message: &str) -> (r: Self)
        ensures
            r.is_coded(*code, span, message@),
            r.severity == code.default_severity,
            r.code matches Some(c) && c@ == code.code@,
            r.message@ == message@,
            r.span == span,
            r.labels@.len() == 0,
            r.suggestions@.len() == 0,
            r.help.is_none(),
            r.related@.len() == 0,
            r.tags@.len() == 0,
            r.data.is_none(),
    {
        let mut d = Self::plain(code.default_severity, message, span);
        d.code = Some(to_string(code.code));
        d
    }

    /// Everything but the code is unchanged.
    pub open spec fn same_but_code(&self, other: &Diagnostic) -> bool {
        &&& self.severity == other.severity
        &&& self.message == other.message
        &&& self.span == other.span
        &&& self.labels == other.labels
        &&& self.suggestions == other.suggestions
        &&& self.help == other.help
        &&& self.related == other.related
        &&& self.tags == other.tags
        &&& self.data == other.data
    }

    /// Set the error code
    pub fn with_code(self, code: &str) -> (r: Self)
        ensures
            r.code matches Some(c) && c@ == code@,
            r.same_but_code(&self),
    {
        let mut d = self;
        d.code = Some(to_string(code));
        d
    }

    /// Add a label
    pub fn with_label(self, label: Label) -> (r: Self)
        ensures
            r.labels@ == self.labels@.push(label),
            r.severity == self.severity && r.code == self.code && r.message == self.message
                && r.span == self.span && r.suggestions == self.suggestions && r.help == self.help
                && r.related == self.related && r.tags == self.tags && r.data == self.data,
    {
        let mut d = self;
        d.labels.push(label);
        d
    }

    /// Add multiple labels
    pub fn with_labels(self, labels: Vec<Label>) -> (r: Self)
        ensures
            r.labels@ == self.labels@ + labels@,
            r.severity == self.severity && r.code == self.code && r.message == self.message
                && r.span == self.span && r.suggestions == self.suggestions && r.help == self.help
                && r.related == self.related && r.tags == self.tags && r.data == self.data,
    {
        let mut d = self;
        let mut labels = labels;
        d.labels.append(&mut labels);
        d
    }

    /// Add a suggestion
    pub fn with_suggestion(self, suggestion: Suggestion) -> (r: Self)
        ensures
            r.suggestions@ == self.suggestions@.push(suggestion),
            r.severity == self.severity && r.code == self.code && r.message == self.message
                && r.span == self.span && r.labels == self.labels && r.help == self.help
                && r.related == self.related && r.tags == self.tags && r.data == self.data,
    {
        let mut d = self;
        d.suggestions.push(suggestion);
        d
    }

    /// Add multiple suggestions
    pub fn with_suggestions(self, suggestions: Vec<Suggestion>) -> (r: Self)
        ensures
            r.suggestions@ == self.suggestions@ + suggestions@,
            r.severity == self.severity && r.code == self.code && r.message == self.message
                && r.span == self.span && r.labels == self.labels && r.help == self.help
                && r.related == self.related && r.tags == self.tags && r.data == self.data,
    {
        let mut d = self;
        let mut suggestions = suggestions;
        d.suggestions.append(&mut suggestions);
        d
    }

    /// Add help text
    pub fn with_help(self, help: &str) -> (r: Self)
        ensures
            r.help matches Some(h) && h@ == help@,
            r.severity == self.severity && r.code == self.code && r.message == self.message
                && r.span == self.span && r.labels == self.labels
                && r.suggestions == self.suggestions && r.related == self.related
                && r.tags == self.tags && r.data == self.data,
    {
        let mut d = self;
        d.help = Some(to_string(help));
        d
    }

    /// Add related information
    pub fn with_related(self, related: RelatedInfo) -> (r: Self)
        ensures
            r.related@ == self.related@.push(related),
            r.severity == self.severity && r.code == self.code && r.message == self.message
                && r.span == self.span && r.labels == self.labels
                && r.suggestions == self.suggestions && r.help == self.help
                && r.tags == self.tags && r.data == self.data,
    {
        let mut d = self;
        d.related.push(related);
        d
    }

    /// Add multiple related info
    pub fn with_related_all(self, related: Vec<RelatedInfo>) -> (r: Self)
        ensures
            r.related@ == self.related@ + related@,
            r.severity == self.severity && r.code == self.code && r.message == self.message
                && r.span == self.span && r.labels == self.labels
                && r.suggestions == self.suggestions && r.help == self.help
                && r.tags == self.tags && r.data == self.data,
    {
        let mut d = self;
        let mut related = related;
        d.related.append(&mut related);
        d
    }

    /// Add a diagnostic tag (at most once)
    pub fn with_tag(self, tag: DiagnosticTag) -> (r: Self)
        ensures
            r.tags@ == if self.tags@.contains(tag) { self.tags@ } else { self.tags@.push(tag) },
            r.severity == self.severity && r.code == self.code && r.message == self.message
                && r.span == self.span && r.labels == self.labels
                && r.suggestions == self.suggestions && r.help == self.help
                && r.related == self.related && r.data == self.data,
    {
        let mut d = self;
        let mut found = false;
        let mut i: usize = 0;
        while i < d.tags.len()
            invariant
                i <= d.tags@.len(),
                found == (exists|j: int| 0 <= j < i && d.tags@[j] == tag),
            decreases d.tags.len() - i,
        {
            if d.tags[i] == tag {
                found = true;
            }
            i = i + 1;
        }
        if !found {
            d.tags.push(tag);
        }
        d
    }

    /// Set custom data for code actions
    pub fn with_data(self, data: serde_json::Value) -> (r: Self)
        ensures
            r.data == Some(data),
            r.severity == self.severity && r.code == self.code && r.message == self.message
                && r.span == self.span && r.labels == self.labels
                && r.suggestions == self.suggestions && r.help == self.help
                && r.related == self.related && r.tags == self.tags,
    {
        let mut d = self;
        d.data = Some(data);
        d
    }

    /// Mark as unnecessary (grayed out in IDE)
    pub fn unnecessary(self) -> (r: Self)
        ensures
            r.tags@ == if self.tags@.contains(DiagnosticTag::Unnecessary) {
                self.tags@
            } else {
                self.tags@.push(DiagnosticTag::Unnecessary)
            },
            r.severity == self.severity && r.code == self.code && r.message == self.message
                && r.span == self.span && r.labels == self.labels
                && r.suggestions == self.suggestions && r.help == self.help
                && r.related == self.related && r.data == self.data,
    {
        self.with_tag(DiagnosticTag::Unnecessary)
    }

    /// Mark as deprecated (strikethrough in IDE)
    pub fn deprecated(self) -> (r: Self)
        ensures
            r.tags@ == if self.tags@.contains(DiagnosticTag::Deprecated) {
                self.tags@
            } else {
                self.tags@.push(DiagnosticTag::Deprecated)
            },
            r.severity == self.severity && r.code == self.code && r.message == self.message
                && r.span == self.span && r.labels == self.labels
                && r.suggestions == self.suggestions && r.help == self.help
                && r.related == self.related && r.data == self.data,
    {
        self.with_tag(DiagnosticTag::Deprecated)
    }
}

/// The number of diagnostics of a given severity.
pub open spec fn count_severity(ds: Seq<Diagnostic>, severity: Severity) -> nat {
    ds.filter(|d: Diagnostic| d.severity == severity).len()
}

/// Appending one diagnostic raises the count of its severity by one and
/// leaves the other counts unchanged.
pub proof fn lemma_count_severity_push(ds: Seq<Diagnostic>, d: Diagnostic, severity: Severity)
    ensures
        count_severity(ds.push(d), severity) == count_severity(ds, severity) + if d.severity
            == severity {
            1nat
        } else {
            0nat
        },
{
    reveal_with_fuel(Seq::<_>::filter, 1);
    assert(ds.push(d).drop_last() =~= ds);
}

/// There is an error among the diagnostics exactly when the number of errors
/// is not zero (what `has_errors` and `error_count` report agree).
pub proof fn law_has_errors_iff_error_count(ds: Seq<Diagnostic>)
    ensures
        (exists|i: int| 0 <= i < ds.len() && ds[i].severity == Severity::Error) <==> count_severity(
            ds,
            Severity::Error,
        ) > 0,
    decreases ds.len(),
{
    if ds.len() > 0 {
        let prefix = ds.drop_last();
        law_has_errors_iff_error_count(prefix);
        lemma_count_severity_push(prefix, ds.last(), Severity::Error);
        assert(prefix.push(ds.last()) =~= ds);
        if exists|i: int| 0 <= i < ds.len() && ds[i].severity == Severity::Error {
            let i = choose|i: int| 0 <= i < ds.len() && ds[i].severity == Severity::Error;
            if i < ds.len() - 1 {
                assert(prefix[i] == ds[i]);
            }
        }
        if exists|i: int| 0 <= i < prefix.len() && prefix[i].severity == Severity::Error {
            let i = choose|i: int| 0 <= i < prefix.len() && prefix[i].severity == Severity::Error;
            assert(ds[i] == prefix[i]);
        }
    } else {
        assert(ds.filter(|d: Diagnostic| d.severity == Severity::Error) =~= Seq::<Diagnostic>::empty()) by {
            reveal_with_fuel(Seq::<_>::filter, 1);
        }
    }
}

/// Collection of diagnostics accumulated during compilation
#[derive(Debug)]
pub struct Diagnostics {
    diagnostics: Vec<Diagnostic>,
}

impl View for Diagnostics {
    type V = Seq<Diagnostic>;

    closed spec fn view(&self) -> Seq<Diagnostic> {
        self.diagnostics@
    }
}

impl Diagnostics {
    pub fn new() -> (r: Self)
        ensures
            r@ == Seq::<Diagnostic>::empty(),
    {
        Diagnostics { diagnostics: Vec::new() }
    }

    /// Add a diagnostic
    pub fn add(&mut self, diagnostic: Diagnostic)
        ensures
            final(self)@ == old(self)@.push(diagnostic),
    {
        self.diagnostics.push(diagnostic);
    }

    /// Add an error
    pub fn error(&mut self, message: &str, span: Span)
        ensures
            final(self)@.len() == old(self)@.len() + 1,
            final(self)@.drop_last() == old(self)@,
            final(self)@.last().is_plain(Severity::Error, message@, span),
    {
        self.add(Diagnostic::error(message, span));
        proof {
            assert(self@.drop_last() =~= old(self)@);
        }
    }

    /// Add a warning
    pub fn warning(&mut self, message: &str, span: Span)
        ensures
            final(self)@.len() == old(self)@.len() + 1,
            final(self)@.drop_last() == old(self)@,
            final(self)@.last().is_plain(Severity::Warning, message@, span),
    {
        self.add(Diagnostic::warning(message, span));
        proof {
            assert(self@.drop_last() =~= old(self)@);
        }
    }

    /// Check if there are any errors
    pub fn has_errors(&self) -> (r: bool)
        ensures
            r == exists|i: int| 0 <= i < self@.len() && self@[i].severity == Severity::Error,
    {
        let mut i: usize = 0;
        while i < self.diagnostics.len()
            invariant
                i <= self.diagnostics@.len(),
                forall|j: int| 0 <= j < i ==> self.diagnostics@[j].severity != Severity::Error,
            decreases self.diagnostics.len() - i,
        {
            if self.diagnostics[i].severity == Severity::Error {
                return true;
            }
            i = i + 1;
        }
        false
    }

    fn count(&self, severity: Severity) -> (r: usize)
        ensures
            r == count_severity(self@, severity),
    {
        let mut n: usize = 0;
        let mut i: usize = 0;
        while i < self.diagnostics.len()
            invariant
                i <= self.diagnostics@.len(),
                n == count_severity(self.diagnostics@.take(i as int), severity),
                n <= i,
            decreases self.diagnostics.len() - i,
        {
            proof {
                reveal_with_fuel(Seq::<_>::filter, 1);
                assert(self.diagnostics@.take(i + 1).drop_last() =~= self.diagnostics@.take(i as int));
            }
            if self.diagnostics[i].severity == severity {
                n = n + 1;
            }
            i = i + 1;
        }
        proof {
            assert(self.diagnostics@.take(self.diagnostics@.len() as int) =~= self.diagnostics@);
        }
        n
    }

    /// Get the number of errors
    pub fn error_count(&self) -> (r: usize)
        ensures
            r == count_severity(self@, Severity::Error),
    {
        self.count(Severity::Error)
    }

    /// Get the number of warnings
    pub fn warning_count(&self) -> (r: usize)
        ensures
            r == count_severity(self@, Severity::Warning),
    {
        self.count(Severity::Warning)
    }

    /// Check if empty
    pub fn is_empty(&self) -> (r: bool)
        ensures
            r == (self@.len() == 0),
    {
        self.diagnostics.len() == 0
    }

    /// Get the total number of diagnostics
    pub fn len(&self) -> (r: usize)
        ensures
            r == self@.len(),
    {
        self.diagnostics.len()
    }

    /// Get all diagnostics
    pub fn iter(&self) -> (r: std::slice::Iter<'_, Diagnostic>)
        ensures
            exists|s: &[Diagnostic]| s@ == self@ && r == vstd::std_specs::slice::spec_slice_iter(s),
    {
        self.diagnostics.iter()
    }

    /// Get diagnostics as a slice
    pub fn as_slice(&self) -> (r: &[Diagnostic])
        ensures
            r@ == self@,
    {
        self.diagnostics.as_slice()
    }

    /// Format diagnostics for terminal output
    pub fn format_terminal(&self, source: &str, filename: &str) -> (r: String)
        requires
            format::all_renderable(self@, source),
        ensures
            r@ == format::diagnostics_text(self@, source, filename, line_starts_of(source.spec_bytes()), false),
    {
        format::render_all(self.diagnostics.as_slice(), source, filename, false)
    }

    /// Format diagnostics with colors for terminal output, closed by the summary line
    pub fn format_terminal_colored(&self, source: &str, filename: &str) -> (r: String)
        requires
            format::all_renderable(self@, source),
        ensures
            r@ == format::diagnostics_text(self@, source, filename, line_starts_of(source.spec_bytes()), true)
                + format::summary_text(count_severity(self@, Severity::Error), count_severity(self@, Severity::Warning)),
    {
        let mut output = format::render_all(self.diagnostics.as_slice(), source, filename, true);
        let summary = format::format_summary(self.error_count(), self.warning_count());
        push_str(&mut output, summary.as_str());
        output
    }

    /// Merge another diagnostics collection into this one
    pub fn merge(&mut self, other: Diagnostics)
        ensures
            final(self)@ == old(self)@ + other@,
    {
        let mut other = other;
        self.diagnostics.append(&mut other.diagnostics);
    }

    /// Take the diagnostics out as a vector.
    pub fn into_vec(self) -> (r: Vec<Diagnostic>)
        ensures
            r@ == self@,
    {
        self.diagnostics
    }
}

impl Default for Diagnostics {
    fn default() -> (r: Self)
        ensures
            r@ == Seq::<Diagnostic>::empty(),
    {
        Diagnostics::new()
    }
}

} // verus!
