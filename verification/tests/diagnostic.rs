use frel_compiler_core::diagnostic::codes::E0301;
use frel_compiler_core::diagnostic::sink::{
    CollectingSink, CountingSink, DiagnosticSink, FileScopedSink, NullSink, StreamingSink,
};
use frel_compiler_core::diagnostic::{Diagnostic, DiagnosticTag, Diagnostics, Label, RelatedInfo, Severity};
use frel_compiler_core::source::Span;

#[test]
fn mod_test_diagnostic_builder() {
    let diag = Diagnostic::error("unexpected token", Span::new(10, 15))
        .with_code("E0201")
        .with_label(Label::new(Span::new(5, 10), "previous token here"))
        .with_help("did you forget a semicolon?");

    assert_eq!(diag.severity, Severity::Error);
    assert_eq!(diag.code, Some("E0201".to_string()));
    assert_eq!(diag.message, "unexpected token");
    assert_eq!(diag.labels.len(), 1);
    assert!(diag.help.is_some());
}

#[test]
fn test_diagnostic_from_code() {
    let diag = Diagnostic::from_code(&E0301(), Span::new(0, 5), "cannot find `foo`");

    assert_eq!(diag.severity, Severity::Error);
    assert_eq!(diag.code, Some("E0301".to_string()));
    assert_eq!(diag.message, "cannot find `foo`");
}

#[test]
fn test_diagnostic_with_related() {
    let diag = Diagnostic::error("duplicate definition", Span::new(100, 110))
        .with_code("E0302")
        .with_related(RelatedInfo::new(Span::new(50, 60), "previously defined here"));

    assert_eq!(diag.related.len(), 1);
    assert_eq!(diag.related[0].message, "previously defined here");
}

#[test]
fn test_diagnostic_tags() {
    let diag = Diagnostic::warning("unused variable", Span::new(0, 5)).unnecessary().deprecated();

    assert!(diag.tags.contains(&DiagnosticTag::Unnecessary));
    assert!(diag.tags.contains(&DiagnosticTag::Deprecated));
}

#[test]
fn mod_test_diagnostics_collection() {
    let mut diags = Diagnostics::new();
    diags.error("error 1", Span::new(0, 5));
    diags.warning("warning 1", Span::new(10, 15));
    diags.error("error 2", Span::new(20, 25));

    assert!(diags.has_errors());
    assert_eq!(diags.error_count(), 2);
    assert_eq!(diags.warning_count(), 1);
    assert_eq!(diags.len(), 3);
}

#[test]
fn test_diagnostics_merge() {
    let mut diags1 = Diagnostics::new();
    diags1.error("error 1", Span::new(0, 5));

    let mut diags2 = Diagnostics::new();
    diags2.warning("warning 1", Span::new(10, 15));

    diags1.merge(diags2);
    assert_eq!(diags1.len(), 2);
}

fn make_error() -> Diagnostic {
    Diagnostic::error("test error", Span::new(0, 5))
}

fn make_warning() -> Diagnostic {
    Diagnostic::warning("test warning", Span::new(0, 5))
}

#[test]
fn test_collecting_sink() {
    let mut sink = CollectingSink::new();
    assert!(!sink.has_errors());
    assert_eq!(sink.error_count(), 0);

    sink.emit(make_error());
    assert!(sink.has_errors());
    assert_eq!(sink.error_count(), 1);
    assert_eq!(sink.diagnostics().len(), 1);

    sink.emit(make_warning());
    assert_eq!(sink.error_count(), 1);
    assert_eq!(sink.diagnostics().len(), 2);
}

#[test]
fn test_streaming_sink() {
    let mut received = Vec::new();
    {
        let mut sink = StreamingSink::new(|d: &Diagnostic| {
            received.push(d.message.clone());
        });
        sink.emit(make_error());
        sink.emit(make_warning());
        assert!(sink.has_errors());
    }
    assert_eq!(received.len(), 2);
}

#[test]
fn test_counting_sink() {
    let mut sink = CountingSink::new();
    sink.emit(make_error());
    sink.emit(make_error());
    sink.emit(make_warning());

    assert!(sink.has_errors());
    assert_eq!(sink.error_count(), 2);
    assert_eq!(sink.warning_count(), 1);
    assert_eq!(sink.total_count(), 3);
}

#[test]
fn test_null_sink() {
    let mut sink = NullSink::new();
    sink.emit(make_error());
    assert!(sink.has_errors());
    assert_eq!(sink.error_count(), 1);
}

#[test]
fn test_file_scoped_sink() {
    let mut inner = CollectingSink::new();
    {
        let mut scoped = FileScopedSink::new("a.frel", &mut inner);
        assert_eq!(scoped.file_path(), "a.frel");
        scoped.emit(make_warning());
        assert!(!scoped.has_errors());
        scoped.emit(make_error());
        assert_eq!(scoped.error_count(), 1);
    }
    assert_eq!(inner.diagnostics().len(), 2);
    assert_eq!(inner.error_count(), 1);
}
