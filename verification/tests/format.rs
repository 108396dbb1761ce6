use frel_compiler_core::diagnostic::format::colors::{for_severity, BLUE, RED, RESET};
use frel_compiler_core::diagnostic::format::{
    format_diagnostic, format_diagnostic_colored, format_diagnostics, format_summary,
};
use frel_compiler_core::diagnostic::{Diagnostic, Diagnostics, Label, RelatedInfo, Severity, Suggestion};
use frel_compiler_core::source::{LineIndex, Span};

#[test]
fn test_format_summary() {
    assert_eq!(format_summary(0, 0), "");
    assert_eq!(format_summary(1, 0), "error: could not compile due to 1 error\n");
    assert_eq!(format_summary(2, 0), "error: could not compile due to 2 errors\n");
    assert_eq!(format_summary(0, 1), "warning: 1 warning emitted\n");
    assert_eq!(format_summary(0, 2), "warning: 2 warnings emitted\n");
    assert_eq!(format_summary(1, 1), "error: could not compile due to 1 error and 1 warning\n");
}

#[test]
fn test_format_summary_plural_both() {
    assert_eq!(format_summary(3, 12), "error: could not compile due to 3 errors and 12 warnings\n");
}

#[test]
fn test_format_diagnostic() {
    let source = "blueprint Test { }";
    let diag = Diagnostic::error("test error", Span::new(10, 14)).with_code("E0201");
    let index = LineIndex::new(source);

    let output = format_diagnostic(&diag, source, "test.frel", &index);
    assert!(output.contains("error[E0201]: test error"));
    assert!(output.contains("--> test.frel:1:11"));
}

#[test]
fn test_format_diagnostic_exact_layout() {
    let source = "module a\nblueprint Test { }\n";
    let diag = Diagnostic::warning("unused", Span::new(19, 23))
        .with_label(Label::new(Span::new(9, 18), "declared here"))
        .with_label(Label::new(Span::new(0, 1), ""))
        .with_related(RelatedInfo::in_file(Span::new(0, 6), "other.frel", "see also"))
        .with_help("remove it")
        .with_suggestion(Suggestion::new(Span::new(19, 23), "", "delete the braces"));
    let index = LineIndex::new(source);
    let output = format_diagnostic(&diag, source, "a.frel", &index);
    let expected = "warning: unused\n  --> a.frel:2:11\n  |\n2 | blueprint Test { }\n  |           ^^^^\n  = note: declared here (at 2:1)\n  = note: see also (at other.frel:1:1)\n  = help: remove it\n  = suggestion: delete the braces\n";
    assert_eq!(output, expected);
}

#[test]
fn test_format_diagnostic_empty_span_gets_one_caret() {
    let source = "abc";
    let diag = Diagnostic::error("here", Span::point(1));
    let index = LineIndex::new(source);
    let output = format_diagnostic(&diag, source, "f", &index);
    assert_eq!(output, "error: here\n  --> f:1:2\n  |\n1 | abc\n  |  ^\n");
}

#[test]
fn test_format_diagnostic_colored_layout() {
    let source = "x";
    let diag = Diagnostic::error("bad", Span::new(0, 1));
    let index = LineIndex::new(source);
    let output = format_diagnostic_colored(&diag, source, "f", &index);
    let expected = format!(
        "\x1b[1m{RED}error{RESET}: \x1b[1mbad{RESET}\n  {BLUE}-->{RESET} f:1:1\n{BLUE}  |{RESET}\n{BLUE}1 |{RESET} x\n{BLUE}  |{RESET} {RED}^{RESET}\n"
    );
    assert_eq!(output, expected);
}

#[test]
fn test_for_severity() {
    assert_eq!(for_severity(Severity::Error), "\x1b[31m");
    assert_eq!(for_severity(Severity::Warning), "\x1b[33m");
    assert_eq!(for_severity(Severity::Info), "\x1b[34m");
    assert_eq!(for_severity(Severity::Hint), "\x1b[36m");
}

#[test]
fn test_format_diagnostics_and_terminal() {
    let source = "ab\ncd";
    let diags = vec![
        Diagnostic::error("first", Span::new(0, 1)),
        Diagnostic::warning("second", Span::new(3, 5)),
    ];
    let text = format_diagnostics(&diags, source, "f");
    let one = format_diagnostic(&diags[0], source, "f", &LineIndex::new(source));
    let two = format_diagnostic(&diags[1], source, "f", &LineIndex::new(source));
    assert_eq!(text, format!("{one}\n{two}\n"));

    let mut all = Diagnostics::new();
    all.add(Diagnostic::error("first", Span::new(0, 1)));
    all.add(Diagnostic::warning("second", Span::new(3, 5)));
    assert_eq!(all.format_terminal(source, "f"), text);
    let colored = all.format_terminal_colored(source, "f");
    assert!(colored.ends_with("error: could not compile due to 1 error and 1 warning\n"));
}

fn strip_ansi(s: &str) -> String {
    let mut out = String::new();
    let mut chars = s.chars().peekable();
    while let Some(c) = chars.next() {
        if c == '\x1b' {
            for d in chars.by_ref() {
                if d == 'm' {
                    break;
                }
            }
        } else {
            out.push(c);
        }
    }
    out
}

#[test]
fn test_colored_without_codes_is_plain() {
    let source = "blueprint Test {\n  é x\n}";
    let diag = Diagnostic::warning("check this", Span::new(22, 23))
        .with_code("E0301")
        .with_help("try that")
        .with_label(Label::new(Span::new(10, 14), "here"));
    let index = LineIndex::new(source);
    let plain = format_diagnostic(&diag, source, "t.frel", &index);
    let colored = format_diagnostic_colored(&diag, source, "t.frel", &index);
    assert_ne!(plain, colored);
    assert_eq!(strip_ansi(&colored), plain);
    assert!(plain.contains("t.frel:2:5"));
}
