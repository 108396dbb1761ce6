use frel_compiler_core::source::{LineCol, LineIndex, Span};

#[test]
fn test_span_merge() {
    let a = Span::new(10, 20);
    let b = Span::new(15, 30);
    let merged = a.merge(b);
    assert_eq!(merged.start, 10);
    assert_eq!(merged.end, 30);
}

#[test]
fn test_line_index() {
    let source = "line 1\nline 2\nline 3";
    let index = LineIndex::new(source);

    assert_eq!(index.line_col(0), LineCol { line: 1, col: 1 });
    assert_eq!(index.line_col(5), LineCol { line: 1, col: 6 });
    assert_eq!(index.line_col(7), LineCol { line: 2, col: 1 });
    assert_eq!(index.line_col(14), LineCol { line: 3, col: 1 });
}

#[test]
fn test_line_text() {
    let source = "line 1\nline 2\nline 3";
    let index = LineIndex::new(source);

    assert_eq!(index.line_text(0, source), Some("line 1"));
    assert_eq!(index.line_text(1, source), Some("line 2"));
    assert_eq!(index.line_text(2, source), Some("line 3"));
}

#[test]
fn columns_count_characters() {
    let source = "é x\nab";
    let index = LineIndex::new(source);
    assert_eq!(index.line_col(3), LineCol { line: 1, col: 3 });
    assert_eq!(index.line_col(6), LineCol { line: 2, col: 2 });
}
