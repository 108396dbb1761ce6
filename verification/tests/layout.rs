use frel_compiler_core::ast::{HAlign, LayoutSize, LayoutStmt, MergeDirection, VAlign};
use frel_compiler_core::diagnostic::{Diagnostics, Severity};
use frel_compiler_core::parser::layout::LayoutParser;

fn parse_layout(content: &str) -> (Option<LayoutStmt>, Diagnostics) {
    let mut diagnostics = Diagnostics::new();
    let mut parser = LayoutParser::new(content, 0);
    let result = parser.parse(&mut diagnostics);
    (result, diagnostics)
}

fn weight(size: &LayoutSize) -> f64 {
    match size {
        LayoutSize::Weight(w) => w.parse::<f64>().unwrap(),
        _ => panic!("expected weight"),
    }
}

#[test]
fn test_basic_grid() {
    let (grid, diags) = parse_layout(
        r#"
| slot1 | slot2 |
| slot3 | slot4 |
"#,
    );
    assert!(!diags.has_errors());
    let grid = grid.unwrap();
    assert_eq!(grid.rows.len(), 2);
    assert_eq!(grid.rows[0].cells.len(), 2);
    assert_eq!(grid.rows[0].cells[0].slot_name, Some("slot1".to_string()));
}

#[test]
fn test_column_sizes() {
    let (grid, diags) = parse_layout(
        r#"
  ~0.5    ~0.8
| slot1 | slot2 |
"#,
    );
    assert!(!diags.has_errors());
    let grid = grid.unwrap();
    assert_eq!(grid.column_sizes.len(), 2);
    assert!((weight(&grid.column_sizes[0]) - 0.5).abs() < 0.001);
}

#[test]
fn test_row_sizes() {
    let (grid, diags) = parse_layout(
        r#"
  24 | slot1 | slot2 |
 ~1  | slot3 | slot4 |
"#,
    );
    assert!(!diags.has_errors());
    let grid = grid.unwrap();
    assert_eq!(grid.rows.len(), 2);
    assert!(matches!(grid.rows[0].size, Some(LayoutSize::Fixed(24))));
    assert!(matches!(grid.rows[1].size, Some(LayoutSize::Weight(_))));
}

#[test]
fn test_alignment_modifiers() {
    let (grid, diags) = parse_layout(
        r#"
| < slot1 | ! slot2 | > slot3 |
"#,
    );
    assert!(!diags.has_errors());
    let grid = grid.unwrap();
    assert_eq!(grid.rows[0].cells[0].h_align, HAlign::Left);
    assert_eq!(grid.rows[0].cells[1].h_align, HAlign::Center);
    assert_eq!(grid.rows[0].cells[2].h_align, HAlign::Right);
}

#[test]
fn test_merge_indicators() {
    let (grid, diags) = parse_layout(
        r#"
| header | <--    |
| v--    | slot2  |
"#,
    );
    assert!(!diags.has_errors());
    let grid = grid.unwrap();
    assert_eq!(grid.rows[0].cells[1].merge, Some(MergeDirection::Left));
    assert_eq!(grid.rows[1].cells[0].merge, Some(MergeDirection::Down));
}

#[test]
fn test_content_size() {
    let (grid, diags) = parse_layout(
        r#"
     #      ~1
  # | slot1 | slot2 |
"#,
    );
    assert!(!diags.has_errors());
    let grid = grid.unwrap();
    assert!(matches!(grid.column_sizes[0], LayoutSize::Content));
    assert!(matches!(grid.rows[0].size, Some(LayoutSize::Content)));
}

#[test]
fn test_empty_cells() {
    let (grid, diags) = parse_layout(
        r#"
|        | slot |
| slot2  |      |
"#,
    );
    assert!(!diags.has_errors());
    let grid = grid.unwrap();
    assert!(grid.rows[0].cells[0].slot_name.is_none());
    assert!(grid.rows[1].cells[1].slot_name.is_none());
}

#[test]
fn test_mismatched_columns() {
    let (grid, diags) = parse_layout(
        r#"
| a | b | c |
| d | e |
"#,
    );
    assert!(diags.has_errors());
    // Should still produce a grid
    assert!(grid.is_some());
}

// ------------------------------------------------------------ further cases

#[test]
fn mismatched_row_is_reported_with_its_numbers() {
    let (_, diags) = parse_layout("| a | b | c |\n| d | e |\n");
    assert_eq!(diags.len(), 1);
    let d = &diags.as_slice()[0];
    assert_eq!(d.severity, Severity::Error);
    assert_eq!(d.code.as_deref(), Some("E0301"));
    assert_eq!(d.message, "row 2 has 2 cells, expected 3 (matching first row)");
    // The span is that of line 1 (the row index is used as a line index)
    assert_eq!((d.span.start, d.span.end), (14, 23));
}

#[test]
fn column_size_count_mismatch_is_reported() {
    let (grid, diags) = parse_layout("10 20 30\n| a | b |\n");
    let grid = grid.unwrap();
    assert_eq!(grid.column_sizes.len(), 3);
    assert_eq!(diags.len(), 1);
    let d = &diags.as_slice()[0];
    assert_eq!(d.code.as_deref(), Some("E0301"));
    assert_eq!(d.message, "column sizes count (3) doesn't match column count (2)");
    assert_eq!((d.span.start, d.span.end), (0, 19));
}

#[test]
fn second_column_size_line_is_a_warning() {
    let mut diagnostics = Diagnostics::new();
    let mut parser = LayoutParser::new("10 20\n30 40\n| a | b |", 7);
    let grid = parser.parse(&mut diagnostics).unwrap();
    assert!(matches!(grid.column_sizes[0], LayoutSize::Fixed(10)));
    assert!(matches!(grid.column_sizes[1], LayoutSize::Fixed(20)));
    assert!(!diagnostics.has_errors());
    assert_eq!(diagnostics.len(), 1);
    let d = &diagnostics.as_slice()[0];
    assert_eq!(d.severity, Severity::Warning);
    assert_eq!(d.code.as_deref(), Some("E0303"));
    assert_eq!(d.message, "multiple column size lines, using the first one");
    assert_eq!((d.span.start, d.span.end), (13, 18));
}

#[test]
fn instruction_lines_use_the_main_parser() {
    let (grid, diags) = parse_layout(".. padding { 8 }\n.. theme.card\n| a |\n");
    assert!(!diags.has_errors());
    let grid = grid.unwrap();
    assert_eq!(grid.instructions.len(), 2);
    assert_eq!(grid.rows.len(), 1);
}

#[test]
fn broken_instruction_line_is_reported() {
    let (grid, diags) = parse_layout(".. {\n| a |\n");
    assert!(diags.has_errors());
    assert_eq!(grid.unwrap().instructions.len(), 0);
}

#[test]
fn cell_modifiers_and_merges() {
    let (grid, _) = parse_layout("| >-- x | ^-- | ^ = | . _ | value | --> |\n");
    let cells = &grid.unwrap().rows[0].cells;
    assert_eq!(cells[0].merge, Some(MergeDirection::Right));
    // `-->` is two skipped dashes and a right alignment
    assert_eq!(cells[5].merge, None);
    assert_eq!(cells[5].h_align, HAlign::Right);
    assert_eq!(cells[0].slot_name, Some("x".to_string()));
    assert_eq!(cells[1].merge, Some(MergeDirection::Up));
    assert_eq!(cells[2].v_align, VAlign::Center);
    assert_eq!(cells[3].v_align, VAlign::Baseline);
    assert_eq!(cells[4].slot_name, Some("value".to_string()));
    assert_eq!(cells[4].h_align, HAlign::Left);
    assert_eq!(cells[4].v_align, VAlign::Top);
}

#[test]
fn blank_trailing_cell_equal_to_last_part_is_dropped() {
    // The parts after the last `|` are "  " and equal to the blank third part
    let (grid, _) = parse_layout("| a |  |  ");
    assert_eq!(grid.unwrap().rows[0].cells.len(), 1);
}

#[test]
fn invalid_sizes_are_skipped() {
    let (grid, _) = parse_layout("1.5 ~. 7\n");
    let grid = grid.unwrap();
    assert_eq!(grid.column_sizes.len(), 1);
    assert!(matches!(grid.column_sizes[0], LayoutSize::Fixed(7)));
}

#[test]
fn row_weight_keeps_its_text() {
    let (grid, _) = parse_layout(" ~ 2.5e1 | a |\n");
    let grid = grid.unwrap();
    match &grid.rows[0].size {
        Some(LayoutSize::Weight(w)) => assert_eq!(w, "2.5e1"),
        _ => panic!("expected weight"),
    }
}

#[test]
fn crlf_lines_are_split() {
    let (grid, diags) = parse_layout("| a | b |\r\n| c | d |\r\n");
    assert!(!diags.has_errors());
    let grid = grid.unwrap();
    assert_eq!(grid.rows.len(), 2);
    assert_eq!(grid.rows[1].cells[1].slot_name, Some("d".to_string()));
}
