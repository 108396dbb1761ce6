use frel_compiler_core::lexer::{Lexer, Token, TokenKind};

fn lex(source: &str) -> Vec<TokenKind> {
    let lexer = Lexer::new(source);
    let (tokens, _) = lexer.tokenize();
    tokens.into_iter().map(|t| t.kind).collect()
}

fn lex_all(source: &str) -> (Vec<Token>, frel_compiler_core::diagnostic::Diagnostics) {
    Lexer::new(source).tokenize()
}

#[test]
fn scan_test_contextual_keywords() {
    // Contextual keywords (top-level declarations) are lexed as Identifier
    assert_eq!(
        lex("blueprint backend scheme"),
        vec![TokenKind::Identifier, TokenKind::Identifier, TokenKind::Identifier, TokenKind::Eof]
    );
}

#[test]
fn test_always_reserved_keywords() {
    // Always-reserved keywords are lexed as their specific token types
    assert_eq!(
        lex("when else repeat with include"),
        vec![
            TokenKind::When,
            TokenKind::Else,
            TokenKind::Repeat,
            TokenKind::With,
            TokenKind::Include,
            TokenKind::Eof
        ]
    );
}

#[test]
fn scan_test_operators() {
    assert_eq!(
        lex("+ - * / ** == != <= >= && || ?. ?:"),
        vec![
            TokenKind::Plus,
            TokenKind::Minus,
            TokenKind::Star,
            TokenKind::Slash,
            TokenKind::StarStar,
            TokenKind::EqEq,
            TokenKind::BangEq,
            TokenKind::LtEq,
            TokenKind::GtEq,
            TokenKind::AmpAmp,
            TokenKind::PipePipe,
            TokenKind::QuestionDot,
            TokenKind::QuestionColon,
            TokenKind::Eof
        ]
    );
}

#[test]
fn scan_test_numbers() {
    let tokens = lex("42 3.14 0xFF 0b1010 0o777 1.0e10");
    assert_eq!(
        tokens,
        vec![
            TokenKind::IntLiteral,
            TokenKind::FloatLiteral,
            TokenKind::IntLiteral,
            TokenKind::IntLiteral,
            TokenKind::IntLiteral,
            TokenKind::FloatLiteral,
            TokenKind::Eof
        ]
    );
}

#[test]
fn scan_test_strings() {
    assert_eq!(lex(r#""hello""#), vec![TokenKind::StringLiteral, TokenKind::Eof]);
}

#[test]
fn scan_test_string_template() {
    // String with interpolation starts as StringTemplateStart
    let tokens = lex(r#""hello ${name}""#);
    assert_eq!(tokens[0], TokenKind::StringTemplateStart);
}

#[test]
fn scan_test_identifiers() {
    assert_eq!(
        lex("foo _bar Baz123"),
        vec![TokenKind::Identifier, TokenKind::Identifier, TokenKind::Identifier, TokenKind::Eof]
    );
}

#[test]
fn scan_test_punctuation() {
    assert_eq!(
        lex("(){}[]:,."),
        vec![
            TokenKind::LParen,
            TokenKind::RParen,
            TokenKind::LBrace,
            TokenKind::RBrace,
            TokenKind::LBracket,
            TokenKind::RBracket,
            TokenKind::Colon,
            TokenKind::Comma,
            TokenKind::Dot,
            TokenKind::Eof
        ]
    );
}

#[test]
fn scan_test_comments() {
    assert_eq!(
        lex("foo // comment\nbar /* block */ baz"),
        vec![
            TokenKind::Identifier,
            TokenKind::Newline,
            TokenKind::Identifier,
            TokenKind::Identifier,
            TokenKind::Eof
        ]
    );
}

#[test]
fn scan_test_dotdot() {
    assert_eq!(
        lex(".. width { 100 }"),
        vec![
            TokenKind::DotDot,
            TokenKind::Identifier,
            TokenKind::LBrace,
            TokenKind::IntLiteral,
            TokenKind::RBrace,
            TokenKind::Eof
        ]
    );
}

#[test]
fn scan_test_arrow() {
    assert_eq!(lex("-> =>"), vec![TokenKind::Arrow, TokenKind::FatArrow, TokenKind::Eof]);
}

#[test]
fn scan_test_error_recovery() {
    let lexer = Lexer::new("foo @ bar");
    let (tokens, diags) = lexer.tokenize();
    // Should have tokens even with error
    assert!(tokens.iter().any(|t| t.kind == TokenKind::Error));
    assert!(diags.has_errors());
    // Should continue after error
    assert!(tokens.iter().any(|t| t.kind == TokenKind::Identifier));
}

#[test]
fn test_color_literals() {
    // Valid 6-digit RGB
    assert_eq!(lex("#FF0000"), vec![TokenKind::ColorLiteral, TokenKind::Eof]);
    // Valid 8-digit RGBA
    assert_eq!(lex("#FF0000FF"), vec![TokenKind::ColorLiteral, TokenKind::Eof]);
    // Multiple colors
    assert_eq!(lex("#FFFFFF #000000"), vec![TokenKind::ColorLiteral, TokenKind::ColorLiteral, TokenKind::Eof]);
    // Color in expression context
    assert_eq!(
        lex("color: #FF0000"),
        vec![TokenKind::Identifier, TokenKind::Colon, TokenKind::ColorLiteral, TokenKind::Eof]
    );
}

#[test]
fn test_color_literal_errors() {
    // Too few digits
    let lexer = Lexer::new("#FFF");
    let (tokens, diags) = lexer.tokenize();
    assert!(tokens.iter().any(|t| t.kind == TokenKind::Error));
    assert!(diags.has_errors());

    // Too many digits
    let lexer = Lexer::new("#FFFFFFFFF");
    let (tokens, diags) = lexer.tokenize();
    assert!(tokens.iter().any(|t| t.kind == TokenKind::Error));
    assert!(diags.has_errors());
}

#[test]
fn test_layout_block_basic() {
    let tokens = lex(
        r#""""layout
| a | b |
""""#,
    );
    assert_eq!(tokens, vec![TokenKind::LayoutBlock, TokenKind::Eof]);
}

#[test]
fn test_layout_block_with_sizes() {
    let tokens = lex(
        r#""""layout
     ~0.5    ~0.8
  24 | slot1 | slot2 |
 ~1  | slot3 | slot4 |
""""#,
    );
    assert_eq!(tokens, vec![TokenKind::LayoutBlock, TokenKind::Eof]);
}

#[test]
fn test_layout_block_with_instructions() {
    let tokens = lex(
        r#""""layout
.. gap { 8 }
| a | b |
""""#,
    );
    assert_eq!(tokens, vec![TokenKind::LayoutBlock, TokenKind::Eof]);
}

#[test]
fn test_layout_block_unclosed() {
    let lexer = Lexer::new(
        r#""""layout
| a | b |"#,
    );
    let (tokens, diags) = lexer.tokenize();
    assert!(tokens.iter().any(|t| t.kind == TokenKind::Error));
    assert!(diags.has_errors());
}

#[test]
fn test_layout_block_unknown_type() {
    let lexer = Lexer::new(
        r#""""unknown
content
""""#,
    );
    let (tokens, diags) = lexer.tokenize();
    // Should still produce a LayoutBlock token (for error recovery)
    assert!(tokens.iter().any(|t| t.kind == TokenKind::LayoutBlock));
    assert!(diags.has_errors());
}

#[test]
fn test_layout_block_with_quote_inside() {
    // A single " inside layout block shouldn't close it
    let tokens = lex(
        r#""""layout
| "quoted" |
""""#,
    );
    assert_eq!(tokens, vec![TokenKind::LayoutBlock, TokenKind::Eof]);
}

#[test]
fn test_string_not_affected_by_layout() {
    // Regular strings should still work
    assert_eq!(lex(r#""hello""#), vec![TokenKind::StringLiteral, TokenKind::Eof]);
}

#[test]
fn test_layout_block_followed_by_tokens() {
    // Layout block followed by slot bindings
    let tokens = lex(
        r#""""layout
| a | b |
"""
at slot1"#,
    );
    assert_eq!(
        tokens,
        vec![TokenKind::LayoutBlock, TokenKind::Newline, TokenKind::At, TokenKind::Identifier, TokenKind::Eof]
    );
}

// --- Spans, messages and edge cases ---

#[test]
fn test_spans_and_eof() {
    let source = "ab  ->\n  9";
    let (tokens, diags) = lex_all(source);
    let spans: Vec<(TokenKind, u32, u32)> = tokens.iter().map(|t| (t.kind, t.span.start, t.span.end)).collect();
    assert_eq!(
        spans,
        vec![
            (TokenKind::Identifier, 0, 2),
            (TokenKind::Arrow, 4, 6),
            (TokenKind::Newline, 6, 7),
            (TokenKind::IntLiteral, 9, 10),
            (TokenKind::Eof, 10, 10)
        ]
    );
    assert!(diags.is_empty());
}

#[test]
fn test_empty_source() {
    let (tokens, diags) = lex_all("");
    assert_eq!(tokens.len(), 1);
    assert_eq!(tokens[0].kind, TokenKind::Eof);
    assert_eq!((tokens[0].span.start, tokens[0].span.end), (0, 0));
    assert!(diags.is_empty());
}

#[test]
fn test_unknown_multibyte_character() {
    let source = "a é b";
    let (tokens, diags) = lex_all(source);
    let error = tokens.iter().find(|t| t.kind == TokenKind::Error).unwrap();
    assert_eq!((error.span.start, error.span.end), (2, 4));
    assert_eq!(error.text(source), "é");
    let d = &diags.as_slice()[0];
    assert_eq!(d.message, "unexpected character 'é'");
    assert_eq!(d.code, Some("E0101".to_string()));
    assert_eq!(tokens.iter().filter(|t| t.kind == TokenKind::Identifier).count(), 2);
}

#[test]
fn test_multibyte_inside_string_and_comment() {
    let (tokens, diags) = lex_all("\"héllo ✓\" /* ✓ */ x // ü\n");
    assert_eq!(
        tokens.iter().map(|t| t.kind).collect::<Vec<_>>(),
        vec![TokenKind::StringLiteral, TokenKind::Identifier, TokenKind::Newline, TokenKind::Eof]
    );
    assert!(diags.is_empty());
}

#[test]
fn test_single_ampersand_and_pipe() {
    let (tokens, diags) = lex_all("a & b | c");
    assert_eq!(tokens.iter().filter(|t| t.kind == TokenKind::Error).count(), 2);
    let all = diags.as_slice();
    assert_eq!(all[0].message, "expected '&&', found single '&'");
    assert_eq!(all[0].code, Some("E0101".to_string()));
    assert_eq!(all[0].help, Some("Frel uses '&&' for logical AND".to_string()));
    assert_eq!(all[1].code, Some("E0101".to_string()));
}

#[test]
fn test_unterminated_string_and_comment() {
    let (tokens, diags) = lex_all("\"abc\nx");
    assert_eq!(tokens[0].kind, TokenKind::Error);
    assert_eq!((tokens[0].span.start, tokens[0].span.end), (0, 4));
    assert_eq!(diags.as_slice()[0].code, Some("E0102".to_string()));

    let (tokens, diags) = lex_all("x /* never closed");
    assert_eq!(tokens.iter().map(|t| t.kind).collect::<Vec<_>>(), vec![TokenKind::Identifier, TokenKind::Eof]);
    assert_eq!(diags.as_slice()[0].message, "unterminated block comment");
    assert_eq!(diags.as_slice()[0].code, Some("E0101".to_string()));
}

#[test]
fn test_nested_block_comment() {
    assert_eq!(lex("a /* x /* y */ z */ b"), vec![TokenKind::Identifier, TokenKind::Identifier, TokenKind::Eof]);
}

#[test]
fn test_string_template_pieces() {
    let source = r#""a ${x} b ${y} c""#;
    let (tokens, diags) = lex_all(source);
    assert_eq!(
        tokens.iter().map(|t| t.kind).collect::<Vec<_>>(),
        vec![
            TokenKind::StringTemplateStart,
            TokenKind::Identifier,
            TokenKind::StringTemplateMiddle,
            TokenKind::Identifier,
            TokenKind::StringTemplateEnd,
            TokenKind::Eof
        ]
    );
    assert_eq!(tokens[0].text(source), "\"a ${");
    assert_eq!(tokens[2].text(source), "} b ${");
    assert_eq!(tokens[4].text(source), "} c\"");
    assert!(diags.is_empty());
}

#[test]
fn test_color_error_message() {
    let (_, diags) = lex_all("#12345");
    let d = &diags.as_slice()[0];
    assert_eq!(d.message, "color literal must have 6 or 8 hex digits, found 5");
    assert_eq!(d.code, Some("E0105".to_string()));
    assert_eq!(d.help, Some("use #RRGGBB or #RRGGBBAA format".to_string()));
}

#[test]
fn test_layout_block_type_message() {
    let (_, diags) = lex_all("\"\"\"grid\n\"\"\"");
    let d = &diags.as_slice()[0];
    assert_eq!(d.message, "unknown triple-quoted block type 'grid', expected 'layout'");
    assert_eq!((d.span.start, d.span.end), (3, 7));
}

#[test]
fn test_number_forms() {
    let source = "1_000 2.5e-3 7. 0x_ff";
    let (tokens, _) = lex_all(source);
    let texts: Vec<&str> = tokens.iter().filter(|t| t.kind != TokenKind::Eof).map(|t| t.text(source)).collect();
    assert_eq!(texts, vec!["1_000", "2.5e-3", "7", ".", "0x_ff"]);
}

#[test]
fn tokens_are_separated_only_by_blanks_and_comments() {
    let source = "a /* x /* y */ z */ b // c\n\t d";
    let (tokens, diagnostics) = lex_all(source);
    assert!(!diagnostics.has_errors());
    let starts: Vec<u32> = tokens.iter().map(|t| t.span.start).collect();
    let kinds: Vec<TokenKind> = tokens.iter().map(|t| t.kind).collect();
    assert_eq!(
        kinds,
        vec![TokenKind::Identifier, TokenKind::Identifier, TokenKind::Newline, TokenKind::Identifier, TokenKind::Eof]
    );
    assert_eq!(starts, vec![0, 20, 26, 29, 30]);
}

#[test]
fn unterminated_block_comment_runs_to_the_end() {
    let (tokens, diagnostics) = lex_all("a /* b /* c */");
    assert!(diagnostics.has_errors());
    assert_eq!(tokens.len(), 2);
    assert_eq!(tokens[1].kind, TokenKind::Eof);
    assert_eq!(tokens[1].span.start, 14);
}

#[test]
fn test_unexpected_character_between_words() {
    let (tokens, diags) = lex_all("foo @ bar");
    assert_eq!(
        tokens.iter().map(|t| t.kind).collect::<Vec<_>>(),
        vec![TokenKind::Identifier, TokenKind::Error, TokenKind::Identifier, TokenKind::Eof]
    );
    assert_eq!(diags.len(), 1);
    assert_eq!((diags.as_slice()[0].span.start, diags.as_slice()[0].span.end), (4, 5));
    assert_eq!(diags.as_slice()[0].code, Some("E0101".to_string()));
}
