use frel_compiler_core::lexer::TokenKind;

#[test]
fn test_keyword_lookup() {
    // Contextual keywords are NOT returned by keyword_from_str
    assert_eq!(TokenKind::keyword_from_str("blueprint"), None);
    assert_eq!(TokenKind::keyword_from_str("module"), None);
    // Always-reserved keywords are returned
    assert_eq!(TokenKind::keyword_from_str("true"), Some(TokenKind::True));
    assert_eq!(TokenKind::keyword_from_str("when"), Some(TokenKind::When));
    assert_eq!(TokenKind::keyword_from_str("foo"), None);
}

#[test]
fn token_test_contextual_keywords() {
    assert!(TokenKind::is_contextual_keyword("module"));
    assert!(TokenKind::is_contextual_keyword("blueprint"));
    assert!(TokenKind::is_contextual_keyword("backend"));
    assert!(!TokenKind::is_contextual_keyword("when"));
    assert!(!TokenKind::is_contextual_keyword("foo"));
}

#[test]
fn test_top_level_start() {
    assert!(TokenKind::is_top_level_start_str("blueprint"));
    assert!(TokenKind::is_top_level_start_str("backend"));
    assert!(!TokenKind::is_top_level_start_str("module")); // module is not a declaration start
    assert!(!TokenKind::is_top_level_start_str("import")); // import is not a declaration start
    assert!(!TokenKind::is_top_level_start_str("when"));
}

#[test]
fn test_keywords_are_not_contextual() {
    for w in ["with", "when", "else", "ref", "true", "null", "at"] {
        let k = TokenKind::keyword_from_str(w).unwrap();
        assert!(k.is_keyword());
        assert!(!TokenKind::is_contextual_keyword(w));
    }
    for w in ["module", "import", "blueprint", "scheme", "enum"] {
        assert!(TokenKind::keyword_from_str(w).is_none());
        assert!(TokenKind::is_contextual_keyword(w));
    }
}
