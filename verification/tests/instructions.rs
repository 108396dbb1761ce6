use frel_compiler_core::semantic::instructions::InstructionRegistry;

#[test]
fn test_registry_creation() {
    let registry = InstructionRegistry::new();
    assert!(registry.is_known("cursor"));
    assert!(registry.is_known("align_items"));
    assert!(registry.is_known("focusable"));
    assert!(registry.is_shorthand("constrain"));
}

#[test]
fn test_cursor_keywords() {
    let registry = InstructionRegistry::new();
    assert!(registry.is_valid_keyword("cursor", "", "pointer"));
    assert!(registry.is_valid_keyword("cursor", "", "default"));
    assert!(!registry.is_valid_keyword("cursor", "", "invalid_cursor"));
}

#[test]
fn test_align_items_keywords() {
    let registry = InstructionRegistry::new();
    assert!(registry.is_valid_keyword("align_items", "horizontal", "center"));
    assert!(registry.is_valid_keyword("align_items", "horizontal", "start"));
    assert!(registry.is_valid_keyword("align_items", "vertical", "top"));
    assert!(!registry.is_valid_keyword("align_items", "horizontal", "top")); // top is for vertical
}

#[test]
fn test_width_accepts_expressions() {
    let registry = InstructionRegistry::new();
    // width accepts both keywords and expressions
    assert!(registry.accepts_expression("width", ""));
    assert!(registry.is_valid_keyword("width", "", "expand"));
}

#[test]
fn test_valid_keywords_lookup() {
    let registry = InstructionRegistry::new();
    let keywords = registry.valid_keywords("cursor", "");
    assert!(keywords.is_some());
    assert!(keywords.unwrap().contains(&"pointer"));
}
