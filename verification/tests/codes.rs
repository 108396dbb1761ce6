use frel_compiler_core::diagnostic::codes::{by_category, lookup, Category};

#[test]
fn test_lookup() {
    assert_eq!(lookup("E0301").map(|c| c.name), Some("undefined_name"));
    assert_eq!(lookup("E9999"), None);
}

#[test]
fn test_category_codes() {
    let resolution = by_category(Category::Resolution);
    assert!(resolution.iter().all(|c| c.category == Category::Resolution));
    assert!(resolution.len() >= 6);
}

#[test]
fn test_code_format() {
    // All codes should match format E0Nxx where N is category digit
    for code in by_category(Category::Resolution) {
        assert!(code.code.starts_with("E03"));
    }
    for code in by_category(Category::Type) {
        assert!(code.code.starts_with("E04"));
    }
}

#[test]
fn test_lookup_and_categories_agree() {
    for cat in [Category::Syntax, Category::Parse, Category::Resolution, Category::Type, Category::Reactive, Category::Backend, Category::Blueprint] {
        for e in by_category(cat) {
            assert_eq!(e.code.len(), 5);
            assert!(e.code.starts_with(cat.code_prefix()));
            assert_eq!(lookup(e.code).map(|f| f.code), Some(e.code));
        }
    }
    let e = lookup("E0102").unwrap();
    assert_eq!(e.name, "unterminated_string");
    assert!(by_category(e.category).iter().any(|f| f.code == "E0102"));
}
