use frel_compiler_core::ast::{BackendMember, BinaryOp, Expr, TopLevelDecl, TypeExpr};
use frel_compiler_core::parser::parse;
use frel_compiler_core::{compile, parse_file};

fn parse_expr(source: &str) -> Option<Expr> {
    // Wrap in a backend to test expression parsing
    let full_source = format!("module test\nbackend Test {{ x: i32 = {} }}", source);
    let result = parse(&full_source);
    if result.diagnostics.has_errors() {
        return None;
    }
    let file = result.file?;
    let mut declarations = file.declarations;
    if let TopLevelDecl::Backend(backend) = declarations.remove(0) {
        let mut members = backend.members;
        if let BackendMember::Field(field) = members.remove(0) {
            return field.init;
        }
    }
    None
}

fn parse_type(source: &str) -> Option<TypeExpr> {
    // Wrap in a minimal backend field to test type parsing
    let full_source = format!("module test\nbackend Test {{ x: {} }}", source);
    let result = parse(&full_source);
    if result.diagnostics.has_errors() {
        return None;
    }
    let file = result.file?;
    let mut declarations = file.declarations;
    if let TopLevelDecl::Backend(backend) = declarations.remove(0) {
        let mut members = backend.members;
        if let BackendMember::Field(field) = members.remove(0) {
            return Some(field.type_expr);
        }
    }
    None
}

// ---------------------------------------------------------------- crate root

#[test]
fn lib_test_parse_module() {
    let result = parse_file("module test.example");
    assert!(!result.diagnostics.has_errors());
    assert!(result.file.is_some());
}

#[test]
fn test_parse_complete_example() {
    let source = r#"
module test.counter

backend CounterBackend {
    count: i32 = 0
    command increment()
    command decrement()
}

blueprint Counter {
    with CounterBackend

    column {
        text { "Count" }
        button {
            on_click { increment() }
            text { "+" }
        }
    }
}
"#;
    let result = parse_file(source);
    if result.diagnostics.has_errors() {
        for diag in result.diagnostics.iter() {
            println!("{}", diag.message);
        }
    }
    assert!(!result.diagnostics.has_errors());

    let file = result.file.unwrap();
    assert_eq!(file.module, "test.counter");
    assert_eq!(file.declarations.len(), 2);
}

#[test]
fn test_error_reporting() {
    let source = "module test\nblueprint { }"; // Missing name
    let result = parse_file(source);
    assert!(result.diagnostics.has_errors());
}

#[test]
fn test_multiple_errors() {
    let source = r#"
module test
blueprint A { @ }
blueprint B { }
"#;
    let result = parse_file(source);
    // Should report error for the @ but also parse blueprint B
    assert!(result.diagnostics.has_errors());
}

#[test]
fn compile_parses_the_source() {
    let result = compile("module a.b\nenum E { X }");
    assert!(!result.diagnostics.has_errors());
    let file = result.file.unwrap();
    assert_eq!(file.module, "a.b");
    assert_eq!(file.declarations.len(), 1);
}

// ---------------------------------------------------------------- parser/mod

#[test]
fn mod_test_parse_module() {
    let result = parse("module test.example");
    assert!(!result.diagnostics.has_errors());
    let file = result.file.unwrap();
    assert_eq!(file.module, "test.example");
}

#[test]
fn test_parse_import() {
    let result = parse("module test\nimport foo.bar.Baz");
    assert!(!result.diagnostics.has_errors());
    let file = result.file.unwrap();
    assert_eq!(file.imports.len(), 1);
    assert_eq!(file.imports[0].module, "foo.bar");
    assert_eq!(file.imports[0].name, "Baz");
}

#[test]
fn mod_test_error_recovery() {
    // Missing module keyword - should error but continue
    let result = parse("foo.bar\nblueprint Test {}");
    assert!(result.diagnostics.has_errors());
}

#[test]
fn missing_module_gives_no_file() {
    let result = parse("");
    assert!(result.file.is_none());
    assert!(result.diagnostics.has_errors());
}

#[test]
fn recovery_keeps_later_declarations() {
    let result = parse("module m\nblueprint A { @ }\nenum B { X Y }");
    assert!(result.diagnostics.has_errors());
    let file = result.file.unwrap();
    let enums = file
        .declarations
        .iter()
        .filter(|d| matches!(d, TopLevelDecl::Enum(_)))
        .count();
    assert_eq!(enums, 1);
}

// ---------------------------------------------------------------- expressions

#[test]
fn test_literals() {
    assert!(matches!(parse_expr("42"), Some(Expr::Int(42))));
    assert!(
        matches!(parse_expr("3.14"), Some(Expr::Float(f)) if (f.parse::<f64>().unwrap() - 3.14).abs() < 0.001)
    );
    assert!(matches!(parse_expr("true"), Some(Expr::Bool(true))));
    assert!(matches!(parse_expr("false"), Some(Expr::Bool(false))));
    assert!(matches!(parse_expr("null"), Some(Expr::Null)));
}

#[test]
fn test_hex_binary_octal() {
    assert!(matches!(parse_expr("0xFF"), Some(Expr::Int(255))));
    assert!(matches!(parse_expr("0b1010"), Some(Expr::Int(10))));
    assert!(matches!(parse_expr("0o77"), Some(Expr::Int(63))));
}

#[test]
fn test_string() {
    if let Some(Expr::String(s)) = parse_expr(r#""hello""#) {
        assert_eq!(s, "hello");
    } else {
        panic!("Expected string");
    }
}

#[test]
fn string_escapes_are_resolved() {
    if let Some(Expr::String(s)) = parse_expr(r#""a\nb\t\"c\"\\""#) {
        assert_eq!(s, "a\nb\t\"c\"\\");
    } else {
        panic!("Expected string");
    }
}

#[test]
fn test_binary_ops() {
    assert!(matches!(parse_expr("1 + 2"), Some(Expr::Binary { .. })));
    assert!(matches!(parse_expr("a && b"), Some(Expr::Binary { .. })));
    assert!(matches!(parse_expr("x == y"), Some(Expr::Binary { .. })));
}

#[test]
fn test_unary_ops() {
    assert!(matches!(parse_expr("!x"), Some(Expr::Unary { .. })));
    assert!(matches!(parse_expr("-5"), Some(Expr::Unary { .. })));
}

#[test]
fn test_ternary() {
    assert!(matches!(parse_expr("a ? b : c"), Some(Expr::Ternary { .. })));
}

#[test]
fn test_field_access() {
    assert!(matches!(parse_expr("a.b"), Some(Expr::FieldAccess { .. })));
    assert!(matches!(parse_expr("a?.b"), Some(Expr::OptionalChain { .. })));
}

#[test]
fn test_call() {
    assert!(matches!(parse_expr("foo()"), Some(Expr::Call { .. })));
    assert!(matches!(parse_expr("foo(1, 2)"), Some(Expr::Call { .. })));
}

#[test]
fn test_list() {
    if let Some(Expr::List(elements)) = parse_expr("[1, 2, 3]") {
        assert_eq!(elements.len(), 3);
    } else {
        panic!("Expected list");
    }
}

#[test]
fn test_object() {
    if let Some(Expr::Object(fields)) = parse_expr("{ a: 1, b: 2 }") {
        assert_eq!(fields.len(), 2);
    } else {
        panic!("Expected object");
    }
}

#[test]
fn test_precedence() {
    // 1 + 2 * 3 should be 1 + (2 * 3)
    if let Some(Expr::Binary { op, left, right }) = parse_expr("1 + 2 * 3") {
        assert!(matches!(op, BinaryOp::Add));
        assert!(matches!(*left, Expr::Int(1)));
        assert!(matches!(*right, Expr::Binary { .. }));
    } else {
        panic!("Expected binary");
    }
}

#[test]
fn power_is_right_associative() {
    // 2 ** 3 ** 2 is 2 ** (3 ** 2)
    if let Some(Expr::Binary { op, left, right }) = parse_expr("2 ** 3 ** 2") {
        assert!(matches!(op, BinaryOp::Pow));
        assert!(matches!(*left, Expr::Int(2)));
        assert!(matches!(*right, Expr::Binary { op: BinaryOp::Pow, .. }));
    } else {
        panic!("Expected binary");
    }
}

#[test]
fn subtraction_is_left_associative() {
    // 5 - 2 - 1 is (5 - 2) - 1
    if let Some(Expr::Binary { op, left, right }) = parse_expr("5 - 2 - 1") {
        assert!(matches!(op, BinaryOp::Sub));
        assert!(matches!(*left, Expr::Binary { op: BinaryOp::Sub, .. }));
        assert!(matches!(*right, Expr::Int(1)));
    } else {
        panic!("Expected binary");
    }
}

#[test]
fn integer_literal_with_underscores() {
    assert!(matches!(parse_expr("1_000"), Some(Expr::Int(1000))));
    assert!(matches!(parse_expr("0xff_ff"), Some(Expr::Int(65535))));
}

#[test]
fn integer_literal_out_of_range_reads_as_zero() {
    assert!(matches!(parse_expr("99999999999999999999"), Some(Expr::Int(0))));
}

#[test]
fn float_literal_keeps_its_digits() {
    if let Some(Expr::Float(text)) = parse_expr("1_0.5e2") {
        assert_eq!(text, "10.5e2");
    } else {
        panic!("Expected float");
    }
}

// ---------------------------------------------------------------- types

#[test]
fn test_named_type() {
    let t = parse_type("String").unwrap();
    assert!(matches!(t, TypeExpr::Named(s) if s == "String"));
}

#[test]
fn test_nullable_type() {
    let t = parse_type("String?").unwrap();
    assert!(matches!(t, TypeExpr::Nullable(_)));
}

#[test]
fn test_ref_type() {
    let t = parse_type("ref User").unwrap();
    assert!(matches!(t, TypeExpr::Ref(_)));
}

#[test]
fn test_list_type() {
    let t = parse_type("List<String>").unwrap();
    assert!(matches!(t, TypeExpr::List(_)));
}

#[test]
fn test_map_type() {
    let t = parse_type("Map<String, i32>").unwrap();
    assert!(matches!(t, TypeExpr::MapOf(_, _)));
}

#[test]
fn test_complex_type() {
    let t = parse_type("List<ref User>?").unwrap();
    if let TypeExpr::Nullable(inner) = t {
        assert!(matches!(*inner, TypeExpr::List(_)));
    } else {
        panic!("Expected Nullable");
    }
}

// ---------------------------------------------------------------- declarations

#[test]
fn test_parse_arena() {
    let result = parse(
        r#"
module test

arena UserArena {
    for User with UserAPI
}
"#,
    );
    assert!(!result.diagnostics.has_errors());
}

#[test]
fn test_parse_backend() {
    let result = parse(
        r#"
module test

backend Counter {
    count: i32 = 0
    method increment(): i32
    command reset()
}
"#,
    );
    assert!(!result.diagnostics.has_errors());
    let file = result.file.unwrap();
    assert_eq!(file.declarations.len(), 1);
}

#[test]
fn test_contextual_keywords_as_field_names() {
    // Contextual keywords (theme, backend, module, etc.) can be used as field names
    let result = parse(
        r#"
module test

theme AppTheme {
    primaryColor: asset Color
    padding: u32 = 16
}

backend AppBackend {
    theme: ref AppTheme
    backend: String = "local"
    module: String = "main"
    blueprint: String = "default"
    scheme: String = "standard"
    enum: String = "value"
    arena: String = "primary"
    contract: String = "api"
    import: String = "external"
}
"#,
    );
    assert!(
        !result.diagnostics.has_errors(),
        "Contextual keywords should be usable as field names. Errors: {:?}",
        result.diagnostics
    );
    let file = result.file.unwrap();
    assert_eq!(file.declarations.len(), 2);

    // Verify the backend has the expected fields
    if let TopLevelDecl::Backend(backend) = &file.declarations[1] {
        let field_names: Vec<&str> = backend
            .members
            .iter()
            .filter_map(|m| {
                if let BackendMember::Field(f) = m {
                    Some(f.name.as_str())
                } else {
                    None
                }
            })
            .collect();
        assert!(field_names.contains(&"theme"));
        assert!(field_names.contains(&"backend"));
        assert!(field_names.contains(&"module"));
        assert!(field_names.contains(&"blueprint"));
    } else {
        panic!("Expected backend declaration");
    }
}

#[test]
fn test_simple_blueprint() {
    let result = parse(
        r#"
module test

blueprint Counter {
    count: i32 = 0
}
"#,
    );
    assert!(!result.diagnostics.has_errors());
}

#[test]
fn test_blueprint_with_fragment() {
    let result = parse(
        r#"
module test

blueprint App {
    column {
        text { "Hello" }
    }
}
"#,
    );
    assert!(!result.diagnostics.has_errors());
}

#[test]
fn test_blueprint_with_instructions() {
    let result = parse(
        r#"
module test

blueprint Styled {
    box .. width { 100 } .. height { 50 }
}
"#,
    );
    assert!(!result.diagnostics.has_errors());
}

#[test]
fn test_blueprint_with_when() {
    let result = parse(
        r#"
module test

blueprint Conditional {
    when visible {
        text { "Shown" }
    }
}
"#,
    );
    assert!(!result.diagnostics.has_errors());
}

#[test]
fn test_blueprint_with_repeat() {
    let result = parse(
        r#"
module test

blueprint List {
    repeat on items as item {
        text { item.name }
    }
}
"#,
    );
    for diag in result.diagnostics.iter() {
        println!("Error: {:?}", diag);
    }
    assert!(!result.diagnostics.has_errors());
}

#[test]
fn test_blueprint_with_event() {
    let result = parse(
        r#"
module test

blueprint Button {
    on_click {
        count = count + 1
    }
}
"#,
    );
    assert!(!result.diagnostics.has_errors());
}

#[test]
fn test_blueprint_with_backend() {
    let result = parse(
        r#"
module test

blueprint App {
    with AppBackend

    button {
        on_click { increment() }
    }
}
"#,
    );
    assert!(!result.diagnostics.has_errors());
}

#[test]
fn test_parse_contract() {
    let result = parse(
        r#"
module test

contract API {
    fetch(id: i32): String
    save(data: String)
}
"#,
    );
    assert!(!result.diagnostics.has_errors());
}

#[test]
fn test_parse_enum() {
    let result = parse(
        r#"
module test

enum Status {
    Pending
    Active
    Completed
}
"#,
    );
    assert!(!result.diagnostics.has_errors());
    let file = result.file.unwrap();
    if let TopLevelDecl::Enum(e) = &file.declarations[0] {
        assert_eq!(e.variants.len(), 3);
    }
}

#[test]
fn test_parse_scheme() {
    let result = parse(
        r#"
module test

scheme User {
    id: i32 .. identity
    name: String .. default { "unknown" }
    virtual display_name: String = name
}
"#,
    );
    assert!(!result.diagnostics.has_errors());
}

#[test]
fn test_parse_theme() {
    let result = parse(
        r#"
module test

theme MyTheme {
    primary_color: asset Color
    padding: i32 = 16

    set button_style {
        padding { 8 }
    }

    variant Dark {
        primary_color = 0x000000
    }
}
"#,
    );
    assert!(!result.diagnostics.has_errors());
}
