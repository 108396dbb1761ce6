use std::collections::HashMap;

use frel_compiler_core::ast::{BinaryOp, Expr, TemplateElement, UnaryOp};
use frel_compiler_core::semantic::scope::{ScopeGraph, ScopeId, ScopeKind};
use frel_compiler_core::semantic::symbol::{SymbolKind, SymbolTable};
use frel_compiler_core::semantic::typecheck::expressions::ExprChecker;
use frel_compiler_core::semantic::types::Type;
use frel_compiler_core::source::Span;

struct World {
    scopes: ScopeGraph,
    symbols: SymbolTable,
    types: HashMap<u32, Type>,
    root: ScopeId,
}

/// A scheme `User` with a field `name: String`, an enum `Color` with a
/// variant `Red`, a field `user: User` and a nullable field `maybe: User?`.
fn world() -> World {
    let mut scopes = ScopeGraph::new();
    let root = scopes.create_root(Span::new(0, 100));
    let user_body = scopes.create_scope(ScopeKind::Scheme, root, Span::new(0, 10));
    let color_body = scopes.create_scope(ScopeKind::Enum, root, Span::new(10, 20));
    let mut symbols = SymbolTable::new();
    let user = symbols.define_with_scope("User", SymbolKind::Scheme, root, user_body, Span::new(0, 4)).unwrap();
    let name = symbols.define("name", SymbolKind::Field, user_body, Span::new(5, 9)).unwrap();
    let color = symbols.define_with_scope("Color", SymbolKind::Enum, root, color_body, Span::new(10, 15)).unwrap();
    symbols.define("Red", SymbolKind::EnumVariant, color_body, Span::new(16, 19)).unwrap();
    let user_field = symbols.define("user", SymbolKind::Field, root, Span::new(30, 34)).unwrap();
    let maybe = symbols.define("maybe", SymbolKind::Field, root, Span::new(40, 45)).unwrap();
    let mut types = HashMap::new();
    types.insert(name.0, Type::String);
    types.insert(user_field.0, Type::Scheme(user));
    types.insert(maybe.0, Type::Nullable(Box::new(Type::Scheme(user))));
    let _ = color;
    World { scopes, symbols, types, root }
}

fn ident(name: &str) -> Expr {
    Expr::Identifier(name.to_string())
}

fn field(base: Expr, name: &str) -> Expr {
    Expr::FieldAccess { base: Box::new(base), field: name.to_string() }
}

#[test]
fn literals_have_their_types() {
    let w = world();
    let span = Span::new(1, 2);
    let mut checker = ExprChecker::new(&w.scopes, &w.symbols, &w.types, w.root, span);
    assert_eq!(checker.infer_expr_type(&Expr::Int(7)), Type::I32);
    assert_eq!(checker.infer_expr_type(&Expr::Int(3_000_000_000)), Type::I64);
    assert_eq!(checker.infer_expr_type(&Expr::Bool(true)), Type::Bool);
    assert_eq!(checker.infer_expr_type(&Expr::String("a".to_string())), Type::String);
    assert_eq!(checker.infer_expr_type(&Expr::Null).to_string(), "<unknown>?");
    assert!(checker.diagnostics.is_empty());
    // one record for the context span, holding the last type
    assert_eq!(checker.expr_types.len(), 1);
    assert_eq!(checker.expr_types[0].0, span);
    assert_eq!(checker.expr_types[0].1.to_string(), "<unknown>?");
}

#[test]
fn field_access_through_schemes() {
    let w = world();
    let mut checker = ExprChecker::new(&w.scopes, &w.symbols, &w.types, w.root, Span::new(0, 1));
    assert_eq!(checker.infer_expr_type(&field(ident("user"), "name")), Type::String);
    let q = Expr::QualifiedName(vec!["user".to_string(), "name".to_string()]);
    assert_eq!(checker.infer_expr_type(&q), Type::String);
    assert!(checker.diagnostics.is_empty());
    assert_eq!(checker.infer_expr_type(&field(ident("user"), "age")), Type::Error);
    assert_eq!(checker.diagnostics.len(), 1);
    let d = &checker.diagnostics.as_slice()[0];
    assert_eq!(d.message, "no field `age` on type `User`");
    assert_eq!(d.code.as_deref(), Some("E0301"));
}

#[test]
fn nullable_access_needs_optional_chaining() {
    let w = world();
    let mut checker = ExprChecker::new(&w.scopes, &w.symbols, &w.types, w.root, Span::new(0, 1));
    assert_eq!(checker.infer_expr_type(&field(ident("maybe"), "name")), Type::Error);
    assert_eq!(checker.diagnostics.as_slice()[0].code.as_deref(), Some("E0406"));
    let chain = Expr::OptionalChain { base: Box::new(ident("maybe")), field: "name".to_string() };
    assert_eq!(checker.infer_expr_type(&chain).to_string(), "String?");
    assert_eq!(checker.diagnostics.len(), 1);
}

#[test]
fn enum_variants_and_fieldless_types() {
    let w = world();
    let mut checker = ExprChecker::new(&w.scopes, &w.symbols, &w.types, w.root, Span::new(0, 1));
    let red = checker.infer_expr_type(&field(ident("Color"), "Red"));
    assert!(matches!(red, Type::Enum(_)));
    assert_eq!(checker.infer_expr_type(&field(ident("Color"), "Blue")), Type::Error);
    assert_eq!(checker.diagnostics.as_slice()[0].message, "no variant `Blue` in enum `Color`");
    assert_eq!(checker.resolve_field_access(&Type::I32, "x"), Type::Error);
    assert_eq!(checker.diagnostics.as_slice()[1].message, "type `i32` does not have fields");
    assert_eq!(checker.resolve_field_access(&Type::Unknown, "x"), Type::Error);
    assert_eq!(checker.diagnostics.len(), 2);
}

#[test]
fn operators_and_ternaries() {
    let w = world();
    let mut checker = ExprChecker::new(&w.scopes, &w.symbols, &w.types, w.root, Span::new(0, 1));
    let sum = Expr::Binary { op: BinaryOp::Add, left: Box::new(Expr::Int(1)), right: Box::new(Expr::Int(2)) };
    assert_eq!(checker.infer_expr_type(&sum), Type::I32);
    let bad = Expr::Unary { op: UnaryOp::Not, expr: Box::new(Expr::Int(1)) };
    assert_eq!(checker.infer_expr_type(&bad), Type::Error);
    assert_eq!(checker.diagnostics.as_slice()[0].message, "cannot apply `!` to type `i32`");
    let ternary = Expr::Ternary {
        condition: Box::new(Expr::Int(1)),
        then_expr: Box::new(Expr::Int(1)),
        else_expr: Box::new(Expr::String("x".to_string())),
    };
    assert_eq!(checker.infer_expr_type(&ternary), Type::Error);
    let msgs: Vec<&str> = checker.diagnostics.as_slice().iter().map(|d| d.message.as_str()).collect();
    assert_eq!(msgs[1], "expected `bool`, found `i32`");
    assert_eq!(msgs[2], "ternary branches have incompatible types: `i32` vs `String`");
}

#[test]
fn lists_templates_and_calls() {
    let w = world();
    let mut checker = ExprChecker::new(&w.scopes, &w.symbols, &w.types, w.root, Span::new(0, 1));
    let list = Expr::List(vec![Expr::Int(1), Expr::String("a".to_string()), Expr::Int(2)]);
    assert_eq!(checker.infer_expr_type(&list).to_string(), "[i32]");
    assert_eq!(checker.diagnostics.len(), 1);
    assert_eq!(
        checker.diagnostics.as_slice()[0].message,
        "list element type mismatch: expected `i32`, found `String`"
    );
    let template = Expr::StringTemplate(vec![
        TemplateElement::Text("a".to_string()),
        TemplateElement::Interpolation(Box::new(ident("nowhere"))),
    ]);
    assert_eq!(checker.infer_expr_type(&template), Type::String);
    let call = Expr::Call { callee: Box::new(ident("user")), args: vec![Expr::Int(1)] };
    assert_eq!(checker.infer_expr_type(&call), Type::Unknown);
    assert_eq!(checker.infer_expr_type(&ident("nowhere")), Type::Error);
    assert_eq!(checker.diagnostics.len(), 1);
}

#[test]
fn checking_against_an_expected_type() {
    let w = world();
    let mut checker = ExprChecker::new(&w.scopes, &w.symbols, &w.types, w.root, Span::new(0, 1));
    let expected = Type::List(Box::new(Type::String));
    assert_eq!(checker.check_expr_type(&Expr::List(vec![]), &expected).to_string(), "[String]");
    assert_eq!(checker.check_expr_type(&Expr::List(vec![]), &Type::I32).to_string(), "[<unknown>]");
    let nullable = Type::Nullable(Box::new(Type::I64));
    assert_eq!(checker.check_expr_type(&Expr::Null, &nullable).to_string(), "i64?");
    assert_eq!(checker.check_expr_type(&Expr::Int(5), &nullable), Type::I32);
    assert_eq!(checker.expr_types.len(), 1);
    assert!(checker.diagnostics.is_empty());
}
