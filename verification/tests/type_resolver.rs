use frel_compiler_core::ast::TypeExpr;
use frel_compiler_core::semantic::scope::{ScopeGraph, ScopeId};
use frel_compiler_core::semantic::symbol::{SymbolKind, SymbolTable};
use frel_compiler_core::semantic::typecheck::resolution::TypeResolver;
use frel_compiler_core::semantic::types::Type;
use frel_compiler_core::source::Span;

fn named(name: &str) -> TypeExpr {
    TypeExpr::Named(name.to_string())
}

fn context() -> (ScopeGraph, SymbolTable, Vec<(String, String)>) {
    let mut scopes = ScopeGraph::new();
    let root = scopes.create_root(Span::default());
    let mut symbols = SymbolTable::new();
    symbols.define("Item", SymbolKind::Scheme, root, Span::new(0, 4));
    symbols.define("count", SymbolKind::Field, root, Span::new(5, 10));
    let imports = vec![("Shape".to_string(), "lib.shapes".to_string()), ("Widget".to_string(), "ui".to_string())];
    (scopes, symbols, imports)
}

#[test]
fn resolves_intrinsic_and_nested_types() {
    let (scopes, symbols, imports) = context();
    let mut resolver = TypeResolver::new(&scopes, &symbols, &imports);
    let span = Span::new(3, 9);
    let ty = resolver.resolve_type_expr(&TypeExpr::Nullable(Box::new(named("i32"))), span);
    assert_eq!(ty.to_string(), "i32?");
    let map = TypeExpr::MapOf(Box::new(named("String")), Box::new(TypeExpr::List(Box::new(named("Item")))));
    let ty = resolver.resolve_type_expr(&map, Span::new(20, 40));
    assert!(matches!(ty, Type::MapOf(_, _)));
    assert_eq!(ty.to_string(), "map<String, [scheme#0]>");
    assert!(resolver.diagnostics.is_empty());
    assert_eq!(resolver.type_resolutions.len(), 2);
    assert_eq!(resolver.type_resolutions[0].0, span);
    assert_eq!(resolver.type_resolutions[0].1.to_string(), "i32?");
}

#[test]
fn unknown_type_is_reported_once_per_name() {
    let (scopes, symbols, imports) = context();
    let mut resolver = TypeResolver::new(&scopes, &symbols, &imports);
    let span = Span::new(1, 2);
    let expr = TypeExpr::MapOf(Box::new(named("Nope")), Box::new(named("Gone")));
    let ty = resolver.resolve_type_expr(&expr, span);
    assert_eq!(ty.to_string(), "map<<error>, <error>>");
    assert_eq!(resolver.diagnostics.len(), 2);
    let diags = resolver.diagnostics.as_slice();
    assert_eq!(diags[0].message, "unknown type `Nope`");
    assert_eq!(diags[1].message, "unknown type `Gone`");
    assert_eq!(diags[0].code.as_deref(), Some("E0402"));
    assert_eq!(diags[0].span, span);
    assert!(diags[0].help.is_some());
}

#[test]
fn imported_names_and_value_symbols() {
    let (scopes, symbols, imports) = context();
    let mut resolver = TypeResolver::new(&scopes, &symbols, &imports);
    // an import entry's first part is the name it makes known
    let ty = resolver.resolve_named_type("Widget", Span::new(0, 1));
    assert!(matches!(ty, Type::Unknown));
    // a field is found but denotes no type
    let ty = resolver.resolve_named_type("count", Span::new(0, 1));
    assert!(matches!(ty, Type::Error));
    assert!(resolver.diagnostics.is_empty());
    assert_eq!(resolver.current_scope, ScopeId::ROOT());
}

#[test]
fn blueprint_types_stay_unknown_and_records_replace() {
    let (scopes, symbols, imports) = context();
    let mut resolver = TypeResolver::new(&scopes, &symbols, &imports);
    let span = Span::new(7, 8);
    let ty = resolver.resolve_type_expr(&TypeExpr::Blueprint(vec![named("Bad"), named("bool")]), span);
    assert!(matches!(ty, Type::Unknown));
    assert_eq!(resolver.diagnostics.len(), 1);
    assert_eq!(resolver.type_resolutions.len(), 1);
    assert_eq!(resolver.type_resolutions[0].1.to_string(), "<unknown>");
    resolver.resolve_type_expr(&named("bool"), span);
    assert_eq!(resolver.type_resolutions.len(), 1);
    assert_eq!(resolver.type_resolutions[0].1.to_string(), "bool");
}
