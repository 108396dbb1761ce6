use frel_compiler_core::semantic::scope::{ScopeGraph, ScopeKind};
use frel_compiler_core::semantic::symbol::{SymbolKind, SymbolTable};
use frel_compiler_core::source::Span;

#[test]
fn test_symbol_table_define() {
    let mut scopes = ScopeGraph::new();
    let root = scopes.create_root(Span::default());

    let mut table = SymbolTable::new();
    let backend_id = table.define("MyBackend", SymbolKind::Backend, root, Span::new(0, 20)).unwrap();

    assert!(table.get(backend_id).is_some());
    assert_eq!(table.get(backend_id).unwrap().name, "MyBackend");
    assert_eq!(table.get(backend_id).unwrap().kind, SymbolKind::Backend);

    // Duplicate should fail
    assert!(table.define("MyBackend", SymbolKind::Backend, root, Span::new(30, 50)).is_none());
}

#[test]
fn test_symbol_table_lookup() {
    let mut scopes = ScopeGraph::new();
    let root = scopes.create_root(Span::default());
    let backend_scope = scopes.create_named_scope(ScopeKind::Backend, root, "MyBackend", Span::new(0, 100));

    let mut table = SymbolTable::new();
    table.define("Backend1", SymbolKind::Backend, root, Span::new(0, 20));
    table.define("count", SymbolKind::Field, backend_scope, Span::new(30, 40));

    // Local lookup in root
    assert!(table.lookup_local(root, "Backend1").is_some());
    assert!(table.lookup_local(root, "count").is_none());

    // Local lookup in backend scope
    assert!(table.lookup_local(backend_scope, "count").is_some());
    assert!(table.lookup_local(backend_scope, "Backend1").is_none());

    // Chain lookup from backend scope
    assert!(table.lookup_in_scope_chain(backend_scope, "Backend1", &scopes).is_some());
    assert!(table.lookup_in_scope_chain(backend_scope, "count", &scopes).is_some());
}

#[test]
fn test_symbol_kind() {
    assert!(SymbolKind::Backend.is_type_definition());
    assert!(SymbolKind::Scheme.is_type_definition());
    assert!(!SymbolKind::Field.is_type_definition());

    assert!(SymbolKind::Method.is_callable());
    assert!(SymbolKind::Blueprint.is_callable());
    assert!(!SymbolKind::Field.is_callable());
}

#[test]
fn test_symbols_in_scope() {
    let mut scopes = ScopeGraph::new();
    let root = scopes.create_root(Span::default());

    let mut table = SymbolTable::new();
    table.define("A", SymbolKind::Backend, root, Span::new(0, 10));
    table.define("B", SymbolKind::Blueprint, root, Span::new(20, 30));
    table.define("C", SymbolKind::Scheme, root, Span::new(40, 50));

    let names: Vec<_> = table.symbols_in_scope(root).into_iter().map(|s| &s.name).collect();
    assert_eq!(names.len(), 3);
    assert!(names.contains(&&"A".to_string()));
    assert!(names.contains(&&"B".to_string()));
    assert!(names.contains(&&"C".to_string()));
}
