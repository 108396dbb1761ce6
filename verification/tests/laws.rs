use frel_compiler_core::diagnostic::{Diagnostic, Diagnostics};
use frel_compiler_core::semantic::scope::{ScopeGraph, ScopeKind};
use frel_compiler_core::semantic::signature::{
    ModuleSignature, SerializableScopeGraph, SerializableSymbolTable, SignatureRegistry, SIGNATURE_VERSION,
};
use frel_compiler_core::semantic::symbol::{SymbolKind, SymbolTable};
use frel_compiler_core::source::Span;

#[test]
fn merge_covers_both_spans() {
    let a = Span::new(3, 5);
    let b = Span::new(1, 4);
    let m = a.merge(b);
    assert_eq!((m.start, m.end), (1, 5));
    assert!(m.start <= a.start && m.start <= b.start && m.end >= a.end && m.end >= b.end);
}

#[test]
fn merge_is_commutative_associative_and_idempotent() {
    let a = Span::new(10, 12);
    let b = Span::new(2, 7);
    let c = Span::new(5, 30);
    assert_eq!(a.merge(b), b.merge(a));
    assert_eq!(a.merge(b).merge(c), a.merge(b.merge(c)));
    assert_eq!(a.merge(a), a);
}

#[test]
fn has_errors_agrees_with_error_count() {
    let mut diags = Diagnostics::new();
    assert!(!diags.has_errors());
    assert_eq!(diags.error_count(), 0);
    diags.add(Diagnostic::warning("w", Span::new(0, 1)));
    assert!(!diags.has_errors());
    assert_eq!(diags.error_count(), 0);
    diags.add(Diagnostic::error("e", Span::new(1, 2)));
    assert!(diags.has_errors());
    assert_eq!(diags.error_count(), 1);
}

#[test]
fn lookup_after_define_gives_the_new_symbol() {
    let mut scopes = ScopeGraph::new();
    let root = scopes.create_root(Span::default());
    let inner = scopes.create_named_scope(ScopeKind::Backend, root, "B", Span::new(0, 10));
    let mut table = SymbolTable::new();
    let first = table.define("x", SymbolKind::Field, inner, Span::new(1, 2)).unwrap();
    assert_eq!(table.lookup_local(root, "x"), None);
    let second = table.define("x", SymbolKind::Field, root, Span::new(3, 4)).unwrap();
    assert_eq!(table.lookup_local(root, "x"), Some(second));
    // The other (scope, name) still looks up as before
    assert_eq!(table.lookup_local(inner, "x"), Some(first));
}

fn signature(path: &str) -> ModuleSignature {
    ModuleSignature {
        version: SIGNATURE_VERSION,
        path: path.to_string(),
        exports: vec![],
        scopes: SerializableScopeGraph { scopes: vec![] },
        symbols: SerializableSymbolTable { symbols: vec![] },
    }
}

#[test]
fn get_after_register_gives_the_signature() {
    let mut registry = SignatureRegistry::new();
    registry.register(signature("a.b"));
    registry.register(signature("c.d"));
    assert_eq!(registry.get("a.b").unwrap().path, "a.b");
    assert_eq!(registry.get("c.d").unwrap().path, "c.d");
    // Registering again replaces, and leaves the other module alone
    registry.register(signature("a.b"));
    assert_eq!(registry.len(), 2);
    assert!(registry.get("x.y").is_none());
}
