use frel_compiler_core::semantic::scope::{Scope, ScopeGraph, ScopeId, ScopeKind};
use frel_compiler_core::source::Span;

#[test]
fn test_scope_graph() {
    let mut graph = ScopeGraph::new();
    let root = graph.create_root(Span::default());
    assert_eq!(root, ScopeId::ROOT());

    let backend = graph.create_named_scope(ScopeKind::Backend, root, "MyBackend", Span::new(10, 50));

    let method = graph.create_scope(ScopeKind::Parameters, backend, Span::new(20, 30));

    // Check parent relationships
    assert_eq!(graph.parent(root), None);
    assert_eq!(graph.parent(backend), Some(root));
    assert_eq!(graph.parent(method), Some(backend));

    // Check ancestors
    let ancestors: Vec<_> = graph.ancestors(method);
    assert_eq!(ancestors, vec![backend, root]);

    // Check nesting
    assert!(graph.is_nested_in(method, root));
    assert!(graph.is_nested_in(backend, root));
    assert!(!graph.is_nested_in(root, backend));
}

#[test]
fn test_scope_kind() {
    assert_eq!(ScopeKind::Module.as_str(), "module");
    assert_eq!(ScopeKind::Backend.as_str(), "backend");

    let scope = Scope::new(ScopeId(0), ScopeKind::Module, None, Span::default());
    assert!(scope.can_contain_declaration());

    let block = Scope::new(ScopeId(1), ScopeKind::Block, Some(ScopeId(0)), Span::default());
    assert!(!block.can_contain_declaration());
}
