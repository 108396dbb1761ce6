use frel_compiler_core::diagnostic::Diagnostics;
use frel_compiler_core::semantic::scope::{ScopeGraph, ScopeId, ScopeKind};
use frel_compiler_core::semantic::symbol::{SymbolId, SymbolKind, SymbolTable};
use frel_compiler_core::semantic::types::Type;
use frel_compiler_core::semantic::{dump_semantic, SemanticResult};
use frel_compiler_core::source::Span;

fn counter_result() -> SemanticResult {
    let mut scopes = ScopeGraph::new();
    let root = scopes.create_root(Span::new(0, 0));
    let backend = scopes.create_named_scope(ScopeKind::Backend, root, "Counter", Span::new(8, 40));
    let mut symbols = SymbolTable::new();
    symbols.define_with_scope("Counter", SymbolKind::Backend, root, backend, Span::new(16, 23));
    symbols.define("count", SymbolKind::Field, backend, Span::new(30, 35));
    let mut diagnostics = Diagnostics::new();
    diagnostics.error("boom", Span::new(1, 2));
    SemanticResult {
        scopes,
        symbols,
        diagnostics,
        resolutions: Vec::new(),
        expr_types: vec![(Span::new(30, 35), Type::I32), (Span::new(10, 12), Type::Scheme(SymbolId(0)))],
        type_resolutions: Vec::new(),
    }
}

#[test]
fn semantic_dump_full_output() {
    let result = counter_result();
    let expected = "SEMANTIC_RESULT scopes=2 symbols=2 errors=1\n\
\n\
SCOPES\n\
\x20   SCOPE #0 kind=module span=0..0\n\
\x20       SCOPE #1 kind=backend name=Counter span=8..40\n\
\n\
SYMBOLS\n\
\x20   IN SCOPE #0\n\
\x20       #0 BACKEND \"Counter\" span=16..23 body_scope=#1\n\
\x20   IN SCOPE #1 (Counter)\n\
\x20       #1 FIELD \"count\" span=30..35\n\
\n\
EXPR_TYPES\n\
\x20   10..12 -> scheme \"Counter\"\n\
\x20   30..35 -> i32\n\
\n\
DIAGNOSTICS\n\
\x20   [E????] boom at 1..2\n";
    assert_eq!(dump_semantic(&result), expected);
}

#[test]
fn semantic_dump_empty_result() {
    let result = SemanticResult {
        scopes: ScopeGraph::new(),
        symbols: SymbolTable::new(),
        diagnostics: Diagnostics::new(),
        resolutions: Vec::new(),
        expr_types: Vec::new(),
        type_resolutions: Vec::new(),
    };
    assert_eq!(dump_semantic(&result), "SEMANTIC_RESULT scopes=0 symbols=0 errors=0\n\nSCOPES\n\nSYMBOLS\n");
}

#[test]
fn semantic_dump_types_missing_symbol_and_nested() {
    let mut result = counter_result();
    result.diagnostics = Diagnostics::new();
    result.expr_types = Vec::new();
    result.type_resolutions = vec![
        (Span::new(5, 9), Type::Nullable(Box::new(Type::Enum(SymbolId(7))))),
        (Span::new(5, 6), Type::MapOf(Box::new(Type::String), Box::new(Type::List(Box::new(Type::Backend(SymbolId(0))))))),
        (Span::new(2, 3), Type::Function { params: vec![Type::Bool, Type::U8], ret: Box::new(Type::Unit) }),
    ];
    let out = dump_semantic(&result);
    let tail = "TYPE_RESOLUTIONS\n    2..3 -> fn(bool, u8) -> unit\n    5..9 -> enum#7?\n    5..6 -> map<String, [backend \"Counter\"]>\n";
    assert!(out.ends_with(tail), "{}", out);
    assert!(!out.contains("DIAGNOSTICS"));
    assert!(!out.contains("EXPR_TYPES"));
}

#[test]
fn semantic_result_queries() {
    let result = counter_result();
    assert!(!result.success());
    assert_eq!(result.error_count(), 1);
    assert!(matches!(result.expr_type(Span::new(30, 35)), Some(Type::I32)));
    assert!(result.expr_type(Span::new(31, 35)).is_none());
    assert!(result.resolved_type(Span::new(30, 35)).is_none());
    let mut ok = counter_result();
    ok.diagnostics = Diagnostics::new();
    assert!(ok.success());
    assert_eq!(ok.error_count(), 0);
}

#[test]
fn scope_ids_follow_parents() {
    let mut scopes = ScopeGraph::new();
    let root = scopes.create_root(Span::default());
    let a = scopes.create_scope(ScopeKind::Block, root, Span::new(1, 2));
    let b = scopes.create_scope(ScopeKind::Block, a, Span::new(1, 2));
    assert!(a.0 > root.0 && b.0 > a.0);
    assert_eq!(scopes.get(root).unwrap().children, vec![a]);
    assert_eq!(scopes.get(a).unwrap().children, vec![b]);
    assert_eq!(ScopeId::ROOT(), root);
}
