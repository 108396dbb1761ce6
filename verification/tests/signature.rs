use frel_compiler_core::semantic::scope::ScopeId;
use frel_compiler_core::semantic::signature::{
    ExportedDecl, ModuleSignature, SerializableScopeGraph, SerializableSymbolTable, SignatureRegistry,
    SIGNATURE_VERSION,
};
use frel_compiler_core::semantic::symbol::{SymbolId, SymbolKind};

#[test]
fn test_signature_version() {
    let sig = ModuleSignature {
        version: SIGNATURE_VERSION,
        path: "test".to_string(),
        exports: vec![],
        scopes: SerializableScopeGraph { scopes: vec![] },
        symbols: SerializableSymbolTable { symbols: vec![] },
    };

    assert!(sig.is_compatible());
}

#[test]
fn test_signature_registry() {
    let mut registry = SignatureRegistry::new();

    let sig = ModuleSignature {
        version: SIGNATURE_VERSION,
        path: "test.data".to_string(),
        exports: vec![
            ExportedDecl::new("User".to_string(), SymbolKind::Scheme, SymbolId(0), Some(ScopeId(1))),
            ExportedDecl::new("Order".to_string(), SymbolKind::Scheme, SymbolId(1), Some(ScopeId(2))),
        ],
        scopes: SerializableScopeGraph { scopes: vec![] },
        symbols: SerializableSymbolTable { symbols: vec![] },
    };

    registry.register(sig);

    assert!(registry.contains("test.data"));
    assert!(!registry.contains("test.other"));

    let user = registry.resolve_import("test.data", "User");
    assert!(user.is_some());
    assert_eq!(user.unwrap().kind, SymbolKind::Scheme);

    let missing = registry.resolve_import("test.data", "Missing");
    assert!(missing.is_none());
}
