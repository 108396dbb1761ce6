use std::collections::HashMap;

use frel_compiler_core::ast::{BinaryOp, UnaryOp};
use frel_compiler_core::diagnostic::Diagnostics;
use frel_compiler_core::semantic::scope::{ScopeGraph, ScopeKind};
use frel_compiler_core::semantic::symbol::{Symbol, SymbolId, SymbolKind, SymbolTable};
use frel_compiler_core::semantic::typecheck::operators::{
    common_numeric_type, expect_bool, expect_iterable, infer_binary_op_type, infer_unary_op_type,
    types_compatible,
};
use frel_compiler_core::semantic::typecheck::resolution::{lookup_identifier_type, symbol_to_type};
use frel_compiler_core::semantic::types::Type;
use frel_compiler_core::source::Span;

#[test]
fn test_common_numeric_type() {
    assert_eq!(common_numeric_type(&Type::I32, &Type::Decimal), Type::Decimal);
    assert_eq!(common_numeric_type(&Type::F32, &Type::I64), Type::F32);
    assert_eq!(common_numeric_type(&Type::F32, &Type::F64), Type::F64);
    assert_eq!(common_numeric_type(&Type::U64, &Type::I8), Type::I64);
    assert_eq!(common_numeric_type(&Type::U8, &Type::I16), Type::I32);
}

#[test]
fn test_types_compatible() {
    assert!(types_compatible(&Type::String, &Type::String));
    assert!(types_compatible(&Type::Error, &Type::Bool));
    assert!(types_compatible(&Type::Bool, &Type::Unknown));
    assert!(types_compatible(&Type::Nullable(Box::new(Type::I32)), &Type::I64));
    assert!(types_compatible(&Type::U8, &Type::F64));
    assert!(!types_compatible(&Type::String, &Type::Bool));
    assert!(!types_compatible(&Type::I32, &Type::Nullable(Box::new(Type::I32))));
}

#[test]
fn test_infer_binary_op_type() {
    let mut diags = Diagnostics::new();
    let span = Span::new(3, 9);
    assert_eq!(infer_binary_op_type(BinaryOp::Add, &Type::I32, &Type::I64, span, &mut diags), Type::I64);
    assert_eq!(infer_binary_op_type(BinaryOp::Add, &Type::String, &Type::I32, span, &mut diags), Type::String);
    assert_eq!(infer_binary_op_type(BinaryOp::Eq, &Type::String, &Type::I32, span, &mut diags), Type::Bool);
    assert_eq!(infer_binary_op_type(BinaryOp::Lt, &Type::U8, &Type::F32, span, &mut diags), Type::Bool);
    assert_eq!(infer_binary_op_type(BinaryOp::And, &Type::Bool, &Type::Bool, span, &mut diags), Type::Bool);
    assert_eq!(
        infer_binary_op_type(BinaryOp::Elvis, &Type::Nullable(Box::new(Type::String)), &Type::String, span, &mut diags),
        Type::String
    );
    assert!(diags.is_empty());

    assert_eq!(infer_binary_op_type(BinaryOp::Mul, &Type::Bool, &Type::I32, span, &mut diags), Type::Error);
    assert_eq!(diags.len(), 1);
    let d = &diags.as_slice()[0];
    assert_eq!(d.code, Some("E0405".to_string()));
    assert_eq!(d.message, "cannot apply `Mul` to types `bool` and `i32`");
    assert_eq!(d.span, span);

    assert_eq!(infer_binary_op_type(BinaryOp::Sub, &Type::String, &Type::I32, span, &mut diags), Type::Error);
    assert_eq!(infer_binary_op_type(BinaryOp::Elvis, &Type::String, &Type::String, span, &mut diags), Type::Error);
    assert_eq!(infer_binary_op_type(BinaryOp::Or, &Type::Bool, &Type::I32, span, &mut diags), Type::Error);
    assert_eq!(diags.error_count(), 4);
}

#[test]
fn test_infer_unary_op_type() {
    let mut diags = Diagnostics::new();
    let span = Span::new(0, 2);
    assert_eq!(infer_unary_op_type(UnaryOp::Not, &Type::Bool, span, &mut diags), Type::Bool);
    assert_eq!(infer_unary_op_type(UnaryOp::Neg, &Type::F64, span, &mut diags), Type::F64);
    assert!(diags.is_empty());
    assert_eq!(infer_unary_op_type(UnaryOp::Not, &Type::I32, span, &mut diags), Type::Error);
    assert_eq!(infer_unary_op_type(UnaryOp::Pos, &Type::String, span, &mut diags), Type::Error);
    let all = diags.as_slice();
    assert_eq!(all[0].message, "cannot apply `!` to type `i32`");
    assert_eq!(all[1].message, "cannot apply `-`/`+` to type `String`");
    assert_eq!(all[1].code, Some("E0401".to_string()));
}

#[test]
fn test_expect_bool_and_iterable() {
    let mut diags = Diagnostics::new();
    let span = Span::new(1, 2);
    expect_bool(&Type::Bool, span, &mut diags);
    expect_bool(&Type::Unknown, span, &mut diags);
    expect_bool(&Type::Error, span, &mut diags);
    expect_iterable(&Type::List(Box::new(Type::I32)), span, &mut diags);
    assert!(diags.is_empty());
    expect_bool(&Type::I32, span, &mut diags);
    expect_iterable(&Type::Bool, span, &mut diags);
    let all = diags.as_slice();
    assert_eq!(all.len(), 2);
    assert_eq!(all[0].message, "expected `bool`, found `i32`");
    assert_eq!(all[1].message, "expected an iterable type, found `bool`");
}

#[test]
fn test_symbol_to_type() {
    let root = frel_compiler_core::semantic::scope::ScopeId(0);
    let s = Symbol::new(SymbolId(4), "User", SymbolKind::Scheme, root, Span::default());
    assert_eq!(symbol_to_type(&s), Type::Scheme(SymbolId(4)));
    let f = Symbol::new(SymbolId(5), "count", SymbolKind::Field, root, Span::default());
    assert_eq!(symbol_to_type(&f), Type::Error);
}

#[test]
fn test_lookup_identifier_type() {
    let mut scopes = ScopeGraph::new();
    let root = scopes.create_root(Span::default());
    let inner = scopes.create_scope(ScopeKind::Block, root, Span::new(0, 10));
    let mut table = SymbolTable::new();
    let backend = table.define("Store", SymbolKind::Backend, root, Span::new(0, 5)).unwrap();
    let field = table.define("count", SymbolKind::Field, inner, Span::new(6, 8)).unwrap();
    let mut types = HashMap::new();
    assert_eq!(lookup_identifier_type("Store", inner, &table, &scopes, &types), Type::Backend(backend));
    assert_eq!(lookup_identifier_type("count", inner, &table, &scopes, &types), Type::Unknown);
    types.insert(field.0, Type::I32);
    assert_eq!(lookup_identifier_type("count", inner, &table, &scopes, &types), Type::I32);
    assert_eq!(lookup_identifier_type("count", root, &table, &scopes, &types), Type::Error);
    assert_eq!(lookup_identifier_type("missing", inner, &table, &scopes, &types), Type::Error);
}
