use frel_compiler_core::ast::dump::DumpVisitor;
use frel_compiler_core::ast::{
    Backend, BackendMember, Enum, Expr, Field, File, FaBinaryOp, FaInstructionExpr, FaUnaryOp, TopLevelDecl,
    TypeExpr,
};
use frel_compiler_core::parser::parse;
use frel_compiler_core::source::Span;

#[test]
fn test_dump_simple_file() {
    let file = File { module: "test".to_string(), imports: vec![], declarations: vec![] };

    let output = DumpVisitor::dump(&file);
    assert!(output.contains("FILE module=test"));
}

#[test]
fn test_dump_enum() {
    let file = File {
        module: "test".to_string(),
        imports: vec![],
        declarations: vec![TopLevelDecl::Enum(Enum {
            name: "Status".to_string(),
            variants: vec!["Active".to_string(), "Inactive".to_string()],
            span: Span::new(0, 0),
        })],
    };

    let output = DumpVisitor::dump(&file);
    assert!(output.contains("ENUM Status { Active, Inactive }"));
}

#[test]
fn test_dump_backend_compact() {
    let file = File {
        module: "test".to_string(),
        imports: vec![],
        declarations: vec![TopLevelDecl::Backend(Backend {
            name: "Counter".to_string(),
            params: vec![],
            members: vec![BackendMember::Field(Field {
                name: "count".to_string(),
                type_expr: TypeExpr::Named("i32".to_string()),
                init: Some(Expr::Int(0)),
                span: Span::new(0, 0),
            })],
            span: Span::new(0, 0),
        })],
    };

    let output = DumpVisitor::dump(&file);
    assert!(output.contains("FIELD count TYPE i32 INIT 0"));
}

fn dump_source(source: &str) -> String {
    let result = parse(source);
    assert!(!result.diagnostics.has_errors(), "{:?}", result.diagnostics);
    DumpVisitor::dump(&result.file.unwrap())
}

#[test]
fn dump_exact_backend_and_imports() {
    let output = dump_source(
        "module app.main\nimport lib.ui.Button\nbackend Counter(start: i32 = 1) {\n    count: List<String?> = [1, -2, 0x10]\n    method next(step: i32): i32\n    command reset()\n}\n",
    );
    assert_eq!(
        output,
        "FILE module=app.main\n    IMPORT Button FROM lib.ui\n    BACKEND Counter(start: i32 = 1)\n        FIELD count TYPE List<String?> INIT [1, -2, 16]\n        METHOD next(step: i32) RETURN i32\n        COMMAND reset()\n"
    );
}

#[test]
fn dump_exact_blueprint_with_control_flow() {
    let output = dump_source(
        "module m\nblueprint Row {\n    with RowBackend\n    when visible {\n        text { \"a\" }\n    } else {\n        text { \"b\" }\n    }\n    repeat on items as item by item.id {\n        text { \"c\" }\n    }\n}\n",
    );
    assert_eq!(
        output,
        "FILE module=m\n    BLUEPRINT Row\n        WITH RowBackend\n        WHEN visible\n            BLOCK\n                FRAGMENT text\n                    CONTENT \"a\"\n        ELSE\n            BLOCK\n                FRAGMENT text\n                    CONTENT \"b\"\n        REPEAT item ON items BY item.id\n            BLOCK\n                FRAGMENT text\n                    CONTENT \"c\"\n"
    );
}

#[test]
fn dump_expressions_inline() {
    let expr = Expr::Binary {
        op: FaBinaryOp::Add,
        left: Box::new(Expr::Unary { op: FaUnaryOp::Neg, expr: Box::new(Expr::Int(i64::MIN)) }),
        right: Box::new(Expr::Color(0xff00aa)),
    };
    let file = File {
        module: "m".to_string(),
        imports: vec![],
        declarations: vec![TopLevelDecl::Backend(Backend {
            name: "B".to_string(),
            params: vec![],
            members: vec![BackendMember::Field(Field {
                name: "x".to_string(),
                type_expr: TypeExpr::Named("i64".to_string()),
                init: Some(expr),
                span: Span::new(0, 0),
            })],
            span: Span::new(0, 0),
        })],
    };
    let output = DumpVisitor::dump(&file);
    assert!(output.contains("FIELD x TYPE i64 INIT --9223372036854775808 + #00FF00AA"));
}

#[test]
fn dump_string_uses_debug_quoting() {
    let output = dump_source("module m\nbackend B {\n    s: String = \"a\\\"b\\n\"\n}\n");
    assert!(output.contains("FIELD s TYPE String INIT \"a\\\"b\\n\""));
}

#[test]
fn dump_instruction_expressions() {
    let mut visitor = DumpVisitor::new();
    let instr = FaInstructionExpr::Ternary {
        condition: Expr::Identifier("dark".to_string()),
        then_instr: Box::new(FaInstructionExpr::Reference(Expr::Identifier("a".to_string()))),
        else_instr: Box::new(FaInstructionExpr::Reference(Expr::Identifier("b".to_string()))),
    };
    visitor.visit_instruction_expr(&instr, 1);
    assert_eq!(
        visitor.output(),
        "    TERNARY dark\n        THEN\n            INSTR_REF a\n        ELSE\n            INSTR_REF b\n"
    );
}
