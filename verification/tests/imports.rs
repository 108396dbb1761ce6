use frel_compiler_core::parser::parse;

#[test]
fn module_name_joins_its_path() {
    let result = parse("\n\nmodule app.ui.widgets\n");
    let file = result.file.expect("module declared");
    assert_eq!(file.module, "app.ui.widgets");
    assert!(file.imports.is_empty());
}

#[test]
fn no_file_without_module_declaration() {
    let result = parse("backend B { }");
    assert!(result.file.is_none());
    assert!(result.diagnostics.len() > 0);
    let result = parse("module a.");
    assert!(result.file.is_none());
}

#[test]
fn imports_split_path_and_name() {
    let result = parse("module m\nimport a.b.C\nimport D\n");
    let file = result.file.expect("module declared");
    assert_eq!(file.imports.len(), 2);
    assert_eq!(file.imports[0].module, "a.b");
    assert_eq!(file.imports[0].name, "C");
    assert_eq!(file.imports[1].module, "");
    assert_eq!(file.imports[1].name, "D");
}

#[test]
fn broken_import_skips_to_next_declaration() {
    let result = parse("module m\nimport 1\nimport b.C\nenum E { X }\n");
    assert!(result.diagnostics.has_errors());
    let file = result.file.expect("module declared");
    assert!(file.imports.is_empty());
    assert_eq!(file.declarations.len(), 1);
}

#[test]
fn dotted_import_path_may_run_into_next_line() {
    // Line breaks are skipped between tokens, so a path cut short after a
    // dot takes the next name, even a keyword-like one.
    let result = parse("module m\nimport a.\nimport b.C\n");
    let file = result.file.expect("module declared");
    assert_eq!(file.imports.len(), 1);
    assert_eq!(file.imports[0].module, "a");
    assert_eq!(file.imports[0].name, "import");
    assert!(result.diagnostics.has_errors());
}
