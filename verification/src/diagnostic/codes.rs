//! Error code registry: stable, documented error codes.
//!
//! Code ranges: E01xx syntax (lexer), E02xx parse, E03xx name resolution,
//! E04xx types, E05xx reactivity/ownership, E06xx backend composition,
//! E07xx blueprint compilation.

use vstd::prelude::*;
use vstd::string::*;
use super::Severity;
use crate::text::str_eq;

verus! {

/// Category of error for grouping and filtering
#[derive(Debug, Clone, Copy, PartialEq, Eq, Hash, Structural)]
pub enum Category {
    /// E01xx - Lexical/syntax errors
    Syntax,
    /// E02xx - Parser errors
    Parse,
    /// E03xx - Name resolution errors
    Resolution,
    /// E04xx - Type system errors
    Type,
    /// E05xx - Reactivity/ownership errors
    Reactive,
    /// E06xx - Backend composition errors
    Backend,
    /// E07xx - Blueprint compilation errors
    Blueprint,
}

impl Category {
    pub open spec fn as_str_spec(&self) -> Seq<char> {
        match self {
            Category::Syntax => "syntax"@,
            Category::Parse => "parse"@,
            Category::Resolution => "resolution"@,
            Category::Type => "type"@,
            Category::Reactive => "reactive"@,
            Category::Backend => "backend"@,
            Category::Blueprint => "blueprint"@,
        }
    }

    pub fn as_str(&self) -> (r: &'static str)
        ensures
            r@ == self.as_str_spec(),
    {
        match self {
            Category::Syntax => "syntax",
            Category::Parse => "parse",
            Category::Resolution => "resolution",
            Category::Type => "type",
            Category::Reactive => "reactive",
            Category::Backend => "backend",
            Category::Blueprint => "blueprint",
        }
    }

    /// The error code prefix of this category.
    pub open spec fn code_prefix_spec(&self) -> Seq<char> {
        match self {
            Category::Syntax => "E01"@,
            Category::Parse => "E02"@,
            Category::Resolution => "E03"@,
            Category::Type => "E04"@,
            Category::Reactive => "E05"@,
            Category::Backend => "E06"@,
            Category::Blueprint => "E07"@,
        }
    }

    /// Returns the error code prefix for this category
    pub fn code_prefix(&self) -> (r: &'static str)
        ensures
            r@ == self.code_prefix_spec(),
    {
        match self {
            Category::Syntax => "E01",
            Category::Parse => "E02",
            Category::Resolution => "E03",
            Category::Type => "E04",
            Category::Reactive => "E05",
            Category::Backend => "E06",
            Category::Blueprint => "E07",
        }
    }
}

/// A stable, documented error code
#[derive(Debug, Clone, Copy, PartialEq, Eq)]
pub struct ErrorCode {
    /// The code string, e.g., "E0301"
    pub code: &'static str,
    /// Human-readable name, e.g., "undefined_name"
    pub name: &'static str,
    /// Category for grouping
    pub category: Category,
    /// Default severity (can be overridden by configuration)
    pub default_severity: Severity,
    /// Brief explanation for --explain support
    pub explanation: &'static str,
}

impl ErrorCode {
    pub fn new(
        code: &'static str,
        name: &'static str,
        category: Category,
        default_severity: Severity,
        explanation: &'static str,
    ) -> (r: Self)
        ensures
            r.code == code,
            r.name == name,
            r.category == category,
            r.default_severity == default_severity,
            r.explanation == explanation,
    {
        ErrorCode { code, name, category, default_severity, explanation }
    }
}

/// The `invalid_token` error code.
pub open spec fn e0101_spec() -> ErrorCode {
    ErrorCode {
        code: "E0101",
        name: "invalid_token",
        category: Category::Syntax,
        default_severity: Severity::Error,
        explanation: "The lexer encountered an unexpected character that cannot form a valid token.",
    }
}

#[allow(non_snake_case)]
/// The lexer encountered an unexpected character that cannot form a valid token.
pub fn E0101() -> (r: ErrorCode)
    ensures
        r == e0101_spec(),
{
    ErrorCode {
        code: "E0101",
        name: "invalid_token",
        category: Category::Syntax,
        default_severity: Severity::Error,
        explanation: "The lexer encountered an unexpected character that cannot form a valid token.",
    }
}

/// The `unterminated_string` error code.
pub open spec fn e0102_spec() -> ErrorCode {
    ErrorCode {
        code: "E0102",
        name: "unterminated_string",
        category: Category::Syntax,
        default_severity: Severity::Error,
        explanation: "A string literal was started but not closed before the end of the line or file.",
    }
}

#[allow(non_snake_case)]
/// A string literal was started but not closed before the end of the line or file.
pub fn E0102() -> (r: ErrorCode)
    ensures
        r == e0102_spec(),
{
    ErrorCode {
        code: "E0102",
        name: "unterminated_string",
        category: Category::Syntax,
        default_severity: Severity::Error,
        explanation: "A string literal was started but not closed before the end of the line or file.",
    }
}

/// The `invalid_escape` error code.
pub open spec fn e0103_spec() -> ErrorCode {
    ErrorCode {
        code: "E0103",
        name: "invalid_escape",
        category: Category::Syntax,
        default_severity: Severity::Error,
        explanation: "An invalid escape sequence was used in a string literal.",
    }
}

#[allow(non_snake_case)]
/// An invalid escape sequence was used in a string literal.
pub fn E0103() -> (r: ErrorCode)
    ensures
        r == e0103_spec(),
{
    ErrorCode {
        code: "E0103",
        name: "invalid_escape",
        category: Category::Syntax,
        default_severity: Severity::Error,
        explanation: "An invalid escape sequence was used in a string literal.",
    }
}

/// The `invalid_number` error code.
pub open spec fn e0104_spec() -> ErrorCode {
    ErrorCode {
        code: "E0104",
        name: "invalid_number",
        category: Category::Syntax,
        default_severity: Severity::Error,
        explanation: "A numeric literal has an invalid format.",
    }
}

#[allow(non_snake_case)]
/// A numeric literal has an invalid format.
pub fn E0104() -> (r: ErrorCode)
    ensures
        r == e0104_spec(),
{
    ErrorCode {
        code: "E0104",
        name: "invalid_number",
        category: Category::Syntax,
        default_severity: Severity::Error,
        explanation: "A numeric literal has an invalid format.",
    }
}

/// The `invalid_color` error code.
pub open spec fn e0105_spec() -> ErrorCode {
    ErrorCode {
        code: "E0105",
        name: "invalid_color",
        category: Category::Syntax,
        default_severity: Severity::Error,
        explanation: "A color literal has an invalid format. Expected #RGB, #RGBA, #RRGGBB, or #RRGGBBAA.",
    }
}

#[allow(non_snake_case)]
/// A color literal has an invalid format. Expected #RGB, #RGBA, #RRGGBB, or #RRGGBBAA.
pub fn E0105() -> (r: ErrorCode)
    ensures
        r == e0105_spec(),
{
    ErrorCode {
        code: "E0105",
        name: "invalid_color",
        category: Category::Syntax,
        default_severity: Severity::Error,
        explanation: "A color literal has an invalid format. Expected #RGB, #RGBA, #RRGGBB, or #RRGGBBAA.",
    }
}

/// The `unexpected_token` error code.
pub open spec fn e0201_spec() -> ErrorCode {
    ErrorCode {
        code: "E0201",
        name: "unexpected_token",
        category: Category::Parse,
        default_severity: Severity::Error,
        explanation: "The parser encountered a token that was not expected at this position.",
    }
}

#[allow(non_snake_case)]
/// The parser encountered a token that was not expected at this position.
pub fn E0201() -> (r: ErrorCode)
    ensures
        r == e0201_spec(),
{
    ErrorCode {
        code: "E0201",
        name: "unexpected_token",
        category: Category::Parse,
        default_severity: Severity::Error,
        explanation: "The parser encountered a token that was not expected at this position.",
    }
}

/// The `expected_identifier` error code.
pub open spec fn e0202_spec() -> ErrorCode {
    ErrorCode {
        code: "E0202",
        name: "expected_identifier",
        category: Category::Parse,
        default_severity: Severity::Error,
        explanation: "An identifier was expected but something else was found.",
    }
}

#[allow(non_snake_case)]
/// An identifier was expected but something else was found.
pub fn E0202() -> (r: ErrorCode)
    ensures
        r == e0202_spec(),
{
    ErrorCode {
        code: "E0202",
        name: "expected_identifier",
        category: Category::Parse,
        default_severity: Severity::Error,
        explanation: "An identifier was expected but something else was found.",
    }
}

/// The `expected_type` error code.
pub open spec fn e0203_spec() -> ErrorCode {
    ErrorCode {
        code: "E0203",
        name: "expected_type",
        category: Category::Parse,
        default_severity: Severity::Error,
        explanation: "A type expression was expected but something else was found.",
    }
}

#[allow(non_snake_case)]
/// A type expression was expected but something else was found.
pub fn E0203() -> (r: ErrorCode)
    ensures
        r == e0203_spec(),
{
    ErrorCode {
        code: "E0203",
        name: "expected_type",
        category: Category::Parse,
        default_severity: Severity::Error,
        explanation: "A type expression was expected but something else was found.",
    }
}

/// The `expected_expression` error code.
pub open spec fn e0204_spec() -> ErrorCode {
    ErrorCode {
        code: "E0204",
        name: "expected_expression",
        category: Category::Parse,
        default_severity: Severity::Error,
        explanation: "An expression was expected but something else was found.",
    }
}

#[allow(non_snake_case)]
/// An expression was expected but something else was found.
pub fn E0204() -> (r: ErrorCode)
    ensures
        r == e0204_spec(),
{
    ErrorCode {
        code: "E0204",
        name: "expected_expression",
        category: Category::Parse,
        default_severity: Severity::Error,
        explanation: "An expression was expected but something else was found.",
    }
}

/// The `unclosed_delimiter` error code.
pub open spec fn e0205_spec() -> ErrorCode {
    ErrorCode {
        code: "E0205",
        name: "unclosed_delimiter",
        category: Category::Parse,
        default_severity: Severity::Error,
        explanation: "A delimiter (brace, bracket, or parenthesis) was opened but never closed.",
    }
}

#[allow(non_snake_case)]
/// A delimiter (brace, bracket, or parenthesis) was opened but never closed.
pub fn E0205() -> (r: ErrorCode)
    ensures
        r == e0205_spec(),
{
    ErrorCode {
        code: "E0205",
        name: "unclosed_delimiter",
        category: Category::Parse,
        default_severity: Severity::Error,
        explanation: "A delimiter (brace, bracket, or parenthesis) was opened but never closed.",
    }
}

/// The `expected_declaration` error code.
pub open spec fn e0206_spec() -> ErrorCode {
    ErrorCode {
        code: "E0206",
        name: "expected_declaration",
        category: Category::Parse,
        default_severity: Severity::Error,
        explanation: "A top-level declaration was expected (blueprint, backend, scheme, etc.).",
    }
}

#[allow(non_snake_case)]
/// A top-level declaration was expected (blueprint, backend, scheme, etc.).
pub fn E0206() -> (r: ErrorCode)
    ensures
        r == e0206_spec(),
{
    ErrorCode {
        code: "E0206",
        name: "expected_declaration",
        category: Category::Parse,
        default_severity: Severity::Error,
        explanation: "A top-level declaration was expected (blueprint, backend, scheme, etc.).",
    }
}

/// The `missing_module` error code.
pub open spec fn e0207_spec() -> ErrorCode {
    ErrorCode {
        code: "E0207",
        name: "missing_module",
        category: Category::Parse,
        default_severity: Severity::Error,
        explanation: "Every Frel file must start with a module declaration.",
    }
}

#[allow(non_snake_case)]
/// Every Frel file must start with a module declaration.
pub fn E0207() -> (r: ErrorCode)
    ensures
        r == e0207_spec(),
{
    ErrorCode {
        code: "E0207",
        name: "missing_module",
        category: Category::Parse,
        default_severity: Severity::Error,
        explanation: "Every Frel file must start with a module declaration.",
    }
}

/// The `undefined_name` error code.
pub open spec fn e0301_spec() -> ErrorCode {
    ErrorCode {
        code: "E0301",
        name: "undefined_name",
        category: Category::Resolution,
        default_severity: Severity::Error,
        explanation: "The name could not be found in the current scope or any parent scope.",
    }
}

#[allow(non_snake_case)]
/// The name could not be found in the current scope or any parent scope.
pub fn E0301() -> (r: ErrorCode)
    ensures
        r == e0301_spec(),
{
    ErrorCode {
        code: "E0301",
        name: "undefined_name",
        category: Category::Resolution,
        default_severity: Severity::Error,
        explanation: "The name could not be found in the current scope or any parent scope.",
    }
}

/// The `duplicate_definition` error code.
pub open spec fn e0302_spec() -> ErrorCode {
    ErrorCode {
        code: "E0302",
        name: "duplicate_definition",
        category: Category::Resolution,
        default_severity: Severity::Error,
        explanation: "A name is defined more than once in the same scope. Frel does not allow shadowing.",
    }
}

#[allow(non_snake_case)]
/// A name is defined more than once in the same scope. Frel does not allow shadowing.
pub fn E0302() -> (r: ErrorCode)
    ensures
        r == e0302_spec(),
{
    ErrorCode {
        code: "E0302",
        name: "duplicate_definition",
        category: Category::Resolution,
        default_severity: Severity::Error,
        explanation: "A name is defined more than once in the same scope. Frel does not allow shadowing.",
    }
}

/// The `shadowing_not_allowed` error code.
pub open spec fn e0303_spec() -> ErrorCode {
    ErrorCode {
        code: "E0303",
        name: "shadowing_not_allowed",
        category: Category::Resolution,
        default_severity: Severity::Error,
        explanation: "Frel does not allow shadowing. The name is already defined in an outer scope.",
    }
}

#[allow(non_snake_case)]
/// Frel does not allow shadowing. The name is already defined in an outer scope.
pub fn E0303() -> (r: ErrorCode)
    ensures
        r == e0303_spec(),
{
    ErrorCode {
        code: "E0303",
        name: "shadowing_not_allowed",
        category: Category::Resolution,
        default_severity: Severity::Error,
        explanation: "Frel does not allow shadowing. The name is already defined in an outer scope.",
    }
}

/// The `unresolved_import` error code.
pub open spec fn e0304_spec() -> ErrorCode {
    ErrorCode {
        code: "E0304",
        name: "unresolved_import",
        category: Category::Resolution,
        default_severity: Severity::Error,
        explanation: "The import could not be resolved. The file or declaration does not exist.",
    }
}

#[allow(non_snake_case)]
/// The import could not be resolved. The file or declaration does not exist.
pub fn E0304() -> (r: ErrorCode)
    ensures
        r == e0304_spec(),
{
    ErrorCode {
        code: "E0304",
        name: "unresolved_import",
        category: Category::Resolution,
        default_severity: Severity::Error,
        explanation: "The import could not be resolved. The file or declaration does not exist.",
    }
}

/// The `circular_import` error code.
pub open spec fn e0305_spec() -> ErrorCode {
    ErrorCode {
        code: "E0305",
        name: "circular_import",
        category: Category::Resolution,
        default_severity: Severity::Error,
        explanation: "Circular imports are not allowed between files.",
    }
}

#[allow(non_snake_case)]
/// Circular imports are not allowed between files.
pub fn E0305() -> (r: ErrorCode)
    ensures
        r == e0305_spec(),
{
    ErrorCode {
        code: "E0305",
        name: "circular_import",
        category: Category::Resolution,
        default_severity: Severity::Error,
        explanation: "Circular imports are not allowed between files.",
    }
}

/// The `unresolved_qualified_name` error code.
pub open spec fn e0306_spec() -> ErrorCode {
    ErrorCode {
        code: "E0306",
        name: "unresolved_qualified_name",
        category: Category::Resolution,
        default_severity: Severity::Error,
        explanation: "The qualified name could not be resolved. Check that all path segments exist.",
    }
}

#[allow(non_snake_case)]
/// The qualified name could not be resolved. Check that all path segments exist.
pub fn E0306() -> (r: ErrorCode)
    ensures
        r == e0306_spec(),
{
    ErrorCode {
        code: "E0306",
        name: "unresolved_qualified_name",
        category: Category::Resolution,
        default_severity: Severity::Error,
        explanation: "The qualified name could not be resolved. Check that all path segments exist.",
    }
}

/// The `type_mismatch` error code.
pub open spec fn e0401_spec() -> ErrorCode {
    ErrorCode {
        code: "E0401",
        name: "type_mismatch",
        category: Category::Type,
        default_severity: Severity::Error,
        explanation: "The type of the expression does not match the expected type.",
    }
}

#[allow(non_snake_case)]
/// The type of the expression does not match the expected type.
pub fn E0401() -> (r: ErrorCode)
    ensures
        r == e0401_spec(),
{
    ErrorCode {
        code: "E0401",
        name: "type_mismatch",
        category: Category::Type,
        default_severity: Severity::Error,
        explanation: "The type of the expression does not match the expected type.",
    }
}

/// The `unknown_type` error code.
pub open spec fn e0402_spec() -> ErrorCode {
    ErrorCode {
        code: "E0402",
        name: "unknown_type",
        category: Category::Type,
        default_severity: Severity::Error,
        explanation: "The type name could not be found. Check spelling or imports.",
    }
}

#[allow(non_snake_case)]
/// The type name could not be found. Check spelling or imports.
pub fn E0402() -> (r: ErrorCode)
    ensures
        r == e0402_spec(),
{
    ErrorCode {
        code: "E0402",
        name: "unknown_type",
        category: Category::Type,
        default_severity: Severity::Error,
        explanation: "The type name could not be found. Check spelling or imports.",
    }
}

/// The `invalid_type_modifier` error code.
pub open spec fn e0403_spec() -> ErrorCode {
    ErrorCode {
        code: "E0403",
        name: "invalid_type_modifier",
        category: Category::Type,
        default_severity: Severity::Error,
        explanation: "The type modifier cannot be applied to this type.",
    }
}

#[allow(non_snake_case)]
/// The type modifier cannot be applied to this type.
pub fn E0403() -> (r: ErrorCode)
    ensures
        r == e0403_spec(),
{
    ErrorCode {
        code: "E0403",
        name: "invalid_type_modifier",
        category: Category::Type,
        default_severity: Severity::Error,
        explanation: "The type modifier cannot be applied to this type.",
    }
}

/// The `ref_requires_identity` error code.
pub open spec fn e0404_spec() -> ErrorCode {
    ErrorCode {
        code: "E0404",
        name: "ref_requires_identity",
        category: Category::Type,
        default_severity: Severity::Error,
        explanation: "A ref type can only reference a scheme that has an identity field.",
    }
}

#[allow(non_snake_case)]
/// A ref type can only reference a scheme that has an identity field.
pub fn E0404() -> (r: ErrorCode)
    ensures
        r == e0404_spec(),
{
    ErrorCode {
        code: "E0404",
        name: "ref_requires_identity",
        category: Category::Type,
        default_severity: Severity::Error,
        explanation: "A ref type can only reference a scheme that has an identity field.",
    }
}

/// The `incompatible_types` error code.
pub open spec fn e0405_spec() -> ErrorCode {
    ErrorCode {
        code: "E0405",
        name: "incompatible_types",
        category: Category::Type,
        default_severity: Severity::Error,
        explanation: "The types are not compatible for this operation.",
    }
}

#[allow(non_snake_case)]
/// The types are not compatible for this operation.
pub fn E0405() -> (r: ErrorCode)
    ensures
        r == e0405_spec(),
{
    ErrorCode {
        code: "E0405",
        name: "incompatible_types",
        category: Category::Type,
        default_severity: Severity::Error,
        explanation: "The types are not compatible for this operation.",
    }
}

/// The `nullable_access` error code.
pub open spec fn e0406_spec() -> ErrorCode {
    ErrorCode {
        code: "E0406",
        name: "nullable_access",
        category: Category::Type,
        default_severity: Severity::Error,
        explanation: "Cannot access a field on a nullable type without optional chaining (?.).",
    }
}

#[allow(non_snake_case)]
/// Cannot access a field on a nullable type without optional chaining (?.).
pub fn E0406() -> (r: ErrorCode)
    ensures
        r == e0406_spec(),
{
    ErrorCode {
        code: "E0406",
        name: "nullable_access",
        category: Category::Type,
        default_severity: Severity::Error,
        explanation: "Cannot access a field on a nullable type without optional chaining (?.).",
    }
}

/// The `parameter_backend_type_mismatch` error code.
pub open spec fn e0407_spec() -> ErrorCode {
    ErrorCode {
        code: "E0407",
        name: "parameter_backend_type_mismatch",
        category: Category::Type,
        default_severity: Severity::Error,
        explanation: "Parameter and backend field have the same name but different types. Types must match when merging.",
    }
}

#[allow(non_snake_case)]
/// Parameter and backend field have the same name but different types. Types must match when merging.
pub fn E0407() -> (r: ErrorCode)
    ensures
        r == e0407_spec(),
{
    ErrorCode {
        code: "E0407",
        name: "parameter_backend_type_mismatch",
        category: Category::Type,
        default_severity: Severity::Error,
        explanation: "Parameter and backend field have the same name but different types. Types must match when merging.",
    }
}

/// The `conflicting_defaults` error code.
pub open spec fn e0408_spec() -> ErrorCode {
    ErrorCode {
        code: "E0408",
        name: "conflicting_defaults",
        category: Category::Type,
        default_severity: Severity::Error,
        explanation: "Both parameter and backend field have default values. Only one can have a default.",
    }
}

#[allow(non_snake_case)]
/// Both parameter and backend field have default values. Only one can have a default.
pub fn E0408() -> (r: ErrorCode)
    ensures
        r == e0408_spec(),
{
    ErrorCode {
        code: "E0408",
        name: "conflicting_defaults",
        category: Category::Type,
        default_severity: Severity::Error,
        explanation: "Both parameter and backend field have default values. Only one can have a default.",
    }
}

/// The `ownership_cycle` error code.
pub open spec fn e0501_spec() -> ErrorCode {
    ErrorCode {
        code: "E0501",
        name: "ownership_cycle",
        category: Category::Reactive,
        default_severity: Severity::Error,
        explanation: "Ownership must form a tree. A cycle was detected in the ownership graph.",
    }
}

#[allow(non_snake_case)]
/// Ownership must form a tree. A cycle was detected in the ownership graph.
pub fn E0501() -> (r: ErrorCode)
    ensures
        r == e0501_spec(),
{
    ErrorCode {
        code: "E0501",
        name: "ownership_cycle",
        category: Category::Reactive,
        default_severity: Severity::Error,
        explanation: "Ownership must form a tree. A cycle was detected in the ownership graph.",
    }
}

/// The `invalid_draft_usage` error code.
pub open spec fn e0502_spec() -> ErrorCode {
    ErrorCode {
        code: "E0502",
        name: "invalid_draft_usage",
        category: Category::Reactive,
        default_severity: Severity::Error,
        explanation: "Draft values can only be assigned to draft fields or local variables.",
    }
}

#[allow(non_snake_case)]
/// Draft values can only be assigned to draft fields or local variables.
pub fn E0502() -> (r: ErrorCode)
    ensures
        r == e0502_spec(),
{
    ErrorCode {
        code: "E0502",
        name: "invalid_draft_usage",
        category: Category::Reactive,
        default_severity: Severity::Error,
        explanation: "Draft values can only be assigned to draft fields or local variables.",
    }
}

/// The `non_draft_assignment` error code.
pub open spec fn e0503_spec() -> ErrorCode {
    ErrorCode {
        code: "E0503",
        name: "non_draft_assignment",
        category: Category::Reactive,
        default_severity: Severity::Error,
        explanation: "Cannot assign a non-draft composite to another location. Use draft T for mutable copies.",
    }
}

#[allow(non_snake_case)]
/// Cannot assign a non-draft composite to another location. Use draft T for mutable copies.
pub fn E0503() -> (r: ErrorCode)
    ensures
        r == e0503_spec(),
{
    ErrorCode {
        code: "E0503",
        name: "non_draft_assignment",
        category: Category::Reactive,
        default_severity: Severity::Error,
        explanation: "Cannot assign a non-draft composite to another location. Use draft T for mutable copies.",
    }
}

/// The `virtual_field_cycle` error code.
pub open spec fn e0504_spec() -> ErrorCode {
    ErrorCode {
        code: "E0504",
        name: "virtual_field_cycle",
        category: Category::Reactive,
        default_severity: Severity::Error,
        explanation: "Virtual fields cannot have circular dependencies.",
    }
}

#[allow(non_snake_case)]
/// Virtual fields cannot have circular dependencies.
pub fn E0504() -> (r: ErrorCode)
    ensures
        r == e0504_spec(),
{
    ErrorCode {
        code: "E0504",
        name: "virtual_field_cycle",
        category: Category::Reactive,
        default_severity: Severity::Error,
        explanation: "Virtual fields cannot have circular dependencies.",
    }
}

/// The `backend_include_conflict` error code.
pub open spec fn e0601_spec() -> ErrorCode {
    ErrorCode {
        code: "E0601",
        name: "backend_include_conflict",
        category: Category::Backend,
        default_severity: Severity::Error,
        explanation: "A field from an included backend conflicts with an existing field.",
    }
}

#[allow(non_snake_case)]
/// A field from an included backend conflicts with an existing field.
pub fn E0601() -> (r: ErrorCode)
    ensures
        r == e0601_spec(),
{
    ErrorCode {
        code: "E0601",
        name: "backend_include_conflict",
        category: Category::Backend,
        default_severity: Severity::Error,
        explanation: "A field from an included backend conflicts with an existing field.",
    }
}

/// The `circular_include` error code.
pub open spec fn e0602_spec() -> ErrorCode {
    ErrorCode {
        code: "E0602",
        name: "circular_include",
        category: Category::Backend,
        default_severity: Severity::Error,
        explanation: "Backends cannot include each other in a cycle.",
    }
}

#[allow(non_snake_case)]
/// Backends cannot include each other in a cycle.
pub fn E0602() -> (r: ErrorCode)
    ensures
        r == e0602_spec(),
{
    ErrorCode {
        code: "E0602",
        name: "circular_include",
        category: Category::Backend,
        default_severity: Severity::Error,
        explanation: "Backends cannot include each other in a cycle.",
    }
}

/// The `command_outside_handler` error code.
pub open spec fn e0603_spec() -> ErrorCode {
    ErrorCode {
        code: "E0603",
        name: "command_outside_handler",
        category: Category::Backend,
        default_severity: Severity::Error,
        explanation: "Commands can only be called from event handlers, not from expressions.",
    }
}

#[allow(non_snake_case)]
/// Commands can only be called from event handlers, not from expressions.
pub fn E0603() -> (r: ErrorCode)
    ensures
        r == e0603_spec(),
{
    ErrorCode {
        code: "E0603",
        name: "command_outside_handler",
        category: Category::Backend,
        default_severity: Severity::Error,
        explanation: "Commands can only be called from event handlers, not from expressions.",
    }
}

/// The `method_in_handler` error code.
pub open spec fn e0604_spec() -> ErrorCode {
    ErrorCode {
        code: "E0604",
        name: "method_in_handler",
        category: Category::Backend,
        default_severity: Severity::Warning,
        explanation: "Methods are pure and should be called from expressions, not event handlers.",
    }
}

#[allow(non_snake_case)]
/// Methods are pure and should be called from expressions, not event handlers.
pub fn E0604() -> (r: ErrorCode)
    ensures
        r == e0604_spec(),
{
    ErrorCode {
        code: "E0604",
        name: "method_in_handler",
        category: Category::Backend,
        default_severity: Severity::Warning,
        explanation: "Methods are pure and should be called from expressions, not event handlers.",
    }
}

/// The `invalid_slot` error code.
pub open spec fn e0701_spec() -> ErrorCode {
    ErrorCode {
        code: "E0701",
        name: "invalid_slot",
        category: Category::Blueprint,
        default_severity: Severity::Error,
        explanation: "The slot name does not exist in the target blueprint.",
    }
}

#[allow(non_snake_case)]
/// The slot name does not exist in the target blueprint.
pub fn E0701() -> (r: ErrorCode)
    ensures
        r == e0701_spec(),
{
    ErrorCode {
        code: "E0701",
        name: "invalid_slot",
        category: Category::Blueprint,
        default_severity: Severity::Error,
        explanation: "The slot name does not exist in the target blueprint.",
    }
}

/// The `parameter_arity` error code.
pub open spec fn e0702_spec() -> ErrorCode {
    ErrorCode {
        code: "E0702",
        name: "parameter_arity",
        category: Category::Blueprint,
        default_severity: Severity::Error,
        explanation: "The number of arguments does not match the number of parameters.",
    }
}

#[allow(non_snake_case)]
/// The number of arguments does not match the number of parameters.
pub fn E0702() -> (r: ErrorCode)
    ensures
        r == e0702_spec(),
{
    ErrorCode {
        code: "E0702",
        name: "parameter_arity",
        category: Category::Blueprint,
        default_severity: Severity::Error,
        explanation: "The number of arguments does not match the number of parameters.",
    }
}

/// The `multiple_with` error code.
pub open spec fn e0703_spec() -> ErrorCode {
    ErrorCode {
        code: "E0703",
        name: "multiple_with",
        category: Category::Blueprint,
        default_severity: Severity::Error,
        explanation: "A blueprint can only have one 'with' statement.",
    }
}

#[allow(non_snake_case)]
/// A blueprint can only have one 'with' statement.
pub fn E0703() -> (r: ErrorCode)
    ensures
        r == e0703_spec(),
{
    ErrorCode {
        code: "E0703",
        name: "multiple_with",
        category: Category::Blueprint,
        default_severity: Severity::Error,
        explanation: "A blueprint can only have one 'with' statement.",
    }
}

/// The `invalid_closure_capture` error code.
pub open spec fn e0704_spec() -> ErrorCode {
    ErrorCode {
        code: "E0704",
        name: "invalid_closure_capture",
        category: Category::Blueprint,
        default_severity: Severity::Error,
        explanation: "The captured variable is not available in the closure scope.",
    }
}

#[allow(non_snake_case)]
/// The captured variable is not available in the closure scope.
pub fn E0704() -> (r: ErrorCode)
    ensures
        r == e0704_spec(),
{
    ErrorCode {
        code: "E0704",
        name: "invalid_closure_capture",
        category: Category::Blueprint,
        default_severity: Severity::Error,
        explanation: "The captured variable is not available in the closure scope.",
    }
}

/// The `invalid_instruction_keyword` error code.
pub open spec fn e0705_spec() -> ErrorCode {
    ErrorCode {
        code: "E0705",
        name: "invalid_instruction_keyword",
        category: Category::Blueprint,
        default_severity: Severity::Error,
        explanation: "The value is not a valid keyword for this instruction parameter.",
    }
}

#[allow(non_snake_case)]
/// The value is not a valid keyword for this instruction parameter.
pub fn E0705() -> (r: ErrorCode)
    ensures
        r == e0705_spec(),
{
    ErrorCode {
        code: "E0705",
        name: "invalid_instruction_keyword",
        category: Category::Blueprint,
        default_severity: Severity::Error,
        explanation: "The value is not a valid keyword for this instruction parameter.",
    }
}

/// Every registered error code, in registry order.
pub open spec fn all_codes() -> Seq<ErrorCode> {
    seq![e0101_spec(), e0102_spec(), e0103_spec(), e0104_spec(), e0105_spec(), e0201_spec(), e0202_spec(), e0203_spec(), e0204_spec(), e0205_spec(), e0206_spec(), e0207_spec(), e0301_spec(), e0302_spec(), e0303_spec(), e0304_spec(), e0305_spec(), e0306_spec(), e0401_spec(), e0402_spec(), e0403_spec(), e0404_spec(), e0405_spec(), e0406_spec(), e0407_spec(), e0408_spec(), e0501_spec(), e0502_spec(), e0503_spec(), e0504_spec(), e0601_spec(), e0602_spec(), e0603_spec(), e0604_spec(), e0701_spec(), e0702_spec(), e0703_spec(), e0704_spec(), e0705_spec()]
}

/// The registered code whose identifier is `code`, if any.
pub open spec fn lookup_spec(code: Seq<char>) -> Option<ErrorCode> {
    if code == "E0101"@ {
        Some(e0101_spec())
    } else if code == "E0102"@ {
        Some(e0102_spec())
    } else if code == "E0103"@ {
        Some(e0103_spec())
    } else if code == "E0104"@ {
        Some(e0104_spec())
    } else if code == "E0105"@ {
        Some(e0105_spec())
    } else if code == "E0201"@ {
        Some(e0201_spec())
    } else if code == "E0202"@ {
        Some(e0202_spec())
    } else if code == "E0203"@ {
        Some(e0203_spec())
    } else if code == "E0204"@ {
        Some(e0204_spec())
    } else if code == "E0205"@ {
        Some(e0205_spec())
    } else if code == "E0206"@ {
        Some(e0206_spec())
    } else if code == "E0207"@ {
        Some(e0207_spec())
    } else if code == "E0301"@ {
        Some(e0301_spec())
    } else if code == "E0302"@ {
        Some(e0302_spec())
    } else if code == "E0303"@ {
        Some(e0303_spec())
    } else if code == "E0304"@ {
        Some(e0304_spec())
    } else if code == "E0305"@ {
        Some(e0305_spec())
    } else if code == "E0306"@ {
        Some(e0306_spec())
    } else if code == "E0401"@ {
        Some(e0401_spec())
    } else if code == "E0402"@ {
        Some(e0402_spec())
    } else if code == "E0403"@ {
        Some(e0403_spec())
    } else if code == "E0404"@ {
        Some(e0404_spec())
    } else if code == "E0405"@ {
        Some(e0405_spec())
    } else if code == "E0406"@ {
        Some(e0406_spec())
    } else if code == "E0407"@ {
        Some(e0407_spec())
    } else if code == "E0408"@ {
        Some(e0408_spec())
    } else if code == "E0501"@ {
        Some(e0501_spec())
    } else if code == "E0502"@ {
        Some(e0502_spec())
    } else if code == "E0503"@ {
        Some(e0503_spec())
    } else if code == "E0504"@ {
        Some(e0504_spec())
    } else if code == "E0601"@ {
        Some(e0601_spec())
    } else if code == "E0602"@ {
        Some(e0602_spec())
    } else if code == "E0603"@ {
        Some(e0603_spec())
    } else if code == "E0604"@ {
        Some(e0604_spec())
    } else if code == "E0701"@ {
        Some(e0701_spec())
    } else if code == "E0702"@ {
        Some(e0702_spec())
    } else if code == "E0703"@ {
        Some(e0703_spec())
    } else if code == "E0704"@ {
        Some(e0704_spec())
    } else if code == "E0705"@ {
        Some(e0705_spec())
    } else {
        None
    }
}

/// Look up an error code by its string identifier
pub fn lookup(code: &str) -> (r: Option<ErrorCode>)
    ensures
        r == lookup_spec(code@),
{
    if str_eq(code, "E0101") {
        Some(E0101())
    } else if str_eq(code, "E0102") {
        Some(E0102())
    } else if str_eq(code, "E0103") {
        Some(E0103())
    } else if str_eq(code, "E0104") {
        Some(E0104())
    } else if str_eq(code, "E0105") {
        Some(E0105())
    } else if str_eq(code, "E0201") {
        Some(E0201())
    } else if str_eq(code, "E0202") {
        Some(E0202())
    } else if str_eq(code, "E0203") {
        Some(E0203())
    } else if str_eq(code, "E0204") {
        Some(E0204())
    } else if str_eq(code, "E0205") {
        Some(E0205())
    } else if str_eq(code, "E0206") {
        Some(E0206())
    } else if str_eq(code, "E0207") {
        Some(E0207())
    } else if str_eq(code, "E0301") {
        Some(E0301())
    } else if str_eq(code, "E0302") {
        Some(E0302())
    } else if str_eq(code, "E0303") {
        Some(E0303())
    } else if str_eq(code, "E0304") {
        Some(E0304())
    } else if str_eq(code, "E0305") {
        Some(E0305())
    } else if str_eq(code, "E0306") {
        Some(E0306())
    } else if str_eq(code, "E0401") {
        Some(E0401())
    } else if str_eq(code, "E0402") {
        Some(E0402())
    } else if str_eq(code, "E0403") {
        Some(E0403())
    } else if str_eq(code, "E0404") {
        Some(E0404())
    } else if str_eq(code, "E0405") {
        Some(E0405())
    } else if str_eq(code, "E0406") {
        Some(E0406())
    } else if str_eq(code, "E0407") {
        Some(E0407())
    } else if str_eq(code, "E0408") {
        Some(E0408())
    } else if str_eq(code, "E0501") {
        Some(E0501())
    } else if str_eq(code, "E0502") {
        Some(E0502())
    } else if str_eq(code, "E0503") {
        Some(E0503())
    } else if str_eq(code, "E0504") {
        Some(E0504())
    } else if str_eq(code, "E0601") {
        Some(E0601())
    } else if str_eq(code, "E0602") {
        Some(E0602())
    } else if str_eq(code, "E0603") {
        Some(E0603())
    } else if str_eq(code, "E0604") {
        Some(E0604())
    } else if str_eq(code, "E0701") {
        Some(E0701())
    } else if str_eq(code, "E0702") {
        Some(E0702())
    } else if str_eq(code, "E0703") {
        Some(E0703())
    } else if str_eq(code, "E0704") {
        Some(E0704())
    } else if str_eq(code, "E0705") {
        Some(E0705())
    } else {
        None
    }
}

/// All registered codes of a category, in registry order.
pub open spec fn by_category_spec(category: Category) -> Seq<ErrorCode> {
    all_codes().filter(of_category(category))
}

/// Whether a code belongs to the category.
pub open spec fn of_category(category: Category) -> spec_fn(ErrorCode) -> bool {
    |c: ErrorCode| c.category == category
}

/// Get all error codes for a category
pub fn by_category(category: Category) -> (r: Vec<ErrorCode>)
    ensures
        r@ == by_category_spec(category),
{
    let all: Vec<ErrorCode> = vec![E0101(), E0102(), E0103(), E0104(), E0105(), E0201(), E0202(), E0203(), E0204(), E0205(), E0206(), E0207(), E0301(), E0302(), E0303(), E0304(), E0305(), E0306(), E0401(), E0402(), E0403(), E0404(), E0405(), E0406(), E0407(), E0408(), E0501(), E0502(), E0503(), E0504(), E0601(), E0602(), E0603(), E0604(), E0701(), E0702(), E0703(), E0704(), E0705()];
    proof {
        assert(all@ =~= all_codes());
    }
    let mut out: Vec<ErrorCode> = Vec::new();
    let mut i: usize = 0;
    while i < all.len()
        invariant
            i <= all@.len(),
            all@ == all_codes(),
            out@ == all_codes().take(i as int).filter(|c: ErrorCode| c.category == category),
        decreases all.len() - i,
    {
        proof {
            reveal_with_fuel(Seq::<_>::filter, 1);
            assert(all_codes().take(i + 1).drop_last() =~= all_codes().take(i as int));
        }
        if all[i].category == category {
            out.push(all[i]);
        }
        i = i + 1;
    }
    proof {
        assert(all_codes().take(all@.len() as int) =~= all_codes());
    }
    out
}


/// The spellings of the registered codes and of the category prefixes.
proof fn lemma_code_texts()
    ensures
        forall|i: int| 0 <= i < all_codes().len() ==> {
            &&& (#[trigger] all_codes()[i]).code@.len() == 5
            &&& all_codes()[i].code@.subrange(0, 3) == all_codes()[i].category.code_prefix_spec()
        },
        forall|i: int| 0 <= i < all_codes().len() ==> lookup_spec((#[trigger] all_codes()[i]).code@) == Some(all_codes()[i]),
{
    reveal_strlit("E0101");
    reveal_strlit("E0102");
    reveal_strlit("E0103");
    reveal_strlit("E0104");
    reveal_strlit("E0105");
    reveal_strlit("E0201");
    reveal_strlit("E0202");
    reveal_strlit("E0203");
    reveal_strlit("E0204");
    reveal_strlit("E0205");
    reveal_strlit("E0206");
    reveal_strlit("E0207");
    reveal_strlit("E0301");
    reveal_strlit("E0302");
    reveal_strlit("E0303");
    reveal_strlit("E0304");
    reveal_strlit("E0305");
    reveal_strlit("E0306");
    reveal_strlit("E0401");
    reveal_strlit("E0402");
    reveal_strlit("E0403");
    reveal_strlit("E0404");
    reveal_strlit("E0405");
    reveal_strlit("E0406");
    reveal_strlit("E0407");
    reveal_strlit("E0408");
    reveal_strlit("E0501");
    reveal_strlit("E0502");
    reveal_strlit("E0503");
    reveal_strlit("E0504");
    reveal_strlit("E0601");
    reveal_strlit("E0602");
    reveal_strlit("E0603");
    reveal_strlit("E0604");
    reveal_strlit("E0701");
    reveal_strlit("E0702");
    reveal_strlit("E0703");
    reveal_strlit("E0704");
    reveal_strlit("E0705");
    reveal_strlit("E01");
    reveal_strlit("E02");
    reveal_strlit("E03");
    reveal_strlit("E04");
    reveal_strlit("E05");
    reveal_strlit("E06");
    reveal_strlit("E07");
    assert("E0101"@.len() == 5 && "E0101"@[0] == 'E' && "E0101"@[1] == '0' && "E0101"@[2] == '1' && "E0101"@[3] == '0' && "E0101"@[4] == '1');
    assert("E0102"@.len() == 5 && "E0102"@[0] == 'E' && "E0102"@[1] == '0' && "E0102"@[2] == '1' && "E0102"@[3] == '0' && "E0102"@[4] == '2');
    assert("E0103"@.len() == 5 && "E0103"@[0] == 'E' && "E0103"@[1] == '0' && "E0103"@[2] == '1' && "E0103"@[3] == '0' && "E0103"@[4] == '3');
    assert("E0104"@.len() == 5 && "E0104"@[0] == 'E' && "E0104"@[1] == '0' && "E0104"@[2] == '1' && "E0104"@[3] == '0' && "E0104"@[4] == '4');
    assert("E0105"@.len() == 5 && "E0105"@[0] == 'E' && "E0105"@[1] == '0' && "E0105"@[2] == '1' && "E0105"@[3] == '0' && "E0105"@[4] == '5');
    assert("E0201"@.len() == 5 && "E0201"@[0] == 'E' && "E0201"@[1] == '0' && "E0201"@[2] == '2' && "E0201"@[3] == '0' && "E0201"@[4] == '1');
    assert("E0202"@.len() == 5 && "E0202"@[0] == 'E' && "E0202"@[1] == '0' && "E0202"@[2] == '2' && "E0202"@[3] == '0' && "E0202"@[4] == '2');
    assert("E0203"@.len() == 5 && "E0203"@[0] == 'E' && "E0203"@[1] == '0' && "E0203"@[2] == '2' && "E0203"@[3] == '0' && "E0203"@[4] == '3');
    assert("E0204"@.len() == 5 && "E0204"@[0] == 'E' && "E0204"@[1] == '0' && "E0204"@[2] == '2' && "E0204"@[3] == '0' && "E0204"@[4] == '4');
    assert("E0205"@.len() == 5 && "E0205"@[0] == 'E' && "E0205"@[1] == '0' && "E0205"@[2] == '2' && "E0205"@[3] == '0' && "E0205"@[4] == '5');
    assert("E0206"@.len() == 5 && "E0206"@[0] == 'E' && "E0206"@[1] == '0' && "E0206"@[2] == '2' && "E0206"@[3] == '0' && "E0206"@[4] == '6');
    assert("E0207"@.len() == 5 && "E0207"@[0] == 'E' && "E0207"@[1] == '0' && "E0207"@[2] == '2' && "E0207"@[3] == '0' && "E0207"@[4] == '7');
    assert("E0301"@.len() == 5 && "E0301"@[0] == 'E' && "E0301"@[1] == '0' && "E0301"@[2] == '3' && "E0301"@[3] == '0' && "E0301"@[4] == '1');
    assert("E0302"@.len() == 5 && "E0302"@[0] == 'E' && "E0302"@[1] == '0' && "E0302"@[2] == '3' && "E0302"@[3] == '0' && "E0302"@[4] == '2');
    assert("E0303"@.len() == 5 && "E0303"@[0] == 'E' && "E0303"@[1] == '0' && "E0303"@[2] == '3' && "E0303"@[3] == '0' && "E0303"@[4] == '3');
    assert("E0304"@.len() == 5 && "E0304"@[0] == 'E' && "E0304"@[1] == '0' && "E0304"@[2] == '3' && "E0304"@[3] == '0' && "E0304"@[4] == '4');
    assert("E0305"@.len() == 5 && "E0305"@[0] == 'E' && "E0305"@[1] == '0' && "E0305"@[2] == '3' && "E0305"@[3] == '0' && "E0305"@[4] == '5');
    assert("E0306"@.len() == 5 && "E0306"@[0] == 'E' && "E0306"@[1] == '0' && "E0306"@[2] == '3' && "E0306"@[3] == '0' && "E0306"@[4] == '6');
    assert("E0401"@.len() == 5 && "E0401"@[0] == 'E' && "E0401"@[1] == '0' && "E0401"@[2] == '4' && "E0401"@[3] == '0' && "E0401"@[4] == '1');
    assert("E0402"@.len() == 5 && "E0402"@[0] == 'E' && "E0402"@[1] == '0' && "E0402"@[2] == '4' && "E0402"@[3] == '0' && "E0402"@[4] == '2');
    assert("E0403"@.len() == 5 && "E0403"@[0] == 'E' && "E0403"@[1] == '0' && "E0403"@[2] == '4' && "E0403"@[3] == '0' && "E0403"@[4] == '3');
    assert("E0404"@.len() == 5 && "E0404"@[0] == 'E' && "E0404"@[1] == '0' && "E0404"@[2] == '4' && "E0404"@[3] == '0' && "E0404"@[4] == '4');
    assert("E0405"@.len() == 5 && "E0405"@[0] == 'E' && "E0405"@[1] == '0' && "E0405"@[2] == '4' && "E0405"@[3] == '0' && "E0405"@[4] == '5');
    assert("E0406"@.len() == 5 && "E0406"@[0] == 'E' && "E0406"@[1] == '0' && "E0406"@[2] == '4' && "E0406"@[3] == '0' && "E0406"@[4] == '6');
    assert("E0407"@.len() == 5 && "E0407"@[0] == 'E' && "E0407"@[1] == '0' && "E0407"@[2] == '4' && "E0407"@[3] == '0' && "E0407"@[4] == '7');
    assert("E0408"@.len() == 5 && "E0408"@[0] == 'E' && "E0408"@[1] == '0' && "E0408"@[2] == '4' && "E0408"@[3] == '0' && "E0408"@[4] == '8');
    assert("E0501"@.len() == 5 && "E0501"@[0] == 'E' && "E0501"@[1] == '0' && "E0501"@[2] == '5' && "E0501"@[3] == '0' && "E0501"@[4] == '1');
    assert("E0502"@.len() == 5 && "E0502"@[0] == 'E' && "E0502"@[1] == '0' && "E0502"@[2] == '5' && "E0502"@[3] == '0' && "E0502"@[4] == '2');
    assert("E0503"@.len() == 5 && "E0503"@[0] == 'E' && "E0503"@[1] == '0' && "E0503"@[2] == '5' && "E0503"@[3] == '0' && "E0503"@[4] == '3');
    assert("E0504"@.len() == 5 && "E0504"@[0] == 'E' && "E0504"@[1] == '0' && "E0504"@[2] == '5' && "E0504"@[3] == '0' && "E0504"@[4] == '4');
    assert("E0601"@.len() == 5 && "E0601"@[0] == 'E' && "E0601"@[1] == '0' && "E0601"@[2] == '6' && "E0601"@[3] == '0' && "E0601"@[4] == '1');
    assert("E0602"@.len() == 5 && "E0602"@[0] == 'E' && "E0602"@[1] == '0' && "E0602"@[2] == '6' && "E0602"@[3] == '0' && "E0602"@[4] == '2');
    assert("E0603"@.len() == 5 && "E0603"@[0] == 'E' && "E0603"@[1] == '0' && "E0603"@[2] == '6' && "E0603"@[3] == '0' && "E0603"@[4] == '3');
    assert("E0604"@.len() == 5 && "E0604"@[0] == 'E' && "E0604"@[1] == '0' && "E0604"@[2] == '6' && "E0604"@[3] == '0' && "E0604"@[4] == '4');
    assert("E0701"@.len() == 5 && "E0701"@[0] == 'E' && "E0701"@[1] == '0' && "E0701"@[2] == '7' && "E0701"@[3] == '0' && "E0701"@[4] == '1');
    assert("E0702"@.len() == 5 && "E0702"@[0] == 'E' && "E0702"@[1] == '0' && "E0702"@[2] == '7' && "E0702"@[3] == '0' && "E0702"@[4] == '2');
    assert("E0703"@.len() == 5 && "E0703"@[0] == 'E' && "E0703"@[1] == '0' && "E0703"@[2] == '7' && "E0703"@[3] == '0' && "E0703"@[4] == '3');
    assert("E0704"@.len() == 5 && "E0704"@[0] == 'E' && "E0704"@[1] == '0' && "E0704"@[2] == '7' && "E0704"@[3] == '0' && "E0704"@[4] == '4');
    assert("E0705"@.len() == 5 && "E0705"@[0] == 'E' && "E0705"@[1] == '0' && "E0705"@[2] == '7' && "E0705"@[3] == '0' && "E0705"@[4] == '5');
    assert("E01"@.len() == 3 && "E01"@[0] == 'E' && "E01"@[1] == '0' && "E01"@[2] == '1');
    assert("E02"@.len() == 3 && "E02"@[0] == 'E' && "E02"@[1] == '0' && "E02"@[2] == '2');
    assert("E03"@.len() == 3 && "E03"@[0] == 'E' && "E03"@[1] == '0' && "E03"@[2] == '3');
    assert("E04"@.len() == 3 && "E04"@[0] == 'E' && "E04"@[1] == '0' && "E04"@[2] == '4');
    assert("E05"@.len() == 3 && "E05"@[0] == 'E' && "E05"@[1] == '0' && "E05"@[2] == '5');
    assert("E06"@.len() == 3 && "E06"@[0] == 'E' && "E06"@[1] == '0' && "E06"@[2] == '6');
    assert("E07"@.len() == 3 && "E07"@[0] == 'E' && "E07"@[1] == '0' && "E07"@[2] == '7');
    assert(all_codes()[0].code@.subrange(0, 3) =~= all_codes()[0].category.code_prefix_spec());
    assert(all_codes()[1].code@.subrange(0, 3) =~= all_codes()[1].category.code_prefix_spec());
    assert(all_codes()[2].code@.subrange(0, 3) =~= all_codes()[2].category.code_prefix_spec());
    assert(all_codes()[3].code@.subrange(0, 3) =~= all_codes()[3].category.code_prefix_spec());
    assert(all_codes()[4].code@.subrange(0, 3) =~= all_codes()[4].category.code_prefix_spec());
    assert(all_codes()[5].code@.subrange(0, 3) =~= all_codes()[5].category.code_prefix_spec());
    assert(all_codes()[6].code@.subrange(0, 3) =~= all_codes()[6].category.code_prefix_spec());
    assert(all_codes()[7].code@.subrange(0, 3) =~= all_codes()[7].category.code_prefix_spec());
    assert(all_codes()[8].code@.subrange(0, 3) =~= all_codes()[8].category.code_prefix_spec());
    assert(all_codes()[9].code@.subrange(0, 3) =~= all_codes()[9].category.code_prefix_spec());
    assert(all_codes()[10].code@.subrange(0, 3) =~= all_codes()[10].category.code_prefix_spec());
    assert(all_codes()[11].code@.subrange(0, 3) =~= all_codes()[11].category.code_prefix_spec());
    assert(all_codes()[12].code@.subrange(0, 3) =~= all_codes()[12].category.code_prefix_spec());
    assert(all_codes()[13].code@.subrange(0, 3) =~= all_codes()[13].category.code_prefix_spec());
    assert(all_codes()[14].code@.subrange(0, 3) =~= all_codes()[14].category.code_prefix_spec());
    assert(all_codes()[15].code@.subrange(0, 3) =~= all_codes()[15].category.code_prefix_spec());
    assert(all_codes()[16].code@.subrange(0, 3) =~= all_codes()[16].category.code_prefix_spec());
    assert(all_codes()[17].code@.subrange(0, 3) =~= all_codes()[17].category.code_prefix_spec());
    assert(all_codes()[18].code@.subrange(0, 3) =~= all_codes()[18].category.code_prefix_spec());
    assert(all_codes()[19].code@.subrange(0, 3) =~= all_codes()[19].category.code_prefix_spec());
    assert(all_codes()[20].code@.subrange(0, 3) =~= all_codes()[20].category.code_prefix_spec());
    assert(all_codes()[21].code@.subrange(0, 3) =~= all_codes()[21].category.code_prefix_spec());
    assert(all_codes()[22].code@.subrange(0, 3) =~= all_codes()[22].category.code_prefix_spec());
    assert(all_codes()[23].code@.subrange(0, 3) =~= all_codes()[23].category.code_prefix_spec());
    assert(all_codes()[24].code@.subrange(0, 3) =~= all_codes()[24].category.code_prefix_spec());
    assert(all_codes()[25].code@.subrange(0, 3) =~= all_codes()[25].category.code_prefix_spec());
    assert(all_codes()[26].code@.subrange(0, 3) =~= all_codes()[26].category.code_prefix_spec());
    assert(all_codes()[27].code@.subrange(0, 3) =~= all_codes()[27].category.code_prefix_spec());
    assert(all_codes()[28].code@.subrange(0, 3) =~= all_codes()[28].category.code_prefix_spec());
    assert(all_codes()[29].code@.subrange(0, 3) =~= all_codes()[29].category.code_prefix_spec());
    assert(all_codes()[30].code@.subrange(0, 3) =~= all_codes()[30].category.code_prefix_spec());
    assert(all_codes()[31].code@.subrange(0, 3) =~= all_codes()[31].category.code_prefix_spec());
    assert(all_codes()[32].code@.subrange(0, 3) =~= all_codes()[32].category.code_prefix_spec());
    assert(all_codes()[33].code@.subrange(0, 3) =~= all_codes()[33].category.code_prefix_spec());
    assert(all_codes()[34].code@.subrange(0, 3) =~= all_codes()[34].category.code_prefix_spec());
    assert(all_codes()[35].code@.subrange(0, 3) =~= all_codes()[35].category.code_prefix_spec());
    assert(all_codes()[36].code@.subrange(0, 3) =~= all_codes()[36].category.code_prefix_spec());
    assert(all_codes()[37].code@.subrange(0, 3) =~= all_codes()[37].category.code_prefix_spec());
    assert(all_codes()[38].code@.subrange(0, 3) =~= all_codes()[38].category.code_prefix_spec());
    {
        assert(lookup_spec(all_codes()[0].code@) == Some(all_codes()[0]));
    }
    {
        assert("E0102"@ != "E0101"@);
        assert(lookup_spec(all_codes()[1].code@) == Some(all_codes()[1]));
    }
    {
        assert("E0103"@ != "E0101"@);
        assert("E0103"@ != "E0102"@);
        assert(lookup_spec(all_codes()[2].code@) == Some(all_codes()[2]));
    }
    {
        assert("E0104"@ != "E0101"@);
        assert("E0104"@ != "E0102"@);
        assert("E0104"@ != "E0103"@);
        assert(lookup_spec(all_codes()[3].code@) == Some(all_codes()[3]));
    }
    {
        assert("E0105"@ != "E0101"@);
        assert("E0105"@ != "E0102"@);
        assert("E0105"@ != "E0103"@);
        assert("E0105"@ != "E0104"@);
        assert(lookup_spec(all_codes()[4].code@) == Some(all_codes()[4]));
    }
    {
        assert("E0201"@ != "E0101"@);
        assert("E0201"@ != "E0102"@);
        assert("E0201"@ != "E0103"@);
        assert("E0201"@ != "E0104"@);
        assert("E0201"@ != "E0105"@);
        assert(lookup_spec(all_codes()[5].code@) == Some(all_codes()[5]));
    }
    {
        assert("E0202"@ != "E0101"@);
        assert("E0202"@ != "E0102"@);
        assert("E0202"@ != "E0103"@);
        assert("E0202"@ != "E0104"@);
        assert("E0202"@ != "E0105"@);
        assert("E0202"@ != "E0201"@);
        assert(lookup_spec(all_codes()[6].code@) == Some(all_codes()[6]));
    }
    {
        assert("E0203"@ != "E0101"@);
        assert("E0203"@ != "E0102"@);
        assert("E0203"@ != "E0103"@);
        assert("E0203"@ != "E0104"@);
        assert("E0203"@ != "E0105"@);
        assert("E0203"@ != "E0201"@);
        assert("E0203"@ != "E0202"@);
        assert(lookup_spec(all_codes()[7].code@) == Some(all_codes()[7]));
    }
    {
        assert("E0204"@ != "E0101"@);
        assert("E0204"@ != "E0102"@);
        assert("E0204"@ != "E0103"@);
        assert("E0204"@ != "E0104"@);
        assert("E0204"@ != "E0105"@);
        assert("E0204"@ != "E0201"@);
        assert("E0204"@ != "E0202"@);
        assert("E0204"@ != "E0203"@);
        assert(lookup_spec(all_codes()[8].code@) == Some(all_codes()[8]));
    }
    {
        assert("E0205"@ != "E0101"@);
        assert("E0205"@ != "E0102"@);
        assert("E0205"@ != "E0103"@);
        assert("E0205"@ != "E0104"@);
        assert("E0205"@ != "E0105"@);
        assert("E0205"@ != "E0201"@);
        assert("E0205"@ != "E0202"@);
        assert("E0205"@ != "E0203"@);
        assert("E0205"@ != "E0204"@);
        assert(lookup_spec(all_codes()[9].code@) == Some(all_codes()[9]));
    }
    {
        assert("E0206"@ != "E0101"@);
        assert("E0206"@ != "E0102"@);
        assert("E0206"@ != "E0103"@);
        assert("E0206"@ != "E0104"@);
        assert("E0206"@ != "E0105"@);
        assert("E0206"@ != "E0201"@);
        assert("E0206"@ != "E0202"@);
        assert("E0206"@ != "E0203"@);
        assert("E0206"@ != "E0204"@);
        assert("E0206"@ != "E0205"@);
        assert(lookup_spec(all_codes()[10].code@) == Some(all_codes()[10]));
    }
    {
        assert("E0207"@ != "E0101"@);
        assert("E0207"@ != "E0102"@);
        assert("E0207"@ != "E0103"@);
        assert("E0207"@ != "E0104"@);
        assert("E0207"@ != "E0105"@);
        assert("E0207"@ != "E0201"@);
        assert("E0207"@ != "E0202"@);
        assert("E0207"@ != "E0203"@);
        assert("E0207"@ != "E0204"@);
        assert("E0207"@ != "E0205"@);
        assert("E0207"@ != "E0206"@);
        assert(lookup_spec(all_codes()[11].code@) == Some(all_codes()[11]));
    }
    {
        assert("E0301"@ != "E0101"@);
        assert("E0301"@ != "E0102"@);
        assert("E0301"@ != "E0103"@);
        assert("E0301"@ != "E0104"@);
        assert("E0301"@ != "E0105"@);
        assert("E0301"@ != "E0201"@);
        assert("E0301"@ != "E0202"@);
        assert("E0301"@ != "E0203"@);
        assert("E0301"@ != "E0204"@);
        assert("E0301"@ != "E0205"@);
        assert("E0301"@ != "E0206"@);
        assert("E0301"@ != "E0207"@);
        assert(lookup_spec(all_codes()[12].code@) == Some(all_codes()[12]));
    }
    {
        assert("E0302"@ != "E0101"@);
        assert("E0302"@ != "E0102"@);
        assert("E0302"@ != "E0103"@);
        assert("E0302"@ != "E0104"@);
        assert("E0302"@ != "E0105"@);
        assert("E0302"@ != "E0201"@);
        assert("E0302"@ != "E0202"@);
        assert("E0302"@ != "E0203"@);
        assert("E0302"@ != "E0204"@);
        assert("E0302"@ != "E0205"@);
        assert("E0302"@ != "E0206"@);
        assert("E0302"@ != "E0207"@);
        assert("E0302"@ != "E0301"@);
        assert(lookup_spec(all_codes()[13].code@) == Some(all_codes()[13]));
    }
    {
        assert("E0303"@ != "E0101"@);
        assert("E0303"@ != "E0102"@);
        assert("E0303"@ != "E0103"@);
        assert("E0303"@ != "E0104"@);
        assert("E0303"@ != "E0105"@);
        assert("E0303"@ != "E0201"@);
        assert("E0303"@ != "E0202"@);
        assert("E0303"@ != "E0203"@);
        assert("E0303"@ != "E0204"@);
        assert("E0303"@ != "E0205"@);
        assert("E0303"@ != "E0206"@);
        assert("E0303"@ != "E0207"@);
        assert("E0303"@ != "E0301"@);
        assert("E0303"@ != "E0302"@);
        assert(lookup_spec(all_codes()[14].code@) == Some(all_codes()[14]));
    }
    {
        assert("E0304"@ != "E0101"@);
        assert("E0304"@ != "E0102"@);
        assert("E0304"@ != "E0103"@);
        assert("E0304"@ != "E0104"@);
        assert("E0304"@ != "E0105"@);
        assert("E0304"@ != "E0201"@);
        assert("E0304"@ != "E0202"@);
        assert("E0304"@ != "E0203"@);
        assert("E0304"@ != "E0204"@);
        assert("E0304"@ != "E0205"@);
        assert("E0304"@ != "E0206"@);
        assert("E0304"@ != "E0207"@);
        assert("E0304"@ != "E0301"@);
        assert("E0304"@ != "E0302"@);
        assert("E0304"@ != "E0303"@);
        assert(lookup_spec(all_codes()[15].code@) == Some(all_codes()[15]));
    }
    {
        assert("E0305"@ != "E0101"@);
        assert("E0305"@ != "E0102"@);
        assert("E0305"@ != "E0103"@);
        assert("E0305"@ != "E0104"@);
        assert("E0305"@ != "E0105"@);
        assert("E0305"@ != "E0201"@);
        assert("E0305"@ != "E0202"@);
        assert("E0305"@ != "E0203"@);
        assert("E0305"@ != "E0204"@);
        assert("E0305"@ != "E0205"@);
        assert("E0305"@ != "E0206"@);
        assert("E0305"@ != "E0207"@);
        assert("E0305"@ != "E0301"@);
        assert("E0305"@ != "E0302"@);
        assert("E0305"@ != "E0303"@);
        assert("E0305"@ != "E0304"@);
        assert(lookup_spec(all_codes()[16].code@) == Some(all_codes()[16]));
    }
    {
        assert("E0306"@ != "E0101"@);
        assert("E0306"@ != "E0102"@);
        assert("E0306"@ != "E0103"@);
        assert("E0306"@ != "E0104"@);
        assert("E0306"@ != "E0105"@);
        assert("E0306"@ != "E0201"@);
        assert("E0306"@ != "E0202"@);
        assert("E0306"@ != "E0203"@);
        assert("E0306"@ != "E0204"@);
        assert("E0306"@ != "E0205"@);
        assert("E0306"@ != "E0206"@);
        assert("E0306"@ != "E0207"@);
        assert("E0306"@ != "E0301"@);
        assert("E0306"@ != "E0302"@);
        assert("E0306"@ != "E0303"@);
        assert("E0306"@ != "E0304"@);
        assert("E0306"@ != "E0305"@);
        assert(lookup_spec(all_codes()[17].code@) == Some(all_codes()[17]));
    }
    {
        assert("E0401"@ != "E0101"@);
        assert("E0401"@ != "E0102"@);
        assert("E0401"@ != "E0103"@);
        assert("E0401"@ != "E0104"@);
        assert("E0401"@ != "E0105"@);
        assert("E0401"@ != "E0201"@);
        assert("E0401"@ != "E0202"@);
        assert("E0401"@ != "E0203"@);
        assert("E0401"@ != "E0204"@);
        assert("E0401"@ != "E0205"@);
        assert("E0401"@ != "E0206"@);
        assert("E0401"@ != "E0207"@);
        assert("E0401"@ != "E0301"@);
        assert("E0401"@ != "E0302"@);
        assert("E0401"@ != "E0303"@);
        assert("E0401"@ != "E0304"@);
        assert("E0401"@ != "E0305"@);
        assert("E0401"@ != "E0306"@);
        assert(lookup_spec(all_codes()[18].code@) == Some(all_codes()[18]));
    }
    {
        assert("E0402"@ != "E0101"@);
        assert("E0402"@ != "E0102"@);
        assert("E0402"@ != "E0103"@);
        assert("E0402"@ != "E0104"@);
        assert("E0402"@ != "E0105"@);
        assert("E0402"@ != "E0201"@);
        assert("E0402"@ != "E0202"@);
        assert("E0402"@ != "E0203"@);
        assert("E0402"@ != "E0204"@);
        assert("E0402"@ != "E0205"@);
        assert("E0402"@ != "E0206"@);
        assert("E0402"@ != "E0207"@);
        assert("E0402"@ != "E0301"@);
        assert("E0402"@ != "E0302"@);
        assert("E0402"@ != "E0303"@);
        assert("E0402"@ != "E0304"@);
        assert("E0402"@ != "E0305"@);
        assert("E0402"@ != "E0306"@);
        assert("E0402"@ != "E0401"@);
        assert(lookup_spec(all_codes()[19].code@) == Some(all_codes()[19]));
    }
    {
        assert("E0403"@ != "E0101"@);
        assert("E0403"@ != "E0102"@);
        assert("E0403"@ != "E0103"@);
        assert("E0403"@ != "E0104"@);
        assert("E0403"@ != "E0105"@);
        assert("E0403"@ != "E0201"@);
        assert("E0403"@ != "E0202"@);
        assert("E0403"@ != "E0203"@);
        assert("E0403"@ != "E0204"@);
        assert("E0403"@ != "E0205"@);
        assert("E0403"@ != "E0206"@);
        assert("E0403"@ != "E0207"@);
        assert("E0403"@ != "E0301"@);
        assert("E0403"@ != "E0302"@);
        assert("E0403"@ != "E0303"@);
        assert("E0403"@ != "E0304"@);
        assert("E0403"@ != "E0305"@);
        assert("E0403"@ != "E0306"@);
        assert("E0403"@ != "E0401"@);
        assert("E0403"@ != "E0402"@);
        assert(lookup_spec(all_codes()[20].code@) == Some(all_codes()[20]));
    }
    {
        assert("E0404"@ != "E0101"@);
        assert("E0404"@ != "E0102"@);
        assert("E0404"@ != "E0103"@);
        assert("E0404"@ != "E0104"@);
        assert("E0404"@ != "E0105"@);
        assert("E0404"@ != "E0201"@);
        assert("E0404"@ != "E0202"@);
        assert("E0404"@ != "E0203"@);
        assert("E0404"@ != "E0204"@);
        assert("E0404"@ != "E0205"@);
        assert("E0404"@ != "E0206"@);
        assert("E0404"@ != "E0207"@);
        assert("E0404"@ != "E0301"@);
        assert("E0404"@ != "E0302"@);
        assert("E0404"@ != "E0303"@);
        assert("E0404"@ != "E0304"@);
        assert("E0404"@ != "E0305"@);
        assert("E0404"@ != "E0306"@);
        assert("E0404"@ != "E0401"@);
        assert("E0404"@ != "E0402"@);
        assert("E0404"@ != "E0403"@);
        assert(lookup_spec(all_codes()[21].code@) == Some(all_codes()[21]));
    }
    {
        assert("E0405"@ != "E0101"@);
        assert("E0405"@ != "E0102"@);
        assert("E0405"@ != "E0103"@);
        assert("E0405"@ != "E0104"@);
        assert("E0405"@ != "E0105"@);
        assert("E0405"@ != "E0201"@);
        assert("E0405"@ != "E0202"@);
        assert("E0405"@ != "E0203"@);
        assert("E0405"@ != "E0204"@);
        assert("E0405"@ != "E0205"@);
        assert("E0405"@ != "E0206"@);
        assert("E0405"@ != "E0207"@);
        assert("E0405"@ != "E0301"@);
        assert("E0405"@ != "E0302"@);
        assert("E0405"@ != "E0303"@);
        assert("E0405"@ != "E0304"@);
        assert("E0405"@ != "E0305"@);
        assert("E0405"@ != "E0306"@);
        assert("E0405"@ != "E0401"@);
        assert("E0405"@ != "E0402"@);
        assert("E0405"@ != "E0403"@);
        assert("E0405"@ != "E0404"@);
        assert(lookup_spec(all_codes()[22].code@) == Some(all_codes()[22]));
    }
    {
        assert("E0406"@ != "E0101"@);
        assert("E0406"@ != "E0102"@);
        assert("E0406"@ != "E0103"@);
        assert("E0406"@ != "E0104"@);
        assert("E0406"@ != "E0105"@);
        assert("E0406"@ != "E0201"@);
        assert("E0406"@ != "E0202"@);
        assert("E0406"@ != "E0203"@);
        assert("E0406"@ != "E0204"@);
        assert("E0406"@ != "E0205"@);
        assert("E0406"@ != "E0206"@);
        assert("E0406"@ != "E0207"@);
        assert("E0406"@ != "E0301"@);
        assert("E0406"@ != "E0302"@);
        assert("E0406"@ != "E0303"@);
        assert("E0406"@ != "E0304"@);
        assert("E0406"@ != "E0305"@);
        assert("E0406"@ != "E0306"@);
        assert("E0406"@ != "E0401"@);
        assert("E0406"@ != "E0402"@);
        assert("E0406"@ != "E0403"@);
        assert("E0406"@ != "E0404"@);
        assert("E0406"@ != "E0405"@);
        assert(lookup_spec(all_codes()[23].code@) == Some(all_codes()[23]));
    }
    {
        assert("E0407"@ != "E0101"@);
        assert("E0407"@ != "E0102"@);
        assert("E0407"@ != "E0103"@);
        assert("E0407"@ != "E0104"@);
        assert("E0407"@ != "E0105"@);
        assert("E0407"@ != "E0201"@);
        assert("E0407"@ != "E0202"@);
        assert("E0407"@ != "E0203"@);
        assert("E0407"@ != "E0204"@);
        assert("E0407"@ != "E0205"@);
        assert("E0407"@ != "E0206"@);
        assert("E0407"@ != "E0207"@);
        assert("E0407"@ != "E0301"@);
        assert("E0407"@ != "E0302"@);
        assert("E0407"@ != "E0303"@);
        assert("E0407"@ != "E0304"@);
        assert("E0407"@ != "E0305"@);
        assert("E0407"@ != "E0306"@);
        assert("E0407"@ != "E0401"@);
        assert("E0407"@ != "E0402"@);
        assert("E0407"@ != "E0403"@);
        assert("E0407"@ != "E0404"@);
        assert("E0407"@ != "E0405"@);
        assert("E0407"@ != "E0406"@);
        assert(lookup_spec(all_codes()[24].code@) == Some(all_codes()[24]));
    }
    {
        assert("E0408"@ != "E0101"@);
        assert("E0408"@ != "E0102"@);
        assert("E0408"@ != "E0103"@);
        assert("E0408"@ != "E0104"@);
        assert("E0408"@ != "E0105"@);
        assert("E0408"@ != "E0201"@);
        assert("E0408"@ != "E0202"@);
        assert("E0408"@ != "E0203"@);
        assert("E0408"@ != "E0204"@);
        assert("E0408"@ != "E0205"@);
        assert("E0408"@ != "E0206"@);
        assert("E0408"@ != "E0207"@);
        assert("E0408"@ != "E0301"@);
        assert("E0408"@ != "E0302"@);
        assert("E0408"@ != "E0303"@);
        assert("E0408"@ != "E0304"@);
        assert("E0408"@ != "E0305"@);
        assert("E0408"@ != "E0306"@);
        assert("E0408"@ != "E0401"@);
        assert("E0408"@ != "E0402"@);
        assert("E0408"@ != "E0403"@);
        assert("E0408"@ != "E0404"@);
        assert("E0408"@ != "E0405"@);
        assert("E0408"@ != "E0406"@);
        assert("E0408"@ != "E0407"@);
        assert(lookup_spec(all_codes()[25].code@) == Some(all_codes()[25]));
    }
    {
        assert("E0501"@ != "E0101"@);
        assert("E0501"@ != "E0102"@);
        assert("E0501"@ != "E0103"@);
        assert("E0501"@ != "E0104"@);
        assert("E0501"@ != "E0105"@);
        assert("E0501"@ != "E0201"@);
        assert("E0501"@ != "E0202"@);
        assert("E0501"@ != "E0203"@);
        assert("E0501"@ != "E0204"@);
        assert("E0501"@ != "E0205"@);
        assert("E0501"@ != "E0206"@);
        assert("E0501"@ != "E0207"@);
        assert("E0501"@ != "E0301"@);
        assert("E0501"@ != "E0302"@);
        assert("E0501"@ != "E0303"@);
        assert("E0501"@ != "E0304"@);
        assert("E0501"@ != "E0305"@);
        assert("E0501"@ != "E0306"@);
        assert("E0501"@ != "E0401"@);
        assert("E0501"@ != "E0402"@);
        assert("E0501"@ != "E0403"@);
        assert("E0501"@ != "E0404"@);
        assert("E0501"@ != "E0405"@);
        assert("E0501"@ != "E0406"@);
        assert("E0501"@ != "E0407"@);
        assert("E0501"@ != "E0408"@);
        assert(lookup_spec(all_codes()[26].code@) == Some(all_codes()[26]));
    }
    {
        assert("E0502"@ != "E0101"@);
        assert("E0502"@ != "E0102"@);
        assert("E0502"@ != "E0103"@);
        assert("E0502"@ != "E0104"@);
        assert("E0502"@ != "E0105"@);
        assert("E0502"@ != "E0201"@);
        assert("E0502"@ != "E0202"@);
        assert("E0502"@ != "E0203"@);
        assert("E0502"@ != "E0204"@);
        assert("E0502"@ != "E0205"@);
        assert("E0502"@ != "E0206"@);
        assert("E0502"@ != "E0207"@);
        assert("E0502"@ != "E0301"@);
        assert("E0502"@ != "E0302"@);
        assert("E0502"@ != "E0303"@);
        assert("E0502"@ != "E0304"@);
        assert("E0502"@ != "E0305"@);
        assert("E0502"@ != "E0306"@);
        assert("E0502"@ != "E0401"@);
        assert("E0502"@ != "E0402"@);
        assert("E0502"@ != "E0403"@);
        assert("E0502"@ != "E0404"@);
        assert("E0502"@ != "E0405"@);
        assert("E0502"@ != "E0406"@);
        assert("E0502"@ != "E0407"@);
        assert("E0502"@ != "E0408"@);
        assert("E0502"@ != "E0501"@);
        assert(lookup_spec(all_codes()[27].code@) == Some(all_codes()[27]));
    }
    {
        assert("E0503"@ != "E0101"@);
        assert("E0503"@ != "E0102"@);
        assert("E0503"@ != "E0103"@);
        assert("E0503"@ != "E0104"@);
        assert("E0503"@ != "E0105"@);
        assert("E0503"@ != "E0201"@);
        assert("E0503"@ != "E0202"@);
        assert("E0503"@ != "E0203"@);
        assert("E0503"@ != "E0204"@);
        assert("E0503"@ != "E0205"@);
        assert("E0503"@ != "E0206"@);
        assert("E0503"@ != "E0207"@);
        assert("E0503"@ != "E0301"@);
        assert("E0503"@ != "E0302"@);
        assert("E0503"@ != "E0303"@);
        assert("E0503"@ != "E0304"@);
        assert("E0503"@ != "E0305"@);
        assert("E0503"@ != "E0306"@);
        assert("E0503"@ != "E0401"@);
        assert("E0503"@ != "E0402"@);
        assert("E0503"@ != "E0403"@);
        assert("E0503"@ != "E0404"@);
        assert("E0503"@ != "E0405"@);
        assert("E0503"@ != "E0406"@);
        assert("E0503"@ != "E0407"@);
        assert("E0503"@ != "E0408"@);
        assert("E0503"@ != "E0501"@);
        assert("E0503"@ != "E0502"@);
        assert(lookup_spec(all_codes()[28].code@) == Some(all_codes()[28]));
    }
    {
        assert("E0504"@ != "E0101"@);
        assert("E0504"@ != "E0102"@);
        assert("E0504"@ != "E0103"@);
        assert("E0504"@ != "E0104"@);
        assert("E0504"@ != "E0105"@);
        assert("E0504"@ != "E0201"@);
        assert("E0504"@ != "E0202"@);
        assert("E0504"@ != "E0203"@);
        assert("E0504"@ != "E0204"@);
        assert("E0504"@ != "E0205"@);
        assert("E0504"@ != "E0206"@);
        assert("E0504"@ != "E0207"@);
        assert("E0504"@ != "E0301"@);
        assert("E0504"@ != "E0302"@);
        assert("E0504"@ != "E0303"@);
        assert("E0504"@ != "E0304"@);
        assert("E0504"@ != "E0305"@);
        assert("E0504"@ != "E0306"@);
        assert("E0504"@ != "E0401"@);
        assert("E0504"@ != "E0402"@);
        assert("E0504"@ != "E0403"@);
        assert("E0504"@ != "E0404"@);
        assert("E0504"@ != "E0405"@);
        assert("E0504"@ != "E0406"@);
        assert("E0504"@ != "E0407"@);
        assert("E0504"@ != "E0408"@);
        assert("E0504"@ != "E0501"@);
        assert("E0504"@ != "E0502"@);
        assert("E0504"@ != "E0503"@);
        assert(lookup_spec(all_codes()[29].code@) == Some(all_codes()[29]));
    }
    {
        assert("E0601"@ != "E0101"@);
        assert("E0601"@ != "E0102"@);
        assert("E0601"@ != "E0103"@);
        assert("E0601"@ != "E0104"@);
        assert("E0601"@ != "E0105"@);
        assert("E0601"@ != "E0201"@);
        assert("E0601"@ != "E0202"@);
        assert("E0601"@ != "E0203"@);
        assert("E0601"@ != "E0204"@);
        assert("E0601"@ != "E0205"@);
        assert("E0601"@ != "E0206"@);
        assert("E0601"@ != "E0207"@);
        assert("E0601"@ != "E0301"@);
        assert("E0601"@ != "E0302"@);
        assert("E0601"@ != "E0303"@);
        assert("E0601"@ != "E0304"@);
        assert("E0601"@ != "E0305"@);
        assert("E0601"@ != "E0306"@);
        assert("E0601"@ != "E0401"@);
        assert("E0601"@ != "E0402"@);
        assert("E0601"@ != "E0403"@);
        assert("E0601"@ != "E0404"@);
        assert("E0601"@ != "E0405"@);
        assert("E0601"@ != "E0406"@);
        assert("E0601"@ != "E0407"@);
        assert("E0601"@ != "E0408"@);
        assert("E0601"@ != "E0501"@);
        assert("E0601"@ != "E0502"@);
        assert("E0601"@ != "E0503"@);
        assert("E0601"@ != "E0504"@);
        assert(lookup_spec(all_codes()[30].code@) == Some(all_codes()[30]));
    }
    {
        assert("E0602"@ != "E0101"@);
        assert("E0602"@ != "E0102"@);
        assert("E0602"@ != "E0103"@);
        assert("E0602"@ != "E0104"@);
        assert("E0602"@ != "E0105"@);
        assert("E0602"@ != "E0201"@);
        assert("E0602"@ != "E0202"@);
        assert("E0602"@ != "E0203"@);
        assert("E0602"@ != "E0204"@);
        assert("E0602"@ != "E0205"@);
        assert("E0602"@ != "E0206"@);
        assert("E0602"@ != "E0207"@);
        assert("E0602"@ != "E0301"@);
        assert("E0602"@ != "E0302"@);
        assert("E0602"@ != "E0303"@);
        assert("E0602"@ != "E0304"@);
        assert("E0602"@ != "E0305"@);
        assert("E0602"@ != "E0306"@);
        assert("E0602"@ != "E0401"@);
        assert("E0602"@ != "E0402"@);
        assert("E0602"@ != "E0403"@);
        assert("E0602"@ != "E0404"@);
        assert("E0602"@ != "E0405"@);
        assert("E0602"@ != "E0406"@);
        assert("E0602"@ != "E0407"@);
        assert("E0602"@ != "E0408"@);
        assert("E0602"@ != "E0501"@);
        assert("E0602"@ != "E0502"@);
        assert("E0602"@ != "E0503"@);
        assert("E0602"@ != "E0504"@);
        assert("E0602"@ != "E0601"@);
        assert(lookup_spec(all_codes()[31].code@) == Some(all_codes()[31]));
    }
    {
        assert("E0603"@ != "E0101"@);
        assert("E0603"@ != "E0102"@);
        assert("E0603"@ != "E0103"@);
        assert("E0603"@ != "E0104"@);
        assert("E0603"@ != "E0105"@);
        assert("E0603"@ != "E0201"@);
        assert("E0603"@ != "E0202"@);
        assert("E0603"@ != "E0203"@);
        assert("E0603"@ != "E0204"@);
        assert("E0603"@ != "E0205"@);
        assert("E0603"@ != "E0206"@);
        assert("E0603"@ != "E0207"@);
        assert("E0603"@ != "E0301"@);
        assert("E0603"@ != "E0302"@);
        assert("E0603"@ != "E0303"@);
        assert("E0603"@ != "E0304"@);
        assert("E0603"@ != "E0305"@);
        assert("E0603"@ != "E0306"@);
        assert("E0603"@ != "E0401"@);
        assert("E0603"@ != "E0402"@);
        assert("E0603"@ != "E0403"@);
        assert("E0603"@ != "E0404"@);
        assert("E0603"@ != "E0405"@);
        assert("E0603"@ != "E0406"@);
        assert("E0603"@ != "E0407"@);
        assert("E0603"@ != "E0408"@);
        assert("E0603"@ != "E0501"@);
        assert("E0603"@ != "E0502"@);
        assert("E0603"@ != "E0503"@);
        assert("E0603"@ != "E0504"@);
        assert("E0603"@ != "E0601"@);
        assert("E0603"@ != "E0602"@);
        assert(lookup_spec(all_codes()[32].code@) == Some(all_codes()[32]));
    }
    {
        assert("E0604"@ != "E0101"@);
        assert("E0604"@ != "E0102"@);
        assert("E0604"@ != "E0103"@);
        assert("E0604"@ != "E0104"@);
        assert("E0604"@ != "E0105"@);
        assert("E0604"@ != "E0201"@);
        assert("E0604"@ != "E0202"@);
        assert("E0604"@ != "E0203"@);
        assert("E0604"@ != "E0204"@);
        assert("E0604"@ != "E0205"@);
        assert("E0604"@ != "E0206"@);
        assert("E0604"@ != "E0207"@);
        assert("E0604"@ != "E0301"@);
        assert("E0604"@ != "E0302"@);
        assert("E0604"@ != "E0303"@);
        assert("E0604"@ != "E0304"@);
        assert("E0604"@ != "E0305"@);
        assert("E0604"@ != "E0306"@);
        assert("E0604"@ != "E0401"@);
        assert("E0604"@ != "E0402"@);
        assert("E0604"@ != "E0403"@);
        assert("E0604"@ != "E0404"@);
        assert("E0604"@ != "E0405"@);
        assert("E0604"@ != "E0406"@);
        assert("E0604"@ != "E0407"@);
        assert("E0604"@ != "E0408"@);
        assert("E0604"@ != "E0501"@);
        assert("E0604"@ != "E0502"@);
        assert("E0604"@ != "E0503"@);
        assert("E0604"@ != "E0504"@);
        assert("E0604"@ != "E0601"@);
        assert("E0604"@ != "E0602"@);
        assert("E0604"@ != "E0603"@);
        assert(lookup_spec(all_codes()[33].code@) == Some(all_codes()[33]));
    }
    {
        assert("E0701"@ != "E0101"@);
        assert("E0701"@ != "E0102"@);
        assert("E0701"@ != "E0103"@);
        assert("E0701"@ != "E0104"@);
        assert("E0701"@ != "E0105"@);
        assert("E0701"@ != "E0201"@);
        assert("E0701"@ != "E0202"@);
        assert("E0701"@ != "E0203"@);
        assert("E0701"@ != "E0204"@);
        assert("E0701"@ != "E0205"@);
        assert("E0701"@ != "E0206"@);
        assert("E0701"@ != "E0207"@);
        assert("E0701"@ != "E0301"@);
        assert("E0701"@ != "E0302"@);
        assert("E0701"@ != "E0303"@);
        assert("E0701"@ != "E0304"@);
        assert("E0701"@ != "E0305"@);
        assert("E0701"@ != "E0306"@);
        assert("E0701"@ != "E0401"@);
        assert("E0701"@ != "E0402"@);
        assert("E0701"@ != "E0403"@);
        assert("E0701"@ != "E0404"@);
        assert("E0701"@ != "E0405"@);
        assert("E0701"@ != "E0406"@);
        assert("E0701"@ != "E0407"@);
        assert("E0701"@ != "E0408"@);
        assert("E0701"@ != "E0501"@);
        assert("E0701"@ != "E0502"@);
        assert("E0701"@ != "E0503"@);
        assert("E0701"@ != "E0504"@);
        assert("E0701"@ != "E0601"@);
        assert("E0701"@ != "E0602"@);
        assert("E0701"@ != "E0603"@);
        assert("E0701"@ != "E0604"@);
        assert(lookup_spec(all_codes()[34].code@) == Some(all_codes()[34]));
    }
    {
        assert("E0702"@ != "E0101"@);
        assert("E0702"@ != "E0102"@);
        assert("E0702"@ != "E0103"@);
        assert("E0702"@ != "E0104"@);
        assert("E0702"@ != "E0105"@);
        assert("E0702"@ != "E0201"@);
        assert("E0702"@ != "E0202"@);
        assert("E0702"@ != "E0203"@);
        assert("E0702"@ != "E0204"@);
        assert("E0702"@ != "E0205"@);
        assert("E0702"@ != "E0206"@);
        assert("E0702"@ != "E0207"@);
        assert("E0702"@ != "E0301"@);
        assert("E0702"@ != "E0302"@);
        assert("E0702"@ != "E0303"@);
        assert("E0702"@ != "E0304"@);
        assert("E0702"@ != "E0305"@);
        assert("E0702"@ != "E0306"@);
        assert("E0702"@ != "E0401"@);
        assert("E0702"@ != "E0402"@);
        assert("E0702"@ != "E0403"@);
        assert("E0702"@ != "E0404"@);
        assert("E0702"@ != "E0405"@);
        assert("E0702"@ != "E0406"@);
        assert("E0702"@ != "E0407"@);
        assert("E0702"@ != "E0408"@);
        assert("E0702"@ != "E0501"@);
        assert("E0702"@ != "E0502"@);
        assert("E0702"@ != "E0503"@);
        assert("E0702"@ != "E0504"@);
        assert("E0702"@ != "E0601"@);
        assert("E0702"@ != "E0602"@);
        assert("E0702"@ != "E0603"@);
        assert("E0702"@ != "E0604"@);
        assert("E0702"@ != "E0701"@);
        assert(lookup_spec(all_codes()[35].code@) == Some(all_codes()[35]));
    }
    {
        assert("E0703"@ != "E0101"@);
        assert("E0703"@ != "E0102"@);
        assert("E0703"@ != "E0103"@);
        assert("E0703"@ != "E0104"@);
        assert("E0703"@ != "E0105"@);
        assert("E0703"@ != "E0201"@);
        assert("E0703"@ != "E0202"@);
        assert("E0703"@ != "E0203"@);
        assert("E0703"@ != "E0204"@);
        assert("E0703"@ != "E0205"@);
        assert("E0703"@ != "E0206"@);
        assert("E0703"@ != "E0207"@);
        assert("E0703"@ != "E0301"@);
        assert("E0703"@ != "E0302"@);
        assert("E0703"@ != "E0303"@);
        assert("E0703"@ != "E0304"@);
        assert("E0703"@ != "E0305"@);
        assert("E0703"@ != "E0306"@);
        assert("E0703"@ != "E0401"@);
        assert("E0703"@ != "E0402"@);
        assert("E0703"@ != "E0403"@);
        assert("E0703"@ != "E0404"@);
        assert("E0703"@ != "E0405"@);
        assert("E0703"@ != "E0406"@);
        assert("E0703"@ != "E0407"@);
        assert("E0703"@ != "E0408"@);
        assert("E0703"@ != "E0501"@);
        assert("E0703"@ != "E0502"@);
        assert("E0703"@ != "E0503"@);
        assert("E0703"@ != "E0504"@);
        assert("E0703"@ != "E0601"@);
        assert("E0703"@ != "E0602"@);
        assert("E0703"@ != "E0603"@);
        assert("E0703"@ != "E0604"@);
        assert("E0703"@ != "E0701"@);
        assert("E0703"@ != "E0702"@);
        assert(lookup_spec(all_codes()[36].code@) == Some(all_codes()[36]));
    }
    {
        assert("E0704"@ != "E0101"@);
        assert("E0704"@ != "E0102"@);
        assert("E0704"@ != "E0103"@);
        assert("E0704"@ != "E0104"@);
        assert("E0704"@ != "E0105"@);
        assert("E0704"@ != "E0201"@);
        assert("E0704"@ != "E0202"@);
        assert("E0704"@ != "E0203"@);
        assert("E0704"@ != "E0204"@);
        assert("E0704"@ != "E0205"@);
        assert("E0704"@ != "E0206"@);
        assert("E0704"@ != "E0207"@);
        assert("E0704"@ != "E0301"@);
        assert("E0704"@ != "E0302"@);
        assert("E0704"@ != "E0303"@);
        assert("E0704"@ != "E0304"@);
        assert("E0704"@ != "E0305"@);
        assert("E0704"@ != "E0306"@);
        assert("E0704"@ != "E0401"@);
        assert("E0704"@ != "E0402"@);
        assert("E0704"@ != "E0403"@);
        assert("E0704"@ != "E0404"@);
        assert("E0704"@ != "E0405"@);
        assert("E0704"@ != "E0406"@);
        assert("E0704"@ != "E0407"@);
        assert("E0704"@ != "E0408"@);
        assert("E0704"@ != "E0501"@);
        assert("E0704"@ != "E0502"@);
        assert("E0704"@ != "E0503"@);
        assert("E0704"@ != "E0504"@);
        assert("E0704"@ != "E0601"@);
        assert("E0704"@ != "E0602"@);
        assert("E0704"@ != "E0603"@);
        assert("E0704"@ != "E0604"@);
        assert("E0704"@ != "E0701"@);
        assert("E0704"@ != "E0702"@);
        assert("E0704"@ != "E0703"@);
        assert(lookup_spec(all_codes()[37].code@) == Some(all_codes()[37]));
    }
    {
        assert("E0705"@ != "E0101"@);
        assert("E0705"@ != "E0102"@);
        assert("E0705"@ != "E0103"@);
        assert("E0705"@ != "E0104"@);
        assert("E0705"@ != "E0105"@);
        assert("E0705"@ != "E0201"@);
        assert("E0705"@ != "E0202"@);
        assert("E0705"@ != "E0203"@);
        assert("E0705"@ != "E0204"@);
        assert("E0705"@ != "E0205"@);
        assert("E0705"@ != "E0206"@);
        assert("E0705"@ != "E0207"@);
        assert("E0705"@ != "E0301"@);
        assert("E0705"@ != "E0302"@);
        assert("E0705"@ != "E0303"@);
        assert("E0705"@ != "E0304"@);
        assert("E0705"@ != "E0305"@);
        assert("E0705"@ != "E0306"@);
        assert("E0705"@ != "E0401"@);
        assert("E0705"@ != "E0402"@);
        assert("E0705"@ != "E0403"@);
        assert("E0705"@ != "E0404"@);
        assert("E0705"@ != "E0405"@);
        assert("E0705"@ != "E0406"@);
        assert("E0705"@ != "E0407"@);
        assert("E0705"@ != "E0408"@);
        assert("E0705"@ != "E0501"@);
        assert("E0705"@ != "E0502"@);
        assert("E0705"@ != "E0503"@);
        assert("E0705"@ != "E0504"@);
        assert("E0705"@ != "E0601"@);
        assert("E0705"@ != "E0602"@);
        assert("E0705"@ != "E0603"@);
        assert("E0705"@ != "E0604"@);
        assert("E0705"@ != "E0701"@);
        assert("E0705"@ != "E0702"@);
        assert("E0705"@ != "E0703"@);
        assert("E0705"@ != "E0704"@);
        assert(lookup_spec(all_codes()[38].code@) == Some(all_codes()[38]));
    }
}

/// Every code is five characters long and starts with its category's prefix.
pub proof fn law_code_prefix(category: Category)
    ensures
        forall|i: int| 0 <= i < by_category_spec(category).len() ==> {
            &&& (#[trigger] by_category_spec(category)[i]).code@.len() == 5
            &&& by_category_spec(category)[i].code@.subrange(0, 3) == category.code_prefix_spec()
        },
{
    lemma_code_texts();
    let pred = of_category(category);
    all_codes().filter_lemma(pred);
    assert forall|i: int| 0 <= i < by_category_spec(category).len() implies {
        &&& (#[trigger] by_category_spec(category)[i]).code@.len() == 5
        &&& by_category_spec(category)[i].code@.subrange(0, 3) == category.code_prefix_spec()
    } by {
        let e = by_category_spec(category)[i];
        assert(by_category_spec(category).contains(e));
        all_codes().lemma_filter_contains_rev(pred, e);
        assert(all_codes().contains(e));
        let k = choose|k: int| 0 <= k < all_codes().len() && all_codes()[k] == e;
        assert(all_codes()[k] == e);
    }
}

/// `lookup` and `by_category` know the same codes: a code found is the one
/// with that identifier and is listed under its category, and every code
/// listed under a category is found by its identifier.
pub proof fn law_lookup_by_category(code: Seq<char>, category: Category, e: ErrorCode)
    ensures
        lookup_spec(code) matches Some(f) ==> f.code@ == code && by_category_spec(f.category).contains(f),
        by_category_spec(category).contains(e) ==> lookup_spec(e.code@) == Some(e),
{
    lemma_code_texts();
    if let Some(f) = lookup_spec(code) {
        let pred = of_category(f.category);
        if f == all_codes()[0] {{ all_codes().lemma_filter_contains_rev(pred, f); assert(f.code@ == code); }}
        if f == all_codes()[1] {{ all_codes().lemma_filter_contains_rev(pred, f); assert(f.code@ == code); }}
        if f == all_codes()[2] {{ all_codes().lemma_filter_contains_rev(pred, f); assert(f.code@ == code); }}
        if f == all_codes()[3] {{ all_codes().lemma_filter_contains_rev(pred, f); assert(f.code@ == code); }}
        if f == all_codes()[4] {{ all_codes().lemma_filter_contains_rev(pred, f); assert(f.code@ == code); }}
        if f == all_codes()[5] {{ all_codes().lemma_filter_contains_rev(pred, f); assert(f.code@ == code); }}
        if f == all_codes()[6] {{ all_codes().lemma_filter_contains_rev(pred, f); assert(f.code@ == code); }}
        if f == all_codes()[7] {{ all_codes().lemma_filter_contains_rev(pred, f); assert(f.code@ == code); }}
        if f == all_codes()[8] {{ all_codes().lemma_filter_contains_rev(pred, f); assert(f.code@ == code); }}
        if f == all_codes()[9] {{ all_codes().lemma_filter_contains_rev(pred, f); assert(f.code@ == code); }}
        if f == all_codes()[10] {{ all_codes().lemma_filter_contains_rev(pred, f); assert(f.code@ == code); }}
        if f == all_codes()[11] {{ all_codes().lemma_filter_contains_rev(pred, f); assert(f.code@ == code); }}
        if f == all_codes()[12] {{ all_codes().lemma_filter_contains_rev(pred, f); assert(f.code@ == code); }}
        if f == all_codes()[13] {{ all_codes().lemma_filter_contains_rev(pred, f); assert(f.code@ == code); }}
        if f == all_codes()[14] {{ all_codes().lemma_filter_contains_rev(pred, f); assert(f.code@ == code); }}
        if f == all_codes()[15] {{ all_codes().lemma_filter_contains_rev(pred, f); assert(f.code@ == code); }}
        if f == all_codes()[16] {{ all_codes().lemma_filter_contains_rev(pred, f); assert(f.code@ == code); }}
        if f == all_codes()[17] {{ all_codes().lemma_filter_contains_rev(pred, f); assert(f.code@ == code); }}
        if f == all_codes()[18] {{ all_codes().lemma_filter_contains_rev(pred, f); assert(f.code@ == code); }}
        if f == all_codes()[19] {{ all_codes().lemma_filter_contains_rev(pred, f); assert(f.code@ == code); }}
        if f == all_codes()[20] {{ all_codes().lemma_filter_contains_rev(pred, f); assert(f.code@ == code); }}
        if f == all_codes()[21] {{ all_codes().lemma_filter_contains_rev(pred, f); assert(f.code@ == code); }}
        if f == all_codes()[22] {{ all_codes().lemma_filter_contains_rev(pred, f); assert(f.code@ == code); }}
        if f == all_codes()[23] {{ all_codes().lemma_filter_contains_rev(pred, f); assert(f.code@ == code); }}
        if f == all_codes()[24] {{ all_codes().lemma_filter_contains_rev(pred, f); assert(f.code@ == code); }}
        if f == all_codes()[25] {{ all_codes().lemma_filter_contains_rev(pred, f); assert(f.code@ == code); }}
        if f == all_codes()[26] {{ all_codes().lemma_filter_contains_rev(pred, f); assert(f.code@ == code); }}
        if f == all_codes()[27] {{ all_codes().lemma_filter_contains_rev(pred, f); assert(f.code@ == code); }}
        if f == all_codes()[28] {{ all_codes().lemma_filter_contains_rev(pred, f); assert(f.code@ == code); }}
        if f == all_codes()[29] {{ all_codes().lemma_filter_contains_rev(pred, f); assert(f.code@ == code); }}
        if f == all_codes()[30] {{ all_codes().lemma_filter_contains_rev(pred, f); assert(f.code@ == code); }}
        if f == all_codes()[31] {{ all_codes().lemma_filter_contains_rev(pred, f); assert(f.code@ == code); }}
        if f == all_codes()[32] {{ all_codes().lemma_filter_contains_rev(pred, f); assert(f.code@ == code); }}
        if f == all_codes()[33] {{ all_codes().lemma_filter_contains_rev(pred, f); assert(f.code@ == code); }}
        if f == all_codes()[34] {{ all_codes().lemma_filter_contains_rev(pred, f); assert(f.code@ == code); }}
        if f == all_codes()[35] {{ all_codes().lemma_filter_contains_rev(pred, f); assert(f.code@ == code); }}
        if f == all_codes()[36] {{ all_codes().lemma_filter_contains_rev(pred, f); assert(f.code@ == code); }}
        if f == all_codes()[37] {{ all_codes().lemma_filter_contains_rev(pred, f); assert(f.code@ == code); }}
        if f == all_codes()[38] {{ all_codes().lemma_filter_contains_rev(pred, f); assert(f.code@ == code); }}
        assert(exists|k: int| 0 <= k < all_codes().len() && all_codes()[k] == f);
    }
    let pred = of_category(category);
    all_codes().filter_lemma(pred);
    if by_category_spec(category).contains(e) {
        all_codes().lemma_filter_contains_rev(pred, e);
        let k = choose|k: int| 0 <= k < all_codes().len() && all_codes()[k] == e;
        assert(all_codes()[k] == e);
    }
}

} // verus!
