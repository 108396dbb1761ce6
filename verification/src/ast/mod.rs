//! Abstract Syntax Tree for Frel: the structure of a parsed source file, used
//! by semantic analysis, type checking and code generation. All AST types are
//! prefixed with "Fa" (Frel AST); the unprefixed names are aliases kept for the
//! parts of the compiler that use them.

use vstd::prelude::*;
use crate::source::Span;

pub mod dump;

verus! {

/// A Frel source file
#[derive(Debug)]
pub struct FaFile {
    pub module: String,
    pub imports: Vec<FaImport>,
    pub declarations: Vec<FaTopLevelDecl>,
}

/// Import statement
#[derive(Debug)]
pub struct FaImport {
    pub module: String,
    pub name: String,
}

/// Top-level declaration
#[derive(Debug)]
pub enum FaTopLevelDecl {
    Blueprint(FaBlueprint),
    Backend(FaBackend),
    Contract(FaContract),
    Scheme(FaScheme),
    Enum(FaEnum),
    Theme(FaTheme),
    Arena(FaArena),
}

/// Blueprint declaration
#[derive(Debug)]
pub struct FaBlueprint {
    pub name: String,
    pub params: Vec<FaParameter>,
    pub body: Vec<FaBlueprintStmt>,
}

/// Blueprint statement
#[derive(Debug)]
pub enum FaBlueprintStmt {
    With(String),
    LocalDecl(FaLocalDecl),
    FragmentCreation(FaFragmentCreation),
    Control(FaControlStmt),
    Instruction(FaInstruction),
    EventHandler(FaEventHandler),
    /// A standalone expression as content (e.g., "Hello" in text { "Hello" })
    ContentExpr(FaExpr),
}

/// Local declaration
#[derive(Debug)]
pub struct FaLocalDecl {
    pub name: String,
    pub type_expr: FaTypeExpr,
    pub init: FaExpr,
}

/// Fragment creation
#[derive(Debug)]
pub struct FaFragmentCreation {
    pub name: String,
    pub args: Vec<FaArg>,
    pub body: Option<FaFragmentBody>,
    pub postfix: Vec<FaPostfixItem>,
}

/// Postfix item (instruction or event handler)
#[derive(Debug)]
pub enum FaPostfixItem {
    Instruction(FaInstruction),
    EventHandler(FaEventHandler),
}

/// Fragment body
#[derive(Debug)]
pub enum FaFragmentBody {
    Default(Vec<FaBlueprintStmt>),
    Slots(Vec<FaSlotBinding>),
    /// Inline blueprint with parameters: { param -> body }
    InlineBlueprint {
        params: Vec<String>,
        body: Vec<FaBlueprintStmt>,
    },
}

/// Slot binding
#[derive(Debug)]
pub struct FaSlotBinding {
    pub slot_name: String,
    pub blueprint: FaBlueprintValue,
}

/// Blueprint value
#[derive(Debug)]
pub enum FaBlueprintValue {
    Inline {
        params: Vec<String>,
        body: Vec<FaBlueprintStmt>,
    },
    Reference(String),
}

/// Control statement
#[derive(Debug)]
pub enum FaControlStmt {
    When {
        condition: FaExpr,
        then_stmt: Box<FaBlueprintStmt>,
        else_stmt: Option<Box<FaBlueprintStmt>>,
    },
    Repeat {
        iterable: FaExpr,
        item_name: Option<String>,
        key_expr: Option<FaExpr>,
        body: Box<FaBlueprintStmt>,
    },
    Select {
        discriminant: Option<FaExpr>,
        branches: Vec<FaSelectBranch>,
        else_branch: Option<Box<FaBlueprintStmt>>,
    },
}

/// Select branch
#[derive(Debug)]
pub struct FaSelectBranch {
    pub condition: FaExpr,
    pub body: Box<FaBlueprintStmt>,
}

/// Instruction
#[derive(Debug)]
pub struct FaInstruction {
    pub name: String,
    pub params: Vec<(String, FaExpr)>,
    pub span: Span,
}

/// Instruction expression (used in blueprints): a plain instruction, a
/// conditional one, a ternary choice between two, or a reference to one
#[derive(Debug)]
#[allow(inconsistent_fields)]
pub enum FaInstructionExpr {
    /// `name { params }`
    Simple(FaInstruction),
    /// `when <condition> { inst } [else { inst }]`
    When {
        condition: FaExpr,
        then_instr: Box<FaInstructionExpr>,
        else_instr: Option<Box<FaInstructionExpr>>,
    },
    /// `<condition> ? <inst> else <inst>`
    Ternary {
        condition: FaExpr,
        then_instr: Box<FaInstructionExpr>,
        else_instr: Box<FaInstructionExpr>,
    },
    /// A field access or identifier naming an instruction (e.g. `theme.badge`)
    Reference(FaExpr),
}

/// Event handler
#[derive(Debug)]
pub struct FaEventHandler {
    pub event_name: String,
    pub param: Option<FaEventParam>,
    pub body: Vec<FaHandlerStmt>,
}

/// Event parameter
#[derive(Debug)]
pub struct FaEventParam {
    pub name: String,
    pub type_expr: Option<FaTypeExpr>,
}

/// Handler statement
#[derive(Debug)]
pub enum FaHandlerStmt {
    Assignment { name: String, value: FaExpr },
    CommandCall { name: String, args: Vec<FaExpr> },
}

/// Backend declaration
#[derive(Debug)]
pub struct FaBackend {
    pub name: String,
    pub params: Vec<FaParameter>,
    pub members: Vec<FaBackendMember>,
    pub span: Span,
}

/// Backend member
#[derive(Debug)]
pub enum FaBackendMember {
    Include(String),
    Field(FaField),
    Method(FaMethod),
    Command(FaCommand),
}

/// Field declaration
#[derive(Debug)]
pub struct FaField {
    pub name: String,
    pub type_expr: FaTypeExpr,
    pub init: Option<FaExpr>,
    pub span: Span,
}

/// Method declaration
#[derive(Debug)]
pub struct FaMethod {
    pub name: String,
    pub params: Vec<FaParameter>,
    pub return_type: FaTypeExpr,
    pub span: Span,
}

/// Command declaration
#[derive(Debug)]
pub struct FaCommand {
    pub name: String,
    pub params: Vec<FaParameter>,
    pub span: Span,
}

/// Contract declaration
#[derive(Debug)]
pub struct FaContract {
    pub name: String,
    pub methods: Vec<FaContractMethod>,
    pub span: Span,
}

/// Contract method
#[derive(Debug)]
pub struct FaContractMethod {
    pub name: String,
    pub params: Vec<FaParameter>,
    pub return_type: Option<FaTypeExpr>,
    pub span: Span,
}

/// Scheme declaration
#[derive(Debug)]
pub struct FaScheme {
    pub name: String,
    pub members: Vec<FaSchemeMember>,
}

/// Scheme member
#[derive(Debug)]
pub enum FaSchemeMember {
    Field(FaSchemeField),
    Virtual(FaVirtualField),
}

/// Scheme field
#[derive(Debug)]
pub struct FaSchemeField {
    pub name: String,
    pub type_expr: FaTypeExpr,
    pub instructions: Vec<FaFieldInstruction>,
}

/// Virtual field
#[derive(Debug)]
pub struct FaVirtualField {
    pub name: String,
    pub type_expr: FaTypeExpr,
    pub expr: FaExpr,
}

/// Field instruction
#[derive(Debug)]
pub struct FaFieldInstruction {
    pub name: String,
    pub value: Option<FaExpr>,
}

/// Enum declaration
#[derive(Debug)]
pub struct FaEnum {
    pub name: String,
    pub variants: Vec<String>,
    pub span: Span,
}

/// Theme declaration
#[derive(Debug)]
pub struct FaTheme {
    pub name: String,
    pub members: Vec<FaThemeMember>,
}

/// Theme member
#[derive(Debug)]
pub enum FaThemeMember {
    Include(String),
    Field(FaThemeField),
    InstructionSet(FaInstructionSet),
    Variant(FaThemeVariant),
}

/// Theme field
#[derive(Debug)]
pub struct FaThemeField {
    pub name: String,
    pub is_asset: bool,
    pub type_expr: FaTypeExpr,
    pub init: Option<FaExpr>,
}

/// Instruction set
#[derive(Debug)]
pub struct FaInstructionSet {
    pub name: String,
    pub instructions: Vec<FaInstruction>,
}

/// Theme variant
#[derive(Debug)]
pub struct FaThemeVariant {
    pub name: String,
    pub overrides: Vec<(String, FaExpr)>,
}

/// Arena declaration
#[derive(Debug)]
pub struct FaArena {
    pub name: String,
    pub scheme_name: String,
    pub contract: Option<String>,
}

/// Parameter
#[derive(Debug)]
pub struct FaParameter {
    pub name: String,
    pub type_expr: FaTypeExpr,
    pub default: Option<FaExpr>,
}

/// Argument
#[derive(Debug)]
pub struct FaArg {
    pub name: Option<String>,
    pub value: FaExpr,
}

/// Type expression
#[derive(Debug)]
pub enum FaTypeExpr {
    Named(String),
    Nullable(Box<FaTypeExpr>),
    Ref(Box<FaTypeExpr>),
    Draft(Box<FaTypeExpr>),
    Asset(Box<FaTypeExpr>),
    Blueprint(Vec<FaTypeExpr>),
    Accessor(Box<FaTypeExpr>),
    List(Box<FaTypeExpr>),
    SetOf(Box<FaTypeExpr>),
    MapOf(Box<FaTypeExpr>, Box<FaTypeExpr>),
    Tree(Box<FaTypeExpr>),
}

/// Expression
#[derive(Debug)]
#[allow(inconsistent_fields)]
pub enum FaExpr {
    // Literals
    Null,
    Bool(bool),
    Int(i64),
    /// A floating-point literal, kept as written in the source
    Float(String),
    Color(u32),
    String(String),
    StringTemplate(Vec<FaTemplateElement>),
    List(Vec<FaExpr>),
    Object(Vec<(String, FaExpr)>),

    // Identifiers
    Identifier(String),
    QualifiedName(Vec<String>),

    // Operators
    Binary {
        op: FaBinaryOp,
        left: Box<FaExpr>,
        right: Box<FaExpr>,
    },
    Unary {
        op: FaUnaryOp,
        expr: Box<FaExpr>,
    },
    Ternary {
        condition: Box<FaExpr>,
        then_expr: Box<FaExpr>,
        else_expr: Box<FaExpr>,
    },

    // Field access
    FieldAccess {
        base: Box<FaExpr>,
        field: String,
    },
    OptionalChain {
        base: Box<FaExpr>,
        field: String,
    },

    // Function call
    Call {
        callee: Box<FaExpr>,
        args: Vec<FaExpr>,
    },
}

/// Template element for string interpolation
#[derive(Debug)]
pub enum FaTemplateElement {
    Text(String),
    Interpolation(Box<FaExpr>),
}

/// Binary operators
#[derive(Debug, Clone, Copy, PartialEq, Eq, Structural)]
pub enum FaBinaryOp {
    // Arithmetic
    Add,
    Sub,
    Mul,
    Div,
    Mod,
    Pow,

    // Comparison
    Eq,
    Ne,
    Lt,
    Le,
    Gt,
    Ge,

    // Logical
    And,
    Or,

    // Null coalescing
    Elvis,
}

/// Unary operators
#[derive(Debug, Clone, Copy, PartialEq, Eq, Structural)]
pub enum FaUnaryOp {
    Not,
    Neg,
    Pos,
}

/// Horizontal alignment of a layout cell
#[derive(Debug, Clone, Copy, PartialEq, Eq, Structural)]
pub enum HAlign {
    Left,
    Center,
    Right,
}

impl Default for HAlign {
    fn default() -> (r: Self)
        ensures
            r == HAlign::Left,
    {
        HAlign::Left
    }
}

/// Vertical alignment of a layout cell
#[derive(Debug, Clone, Copy, PartialEq, Eq, Structural)]
pub enum VAlign {
    Top,
    Center,
    Bottom,
    Baseline,
}

impl Default for VAlign {
    fn default() -> (r: Self)
        ensures
            r == VAlign::Top,
    {
        VAlign::Top
    }
}

/// Direction in which a layout cell merges with its neighbour
#[derive(Debug, Clone, Copy, PartialEq, Eq, Structural)]
pub enum MergeDirection {
    Left,
    Right,
    Up,
    Down,
}

/// Size of a layout column or row
#[derive(Debug)]
pub enum LayoutSize {
    /// A fixed size in pixels
    Fixed(i32),
    /// A share of the remaining space, kept as written (a decimal number)
    Weight(String),
    /// As large as the content
    Content,
}

/// One cell of a layout grid
#[derive(Debug)]
pub struct LayoutCell {
    pub slot_name: Option<String>,
    pub h_align: HAlign,
    pub v_align: VAlign,
    pub merge: Option<MergeDirection>,
}

/// One row of a layout grid
#[derive(Debug)]
pub struct LayoutRow {
    pub size: Option<LayoutSize>,
    pub cells: Vec<LayoutCell>,
}

/// The content of a `"""layout ... """` block
#[derive(Debug)]
pub struct LayoutStmt {
    pub instructions: Vec<FaInstructionExpr>,
    pub column_sizes: Vec<LayoutSize>,
    pub rows: Vec<LayoutRow>,
}

pub type File = FaFile;
pub type TopLevelDecl = FaTopLevelDecl;
pub type Blueprint = FaBlueprint;
pub type BlueprintStmt = FaBlueprintStmt;
pub type Backend = FaBackend;
pub type BackendMember = FaBackendMember;
pub type Field = FaField;
pub type Method = FaMethod;
pub type Command = FaCommand;
pub type Contract = FaContract;
pub type ContractMethod = FaContractMethod;
pub type Scheme = FaScheme;
pub type SchemeMember = FaSchemeMember;
pub type SchemeField = FaSchemeField;
pub type VirtualField = FaVirtualField;
pub type FieldInstruction = FaFieldInstruction;
pub type Theme = FaTheme;
pub type ThemeMember = FaThemeMember;
pub type ThemeField = FaThemeField;
pub type InstructionSet = FaInstructionSet;
pub type ThemeVariant = FaThemeVariant;
pub type Instruction = FaInstruction;
pub type InstructionExpr = FaInstructionExpr;
pub type Parameter = FaParameter;
pub type Expr = FaExpr;
pub type TemplateElement = FaTemplateElement;
pub type Import = FaImport;
pub type EventParam = FaEventParam;
pub type Enum = FaEnum;
pub type Arena = FaArena;
pub type TypeExpr = FaTypeExpr;
pub type BinaryOp = FaBinaryOp;
pub type UnaryOp = FaUnaryOp;

} // verus!
