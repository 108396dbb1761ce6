//! DUMP format output for the Frel AST: a human-readable, indentation-based
//! rendering for debugging and review. Each node is one line (or a header
//! line followed by its children, one level deeper); types and expressions
//! are rendered inline.

use vstd::prelude::*;
use vstd::string::*;
use super::{
    FaArena, FaArg, FaBackend, FaBackendMember, FaBinaryOp, FaBlueprint, FaBlueprintStmt, FaBlueprintValue,
    FaCommand, FaContract, FaContractMethod, FaControlStmt, FaEnum, FaEventHandler, FaEventParam, FaExpr,
    FaField, FaFieldInstruction, FaFile, FaFragmentBody, FaFragmentCreation, FaHandlerStmt, FaImport,
    FaInstruction, FaInstructionExpr, FaInstructionSet, FaLocalDecl, FaMethod, FaParameter, FaPostfixItem,
    FaScheme, FaSchemeField, FaSchemeMember, FaSelectBranch, FaSlotBinding, FaTemplateElement, FaTheme,
    FaThemeField, FaThemeMember, FaThemeVariant, FaTopLevelDecl, FaTypeExpr, FaUnaryOp, FaVirtualField,
};
use crate::text::{decimal, push_char, push_decimal_u64, push_str, to_string};

verus! {

broadcast use vstd::seq::group_seq_axioms;

// =========================================================================
// Inline text of types
// =========================================================================

/// The inline text of a type expression.
pub open spec fn type_text(t: FaTypeExpr) -> Seq<char>
    decreases t,
{
    match t {
        FaTypeExpr::Named(name) => name@,
        FaTypeExpr::Nullable(inner) => type_text(*inner) + "?"@,
        FaTypeExpr::Ref(inner) => "ref "@ + type_text(*inner),
        FaTypeExpr::Draft(inner) => "draft "@ + type_text(*inner),
        FaTypeExpr::Asset(inner) => "asset "@ + type_text(*inner),
        FaTypeExpr::Blueprint(params) => if params@.len() == 0 {
            "Blueprint"@
        } else {
            "Blueprint<"@ + types_text(params@) + ">"@
        },
        FaTypeExpr::Accessor(inner) => "Accessor<"@ + type_text(*inner) + ">"@,
        FaTypeExpr::List(elem) => "List<"@ + type_text(*elem) + ">"@,
        FaTypeExpr::SetOf(elem) => "Set<"@ + type_text(*elem) + ">"@,
        FaTypeExpr::MapOf(key, value) => "Map<"@ + type_text(*key) + ", "@ + type_text(*value) + ">"@,
        FaTypeExpr::Tree(elem) => "Tree<"@ + type_text(*elem) + ">"@,
    }
}

/// The inline texts of types, joined with `", "`.
pub open spec fn types_text(ts: Seq<FaTypeExpr>) -> Seq<char>
    decreases ts,
{
    if ts.len() == 0 {
        seq![]
    } else if ts.len() == 1 {
        type_text(ts[0])
    } else {
        types_text(ts.drop_last()) + ", "@ + type_text(ts.last())
    }
}


// =========================================================================
// Inline text of expressions
// =========================================================================

/// The text of a signed integer.
pub open spec fn int_text(n: i64) -> Seq<char> {
    if n < 0 {
        "-"@ + decimal((-n) as nat)
    } else {
        decimal(n as nat)
    }
}

/// An upper-case hexadecimal digit.
pub open spec fn hex_digit(d: nat) -> char {
    if d < 10 {
        ((d + 48) as u8) as char
    } else {
        ((d + 55) as u8) as char
    }
}

/// The last `width` hexadecimal digits of `v`, most significant first.
pub open spec fn hex_text(v: nat, width: nat) -> Seq<char>
    decreases width,
{
    if width == 0 {
        seq![]
    } else {
        hex_text(v / 16, (width - 1) as nat).push(hex_digit(v % 16))
    }
}

/// A string as Rust's `Debug` prints it: in double quotes, with escapes.
pub uninterp spec fn debug_quoted(s: Seq<char>) -> Seq<char>;

/// The symbol of a binary operator.
pub open spec fn binary_op_text(op: FaBinaryOp) -> Seq<char> {
    match op {
        FaBinaryOp::Add => "+"@,
        FaBinaryOp::Sub => "-"@,
        FaBinaryOp::Mul => "*"@,
        FaBinaryOp::Div => "/"@,
        FaBinaryOp::Mod => "%"@,
        FaBinaryOp::Pow => "**"@,
        FaBinaryOp::Eq => "=="@,
        FaBinaryOp::Ne => "!="@,
        FaBinaryOp::Lt => "<"@,
        FaBinaryOp::Le => "<="@,
        FaBinaryOp::Gt => ">"@,
        FaBinaryOp::Ge => ">="@,
        FaBinaryOp::And => "&&"@,
        FaBinaryOp::Or => "||"@,
        FaBinaryOp::Elvis => "?:"@,
    }
}

/// The symbol of a unary operator.
pub open spec fn unary_op_text(op: FaUnaryOp) -> Seq<char> {
    match op {
        FaUnaryOp::Not => "!"@,
        FaUnaryOp::Neg => "-"@,
        FaUnaryOp::Pos => "+"@,
    }
}

/// Strings joined with a separator.
pub open spec fn strings_text(ss: Seq<String>, sep: Seq<char>) -> Seq<char>
    decreases ss.len(),
{
    if ss.len() == 0 {
        seq![]
    } else if ss.len() == 1 {
        ss[0]@
    } else {
        strings_text(ss.drop_last(), sep) + sep + ss.last()@
    }
}

/// The inline text of an expression. A float literal is rendered as written.
pub open spec fn expr_text(e: FaExpr) -> Seq<char>
    decreases e,
{
    match e {
        FaExpr::Null => "null"@,
        FaExpr::Bool(b) => if b { "true"@ } else { "false"@ },
        FaExpr::Int(n) => int_text(n),
        FaExpr::Float(text) => text@,
        FaExpr::Color(c) => "#"@ + hex_text(c as nat, 8),
        FaExpr::String(s) => debug_quoted(s@),
        FaExpr::Identifier(name) => name@,
        FaExpr::QualifiedName(parts) => strings_text(parts@, "."@),
        FaExpr::List(items) => "["@ + exprs_text(items@) + "]"@,
        FaExpr::Object(fields) => "{ "@ + fields_text(fields@) + " }"@,
        FaExpr::Binary { op, left, right } => expr_text(*left) + " "@ + binary_op_text(op) + " "@ + expr_text(*right),
        FaExpr::Unary { op, expr } => unary_op_text(op) + expr_text(*expr),
        FaExpr::Ternary { condition, then_expr, else_expr } =>
            expr_text(*condition) + " ? "@ + expr_text(*then_expr) + " : "@ + expr_text(*else_expr),
        FaExpr::FieldAccess { base, field } => expr_text(*base) + "."@ + field@,
        FaExpr::OptionalChain { base, field } => expr_text(*base) + "?."@ + field@,
        FaExpr::Call { callee, args } => expr_text(*callee) + "("@ + exprs_text(args@) + ")"@,
        FaExpr::StringTemplate(elems) => "\""@ + template_text(elems@) + "\""@,
    }
}

/// The inline texts of expressions, joined with `", "`.
pub open spec fn exprs_text(es: Seq<FaExpr>) -> Seq<char>
    decreases es,
{
    if es.len() == 0 {
        seq![]
    } else if es.len() == 1 {
        expr_text(es[0])
    } else {
        exprs_text(es.drop_last()) + ", "@ + expr_text(es.last())
    }
}

/// The fields of an object, `key: value`, joined with `", "`.
pub open spec fn fields_text(fs: Seq<(String, FaExpr)>) -> Seq<char>
    decreases fs,
{
    if fs.len() == 0 {
        seq![]
    } else if fs.len() == 1 {
        fs[0].0@ + ": "@ + expr_text(fs[0].1)
    } else {
        fields_text(fs.drop_last()) + ", "@ + fs.last().0@ + ": "@ + expr_text(fs.last().1)
    }
}

/// The parts of a string template: text as is, interpolations as `${expr}`.
pub open spec fn template_text(elems: Seq<FaTemplateElement>) -> Seq<char>
    decreases elems,
{
    if elems.len() == 0 {
        seq![]
    } else {
        template_text(elems.drop_last()) + match elems.last() {
            FaTemplateElement::Text(t) => t@,
            FaTemplateElement::Interpolation(inner) => "${"@ + expr_text(*inner) + "}"@,
        }
    }
}

/// The text of a string as Rust's `Debug` prints it.
#[verifier::external_body]
fn debug_string(s: &str) -> (r: String)
    ensures
        r@ == debug_quoted(s@),
{
    format!("{:?}", s)
}

/// Appends the text of a signed integer.
fn push_int(out: &mut String, n: i64)
    ensures
        final(out)@ == old(out)@ + int_text(n),
{
    if n < 0 {
        push_str(out, "-");
        let magnitude: u64 = if n == i64::MIN { 0x8000_0000_0000_0000u64 } else { (-n) as u64 };
        push_decimal_u64(out, magnitude);
        proof {
            assert(out@ =~= old(out)@ + int_text(n));
        }
    } else {
        push_decimal_u64(out, n as u64);
    }
}

/// Appends the last `width` hexadecimal digits of `v`.
fn push_hex(out: &mut String, v: u32, width: u32)
    ensures
        final(out)@ == old(out)@ + hex_text(v as nat, width as nat),
    decreases width,
{
    if width > 0 {
        push_hex(out, v / 16, width - 1);
        let d = v % 16;
        let c = if d < 10 { ((d + 48) as u8) as char } else { ((d + 55) as u8) as char };
        push_char(out, c);
        proof {
            assert(hex_text(v as nat, width as nat) == hex_text((v / 16) as nat, (width - 1) as nat).push(hex_digit((v % 16) as nat)));
        }
    } else {
        proof {
            assert(out@ =~= old(out)@ + hex_text(v as nat, width as nat));
        }
    }
}

/// Appends strings joined with a separator.
fn push_joined(out: &mut String, ss: &Vec<String>, sep: &str)
    ensures
        final(out)@ == old(out)@ + strings_text(ss@, sep@),
{
    let ghost start = out@;
    let mut i: usize = 0;
    while i < ss.len()
        invariant
            i <= ss@.len(),
            out@ == start + strings_text(ss@.take(i as int), sep@),
        decreases ss@.len() - i,
    {
        if i > 0 {
            push_str(out, sep);
        }
        push_str(out, ss[i].as_str());
        proof {
            let t = ss@.take(i + 1);
            assert(t.drop_last() =~= ss@.take(i as int));
            assert(t.last() == ss@[i as int]);
            if i == 0 {
                assert(t[0] == ss@[0]);
            }
            assert(out@ =~= start + strings_text(t, sep@));
        }
        i = i + 1;
    }
    proof {
        assert(ss@.take(ss@.len() as int) =~= ss@);
    }
}


// =========================================================================
// Lines and blocks
// =========================================================================

/// The indentation of a level: four spaces per level.
pub open spec fn indentation(level: nat) -> Seq<char>
    decreases level,
{
    if level == 0 {
        seq![]
    } else {
        indentation((level - 1) as nat) + "    "@
    }
}

/// One line of output at a level.
pub open spec fn dump_line(level: nat, text: Seq<char>) -> Seq<char> {
    indentation(level) + text + "\n"@
}

/// The level of the children of a node at `level` (it stays at the largest level).
pub open spec fn deeper(level: nat) -> nat {
    if level < usize::MAX {
        level + 1
    } else {
        level
    }
}

/// An optional suffix: the text if there is one.
pub open spec fn opt_text(o: Option<Seq<char>>) -> Seq<char> {
    match o {
        Some(t) => t,
        None => seq![],
    }
}

/// A parameter: `name: type`, then ` = default` if it has one.
pub open spec fn param_text(p: FaParameter) -> Seq<char> {
    p.name@ + ": "@ + type_text(p.type_expr) + match p.default {
        Some(d) => " = "@ + expr_text(d),
        None => seq![],
    }
}

/// Parameters joined with `", "`.
pub open spec fn params_text(ps: Seq<FaParameter>) -> Seq<char>
    decreases ps.len(),
{
    if ps.len() == 0 {
        seq![]
    } else if ps.len() == 1 {
        param_text(ps[0])
    } else {
        params_text(ps.drop_last()) + ", "@ + param_text(ps.last())
    }
}

/// An argument: `name: value` if named, else the value.
pub open spec fn arg_text(a: FaArg) -> Seq<char> {
    match a.name {
        Some(name) => name@ + ": "@ + expr_text(a.value),
        None => expr_text(a.value),
    }
}

/// Arguments joined with `", "`.
pub open spec fn args_text(args: Seq<FaArg>) -> Seq<char>
    decreases args.len(),
{
    if args.len() == 0 {
        seq![]
    } else if args.len() == 1 {
        arg_text(args[0])
    } else {
        args_text(args.drop_last()) + ", "@ + arg_text(args.last())
    }
}

/// The line of an instruction: `INSTR name`, then its parameters in braces.
pub open spec fn instruction_text(i: FaInstruction) -> Seq<char> {
    if i.params@.len() == 0 {
        "INSTR "@ + i.name@
    } else {
        "INSTR "@ + i.name@ + " { "@ + fields_text(i.params@) + " }"@
    }
}

/// Instructions, one line each.
pub open spec fn instructions_text(is: Seq<FaInstruction>, level: nat) -> Seq<char>
    decreases is.len(),
{
    if is.len() == 0 {
        seq![]
    } else {
        instructions_text(is.drop_last(), level) + dump_line(level, instruction_text(is.last()))
    }
}

/// A handler statement: an assignment or a command call.
pub open spec fn handler_stmt_text(s: FaHandlerStmt) -> Seq<char> {
    match s {
        FaHandlerStmt::Assignment { name, value } => name@ + " = "@ + expr_text(value),
        FaHandlerStmt::CommandCall { name, args } => name@ + "("@ + exprs_text(args@) + ")"@,
    }
}

/// Handler statements, one line each.
pub open spec fn handler_stmts_text(ss: Seq<FaHandlerStmt>, level: nat) -> Seq<char>
    decreases ss.len(),
{
    if ss.len() == 0 {
        seq![]
    } else {
        handler_stmts_text(ss.drop_last(), level) + dump_line(level, handler_stmt_text(ss.last()))
    }
}

/// The parameter of an event handler: `(name)` or `(name: type)`.
pub open spec fn event_param_text(p: Option<FaEventParam>) -> Seq<char> {
    match p {
        Some(p) => "("@ + p.name@ + match p.type_expr {
            Some(t) => ": "@ + type_text(t),
            None => seq![],
        } + ")"@,
        None => seq![],
    }
}

/// An event handler: `ON event(param)`, then its statements one level deeper.
pub open spec fn handler_text(h: FaEventHandler, level: nat) -> Seq<char> {
    dump_line(level, "ON "@ + h.event_name@ + event_param_text(h.param))
        + handler_stmts_text(h.body@, deeper(level))
}

/// A postfix item: an instruction or an event handler.
pub open spec fn postfix_text(item: FaPostfixItem, level: nat) -> Seq<char> {
    match item {
        FaPostfixItem::Instruction(i) => dump_line(level, instruction_text(i)),
        FaPostfixItem::EventHandler(h) => handler_text(h, level),
    }
}

/// Postfix items in order.
pub open spec fn postfixes_text(items: Seq<FaPostfixItem>, level: nat) -> Seq<char>
    decreases items.len(),
{
    if items.len() == 0 {
        seq![]
    } else {
        postfixes_text(items.drop_last(), level) + postfix_text(items.last(), level)
    }
}

/// The header of a fragment creation: `BLOCK` or `FRAGMENT name`, then its arguments.
pub open spec fn fragment_header(f: FaFragmentCreation) -> Seq<char> {
    (if f.name@.len() == 0 { "BLOCK"@ } else { "FRAGMENT "@ + f.name@ }) + if f.args@.len() == 0 {
        seq![]
    } else {
        " ARGS("@ + args_text(f.args@) + ")"@
    }
}

/// A blueprint statement.
pub open spec fn stmt_text(s: FaBlueprintStmt, level: nat) -> Seq<char>
    decreases s,
{
    match s {
        FaBlueprintStmt::With(name) => dump_line(level, "WITH "@ + name@),
        FaBlueprintStmt::LocalDecl(d) => dump_line(
            level,
            "LOCAL "@ + d.name@ + " TYPE "@ + type_text(d.type_expr) + " INIT "@ + expr_text(d.init),
        ),
        FaBlueprintStmt::FragmentCreation(f) => fragment_text(f, level),
        FaBlueprintStmt::Control(c) => control_text(c, level),
        FaBlueprintStmt::Instruction(i) => dump_line(level, instruction_text(i)),
        FaBlueprintStmt::EventHandler(h) => handler_text(h, level),
        FaBlueprintStmt::ContentExpr(e) => dump_line(level, "CONTENT "@ + expr_text(e)),
    }
}

/// Blueprint statements in order.
pub open spec fn stmts_text(ss: Seq<FaBlueprintStmt>, level: nat) -> Seq<char>
    decreases ss,
{
    if ss.len() == 0 {
        seq![]
    } else {
        stmts_text(ss.drop_last(), level) + stmt_text(ss.last(), level)
    }
}

/// A fragment creation: its header, then its body and postfix items one level deeper.
pub open spec fn fragment_text(f: FaFragmentCreation, level: nat) -> Seq<char>
    decreases f,
{
    dump_line(level, fragment_header(f)) + match f.body {
        Some(body) => fragment_body_text(body, deeper(level)),
        None => seq![],
    } + postfixes_text(f.postfix@, deeper(level))
}

/// A fragment body: statements, slot bindings or an inline blueprint.
pub open spec fn fragment_body_text(b: FaFragmentBody, level: nat) -> Seq<char>
    decreases b,
{
    match b {
        FaFragmentBody::Default(stmts) => stmts_text(stmts@, level),
        FaFragmentBody::Slots(slots) => slots_text(slots@, level),
        FaFragmentBody::InlineBlueprint { params, body } => dump_line(
            level,
            "INLINE("@ + strings_text(params@, ", "@) + ")"@,
        ) + stmts_text(body@, deeper(level)),
    }
}

/// Slot bindings: `SLOT name`, then the blueprint one level deeper.
pub open spec fn slots_text(slots: Seq<FaSlotBinding>, level: nat) -> Seq<char>
    decreases slots,
{
    if slots.len() == 0 {
        seq![]
    } else {
        slots_text(slots.drop_last(), level) + dump_line(level, "SLOT "@ + slots.last().slot_name@)
            + blueprint_value_text(slots.last().blueprint, deeper(level))
    }
}

/// A blueprint value: a reference or an inline blueprint.
pub open spec fn blueprint_value_text(v: FaBlueprintValue, level: nat) -> Seq<char>
    decreases v,
{
    match v {
        FaBlueprintValue::Reference(name) => dump_line(level, "REF "@ + name@),
        FaBlueprintValue::Inline { params, body } => dump_line(
            level,
            "INLINE("@ + strings_text(params@, ", "@) + ")"@,
        ) + stmts_text(body@, deeper(level)),
    }
}

/// A control statement: `WHEN`, `REPEAT` or `SELECT` with what it controls.
pub open spec fn control_text(c: FaControlStmt, level: nat) -> Seq<char>
    decreases c,
{
    match c {
        FaControlStmt::When { condition, then_stmt, else_stmt } => dump_line(
            level,
            "WHEN "@ + expr_text(condition),
        ) + stmt_text(*then_stmt, deeper(level)) + match else_stmt {
            Some(e) => dump_line(level, "ELSE"@) + stmt_text(*e, deeper(level)),
            None => seq![],
        },
        FaControlStmt::Repeat { iterable, item_name, key_expr, body } => dump_line(
            level,
            "REPEAT "@ + match item_name {
                Some(item) => item@,
                None => "it"@,
            } + " ON "@ + expr_text(iterable) + match key_expr {
                Some(k) => " BY "@ + expr_text(k),
                None => seq![],
            },
        ) + stmt_text(*body, deeper(level)),
        FaControlStmt::Select { discriminant, branches, else_branch } => dump_line(
            level,
            "SELECT"@ + match discriminant {
                Some(d) => " ON "@ + expr_text(d),
                None => seq![],
            },
        ) + branches_text(branches@, deeper(level)) + match else_branch {
            Some(e) => dump_line(deeper(level), "ELSE"@) + stmt_text(*e, deeper(deeper(level))),
            None => seq![],
        },
    }
}

/// Select branches: `CASE condition`, then the body one level deeper.
pub open spec fn branches_text(bs: Seq<FaSelectBranch>, level: nat) -> Seq<char>
    decreases bs,
{
    if bs.len() == 0 {
        seq![]
    } else {
        branches_text(bs.drop_last(), level) + dump_line(level, "CASE "@ + expr_text(bs.last().condition))
            + stmt_text(*bs.last().body, deeper(level))
    }
}

/// An instruction expression.
pub open spec fn instruction_expr_text(ie: FaInstructionExpr, level: nat) -> Seq<char>
    decreases ie,
{
    match ie {
        FaInstructionExpr::Simple(i) => dump_line(level, instruction_text(i)),
        FaInstructionExpr::When { condition, then_instr, else_instr } => dump_line(
            level,
            "WHEN "@ + expr_text(condition),
        ) + instruction_expr_text(*then_instr, deeper(level)) + match else_instr {
            Some(e) => dump_line(level, "ELSE"@) + instruction_expr_text(*e, deeper(level)),
            None => seq![],
        },
        FaInstructionExpr::Ternary { condition, then_instr, else_instr } => dump_line(
            level,
            "TERNARY "@ + expr_text(condition),
        ) + dump_line(deeper(level), "THEN"@) + instruction_expr_text(*then_instr, deeper(deeper(level)))
            + dump_line(deeper(level), "ELSE"@) + instruction_expr_text(*else_instr, deeper(deeper(level))),
        FaInstructionExpr::Reference(e) => dump_line(level, "INSTR_REF "@ + expr_text(e)),
    }
}

/// A parameter list in parentheses, or nothing if there are no parameters.
pub open spec fn params_suffix(ps: Seq<FaParameter>) -> Seq<char> {
    if ps.len() == 0 {
        seq![]
    } else {
        "("@ + params_text(ps) + ")"@
    }
}

/// A backend member.
pub open spec fn backend_member_text(m: FaBackendMember, level: nat) -> Seq<char> {
    match m {
        FaBackendMember::Include(name) => dump_line(level, "INCLUDE "@ + name@),
        FaBackendMember::Field(f) => dump_line(
            level,
            "FIELD "@ + f.name@ + " TYPE "@ + type_text(f.type_expr) + match f.init {
                Some(e) => " INIT "@ + expr_text(e),
                None => seq![],
            },
        ),
        FaBackendMember::Method(m) => dump_line(
            level,
            "METHOD "@ + m.name@ + "("@ + params_text(m.params@) + ") RETURN "@ + type_text(m.return_type),
        ),
        FaBackendMember::Command(c) => dump_line(level, "COMMAND "@ + c.name@ + "("@ + params_text(c.params@) + ")"@),
    }
}

/// Backend members in order.
pub open spec fn backend_members_text(ms: Seq<FaBackendMember>, level: nat) -> Seq<char>
    decreases ms.len(),
{
    if ms.len() == 0 {
        seq![]
    } else {
        backend_members_text(ms.drop_last(), level) + backend_member_text(ms.last(), level)
    }
}

/// A contract method: `METHOD name(params)`, then ` RETURN type` if it returns one.
pub open spec fn contract_method_text(m: FaContractMethod) -> Seq<char> {
    "METHOD "@ + m.name@ + "("@ + params_text(m.params@) + ")"@ + match m.return_type {
        Some(t) => " RETURN "@ + type_text(t),
        None => seq![],
    }
}

/// Contract methods, one line each.
pub open spec fn contract_methods_text(ms: Seq<FaContractMethod>, level: nat) -> Seq<char>
    decreases ms.len(),
{
    if ms.len() == 0 {
        seq![]
    } else {
        contract_methods_text(ms.drop_last(), level) + dump_line(level, contract_method_text(ms.last()))
    }
}

/// A field instruction: `name(value)` or `name`.
pub open spec fn field_instruction_text(i: FaFieldInstruction) -> Seq<char> {
    match i.value {
        Some(v) => i.name@ + "("@ + expr_text(v) + ")"@,
        None => i.name@,
    }
}

/// Field instructions joined with `", "`.
pub open spec fn field_instructions_text(is: Seq<FaFieldInstruction>) -> Seq<char>
    decreases is.len(),
{
    if is.len() == 0 {
        seq![]
    } else if is.len() == 1 {
        field_instruction_text(is[0])
    } else {
        field_instructions_text(is.drop_last()) + ", "@ + field_instruction_text(is.last())
    }
}

/// A scheme member: a field with its instructions, or a virtual field.
pub open spec fn scheme_member_text(m: FaSchemeMember) -> Seq<char> {
    match m {
        FaSchemeMember::Field(f) => "FIELD "@ + f.name@ + " TYPE "@ + type_text(f.type_expr)
            + if f.instructions@.len() == 0 {
            seq![]
        } else {
            " ["@ + field_instructions_text(f.instructions@) + "]"@
        },
        FaSchemeMember::Virtual(v) => "VIRTUAL "@ + v.name@ + " TYPE "@ + type_text(v.type_expr) + " = "@
            + expr_text(v.expr),
    }
}

/// Scheme members, one line each.
pub open spec fn scheme_members_text(ms: Seq<FaSchemeMember>, level: nat) -> Seq<char>
    decreases ms.len(),
{
    if ms.len() == 0 {
        seq![]
    } else {
        scheme_members_text(ms.drop_last(), level) + dump_line(level, scheme_member_text(ms.last()))
    }
}

/// Variant overrides, `name = value`, one line each.
pub open spec fn overrides_text(os: Seq<(String, FaExpr)>, level: nat) -> Seq<char>
    decreases os.len(),
{
    if os.len() == 0 {
        seq![]
    } else {
        overrides_text(os.drop_last(), level) + dump_line(level, os.last().0@ + " = "@ + expr_text(os.last().1))
    }
}

/// A theme member.
pub open spec fn theme_member_text(m: FaThemeMember, level: nat) -> Seq<char> {
    match m {
        FaThemeMember::Include(name) => dump_line(level, "INCLUDE "@ + name@),
        FaThemeMember::Field(f) => dump_line(
            level,
            (if f.is_asset { "ASSET "@ } else { seq![] }) + "FIELD "@ + f.name@ + " TYPE "@ + type_text(f.type_expr)
                + match f.init {
                Some(e) => " = "@ + expr_text(e),
                None => seq![],
            },
        ),
        FaThemeMember::InstructionSet(set) => dump_line(level, "SET "@ + set.name@) + instructions_text(
            set.instructions@,
            deeper(level),
        ),
        FaThemeMember::Variant(v) => dump_line(level, "VARIANT "@ + v.name@) + overrides_text(
            v.overrides@,
            deeper(level),
        ),
    }
}

/// Theme members in order.
pub open spec fn theme_members_text(ms: Seq<FaThemeMember>, level: nat) -> Seq<char>
    decreases ms.len(),
{
    if ms.len() == 0 {
        seq![]
    } else {
        theme_members_text(ms.drop_last(), level) + theme_member_text(ms.last(), level)
    }
}

/// A top-level declaration.
pub open spec fn decl_text(d: FaTopLevelDecl, level: nat) -> Seq<char> {
    match d {
        FaTopLevelDecl::Blueprint(bp) => dump_line(level, "BLUEPRINT "@ + bp.name@ + params_suffix(bp.params@))
            + stmts_text(bp.body@, deeper(level)),
        FaTopLevelDecl::Backend(be) => dump_line(level, "BACKEND "@ + be.name@ + params_suffix(be.params@))
            + backend_members_text(be.members@, deeper(level)),
        FaTopLevelDecl::Contract(ct) => dump_line(level, "CONTRACT "@ + ct.name@) + contract_methods_text(
            ct.methods@,
            deeper(level),
        ),
        FaTopLevelDecl::Scheme(sc) => dump_line(level, "SCHEME "@ + sc.name@) + scheme_members_text(
            sc.members@,
            deeper(level),
        ),
        FaTopLevelDecl::Enum(en) => dump_line(
            level,
            "ENUM "@ + en.name@ + " { "@ + strings_text(en.variants@, ", "@) + " }"@,
        ),
        FaTopLevelDecl::Theme(th) => dump_line(level, "THEME "@ + th.name@) + theme_members_text(
            th.members@,
            deeper(level),
        ),
        FaTopLevelDecl::Arena(ar) => dump_line(
            level,
            "ARENA "@ + ar.name@ + " FOR "@ + ar.scheme_name@ + match ar.contract {
                Some(c) => " WITH "@ + c@,
                None => seq![],
            },
        ),
    }
}

/// Top-level declarations in order.
pub open spec fn decls_text(ds: Seq<FaTopLevelDecl>, level: nat) -> Seq<char>
    decreases ds.len(),
{
    if ds.len() == 0 {
        seq![]
    } else {
        decls_text(ds.drop_last(), level) + decl_text(ds.last(), level)
    }
}

/// Imports, `IMPORT name FROM module`, one line each.
pub open spec fn imports_text(is: Seq<FaImport>, level: nat) -> Seq<char>
    decreases is.len(),
{
    if is.len() == 0 {
        seq![]
    } else {
        imports_text(is.drop_last(), level) + dump_line(level, "IMPORT "@ + is.last().name@ + " FROM "@ + is.last().module@)
    }
}

/// The DUMP text of a file: `FILE module=...`, then its imports and
/// declarations one level deeper.
pub open spec fn file_text(f: FaFile) -> Seq<char> {
    dump_line(0, "FILE module="@ + f.module@) + imports_text(f.imports@, 1) + decls_text(f.declarations@, 1)
}

/// A visitor that produces DUMP format output
pub struct DumpVisitor {
    output: String,
    indent_str: String,
}

impl Default for DumpVisitor {
    fn default() -> (r: Self)
        ensures
            r.well_formed(),
            r.text() == Seq::<char>::empty(),
    {
        DumpVisitor::new()
    }
}

/// The level of the children of a node at `level`.
fn indent(level: usize) -> (r: usize)
    ensures
        r == deeper(level as nat),
{
    if level < usize::MAX {
        level + 1
    } else {
        level
    }
}

impl DumpVisitor {
    /// The output so far.
    pub closed spec fn text(&self) -> Seq<char> {
        self.output@
    }

    /// The unit of indentation is four spaces.
    pub closed spec fn well_formed(&self) -> bool {
        self.indent_str@ == "    "@
    }

    /// Create a new DumpVisitor
    pub fn new() -> (r: Self)
        ensures
            r.well_formed(),
            r.text() == Seq::<char>::empty(),
    {
        DumpVisitor { output: String::new(), indent_str: to_string("    ") }
    }

    /// Dump a file to DUMP format
    pub fn dump(file: &FaFile) -> (r: String)
        ensures
            r@ == file_text(*file),
    {
        let mut visitor = Self::new();
        visitor.visit_file(file);
        proof {
            assert(visitor.output@ =~= file_text(*file));
        }
        visitor.output
    }

    /// Writes one line at a level.
    fn write(&mut self, level: usize, text: &str)
        requires
            old(self).well_formed(),
        ensures
            final(self).well_formed(),
            final(self).text() == old(self).text() + dump_line(level as nat, text@),
    {
        let ghost start = self.output@;
        let mut i: usize = 0;
        while i < level
            invariant
                self.well_formed(),
                i <= level,
                self.output@ == start + indentation(i as nat),
            decreases level - i,
        {
            push_str(&mut self.output, self.indent_str.as_str());
            proof {
                assert(indentation((i + 1) as nat) == indentation(i as nat) + "    "@);
                assert(self.output@ =~= start + indentation((i + 1) as nat));
            }
            i = i + 1;
        }
        push_str(&mut self.output, text);
        push_str(&mut self.output, "\n");
        proof {
            assert(self.output@ =~= start + dump_line(level as nat, text@));
        }
    }

    /// The output so far.
    pub fn output(&self) -> (r: &str)
        ensures
            r@ == self.text(),
    {
        self.output.as_str()
    }

    /// Writes a line made of a string.
    fn write_string(&mut self, level: usize, text: String)
        requires
            old(self).well_formed(),
        ensures
            final(self).well_formed(),
            final(self).text() == old(self).text() + dump_line(level as nat, text@),
    {
        self.write(level, text.as_str());
    }

    // =========================================================================
    // File-level
    // =========================================================================

    fn visit_file(&mut self, file: &FaFile)
        requires
            old(self).well_formed(),
        ensures
            final(self).well_formed(),
            final(self).text() == old(self).text() + file_text(*file),
    {
        let ghost start = self.output@;
        let mut line = String::new();
        push_str(&mut line, "FILE module=");
        push_str(&mut line, file.module.as_str());
        self.write_string(0, line);
        self.visit_imports(&file.imports, 1);
        self.visit_top_level_decls(&file.declarations, 1);
        proof {
            assert(self.output@ =~= start + file_text(*file));
        }
    }

    fn visit_imports(&mut self, imports: &Vec<FaImport>, level: usize)
        requires
            old(self).well_formed(),
        ensures
            final(self).well_formed(),
            final(self).text() == old(self).text() + imports_text(imports@, level as nat),
    {
        let ghost start = self.output@;
        let mut i: usize = 0;
        while i < imports.len()
            invariant
                self.well_formed(),
                i <= imports@.len(),
                self.output@ == start + imports_text(imports@.take(i as int), level as nat),
            decreases imports@.len() - i,
        {
            self.visit_import(&imports[i], level);
            proof {
                let t = imports@.take(i + 1);
                assert(t.drop_last() =~= imports@.take(i as int));
                assert(t.last() == imports@[i as int]);
                assert(self.output@ =~= start + imports_text(t, level as nat));
            }
            i = i + 1;
        }
        proof {
            assert(imports@.take(imports@.len() as int) =~= imports@);
        }
    }

    fn visit_import(&mut self, import: &FaImport, level: usize)
        requires
            old(self).well_formed(),
        ensures
            final(self).well_formed(),
            final(self).text() == old(self).text() + dump_line(
                level as nat,
                "IMPORT "@ + import.name@ + " FROM "@ + import.module@,
            ),
    {
        let mut line = String::new();
        push_str(&mut line, "IMPORT ");
        push_str(&mut line, import.name.as_str());
        push_str(&mut line, " FROM ");
        push_str(&mut line, import.module.as_str());
        proof {
            assert(line@ =~= "IMPORT "@ + import.name@ + " FROM "@ + import.module@);
        }
        self.write_string(level, line);
    }

    // =========================================================================
    // Top-level declarations
    // =========================================================================

    fn visit_top_level_decls(&mut self, decls: &Vec<FaTopLevelDecl>, level: usize)
        requires
            old(self).well_formed(),
        ensures
            final(self).well_formed(),
            final(self).text() == old(self).text() + decls_text(decls@, level as nat),
    {
        let ghost start = self.output@;
        let mut i: usize = 0;
        while i < decls.len()
            invariant
                self.well_formed(),
                i <= decls@.len(),
                self.output@ == start + decls_text(decls@.take(i as int), level as nat),
            decreases decls@.len() - i,
        {
            self.visit_top_level_decl(&decls[i], level);
            proof {
                let t = decls@.take(i + 1);
                assert(t.drop_last() =~= decls@.take(i as int));
                assert(t.last() == decls@[i as int]);
                assert(self.output@ =~= start + decls_text(t, level as nat));
            }
            i = i + 1;
        }
        proof {
            assert(decls@.take(decls@.len() as int) =~= decls@);
        }
    }

    fn visit_top_level_decl(&mut self, decl: &FaTopLevelDecl, level: usize)
        requires
            old(self).well_formed(),
        ensures
            final(self).well_formed(),
            final(self).text() == old(self).text() + decl_text(*decl, level as nat),
    {
        let ghost start = self.output@;
        match decl {
            FaTopLevelDecl::Blueprint(bp) => self.visit_blueprint(bp, level),
            FaTopLevelDecl::Backend(be) => self.visit_backend(be, level),
            FaTopLevelDecl::Contract(ct) => self.visit_contract(ct, level),
            FaTopLevelDecl::Scheme(sc) => self.visit_scheme(sc, level),
            FaTopLevelDecl::Enum(en) => self.visit_enum(en, level),
            FaTopLevelDecl::Theme(th) => self.visit_theme(th, level),
            FaTopLevelDecl::Arena(ar) => self.visit_arena(ar, level),
        }
    }

    fn params_suffix(&self, params: &Vec<FaParameter>) -> (r: String)
        ensures
            r@ == params_suffix(params@),
    {
        let mut out = String::new();
        if params.len() > 0 {
            push_str(&mut out, "(");
            let p = self.params_inline(params);
            push_str(&mut out, p.as_str());
            push_str(&mut out, ")");
        }
        proof {
            assert(out@ =~= params_suffix(params@));
        }
        out
    }

    fn visit_blueprint(&mut self, blueprint: &FaBlueprint, level: usize)
        requires
            old(self).well_formed(),
        ensures
            final(self).well_formed(),
            final(self).text() == old(self).text() + dump_line(
                level as nat,
                "BLUEPRINT "@ + blueprint.name@ + params_suffix(blueprint.params@),
            ) + stmts_text(blueprint.body@, deeper(level as nat)),
    {
        let ghost start = self.output@;
        let mut line = String::new();
        push_str(&mut line, "BLUEPRINT ");
        push_str(&mut line, blueprint.name.as_str());
        let params = self.params_suffix(&blueprint.params);
        push_str(&mut line, params.as_str());
        proof {
            assert(line@ =~= "BLUEPRINT "@ + blueprint.name@ + params_suffix(blueprint.params@));
        }
        self.write_string(level, line);
        self.visit_blueprint_stmts(&blueprint.body, indent(level));
    }

    fn visit_backend(&mut self, backend: &FaBackend, level: usize)
        requires
            old(self).well_formed(),
        ensures
            final(self).well_formed(),
            final(self).text() == old(self).text() + dump_line(
                level as nat,
                "BACKEND "@ + backend.name@ + params_suffix(backend.params@),
            ) + backend_members_text(backend.members@, deeper(level as nat)),
    {
        let mut line = String::new();
        push_str(&mut line, "BACKEND ");
        push_str(&mut line, backend.name.as_str());
        let params = self.params_suffix(&backend.params);
        push_str(&mut line, params.as_str());
        proof {
            assert(line@ =~= "BACKEND "@ + backend.name@ + params_suffix(backend.params@));
        }
        self.write_string(level, line);
        let inner = indent(level);
        let ghost start = self.output@;
        let mut i: usize = 0;
        while i < backend.members.len()
            invariant
                self.well_formed(),
                i <= backend.members@.len(),
                self.output@ == start + backend_members_text(backend.members@.take(i as int), inner as nat),
            decreases backend.members@.len() - i,
        {
            self.visit_backend_member(&backend.members[i], inner);
            proof {
                let t = backend.members@.take(i + 1);
                assert(t.drop_last() =~= backend.members@.take(i as int));
                assert(t.last() == backend.members@[i as int]);
                assert(self.output@ =~= start + backend_members_text(t, inner as nat));
            }
            i = i + 1;
        }
        proof {
            assert(backend.members@.take(backend.members@.len() as int) =~= backend.members@);
        }
    }

    fn visit_contract(&mut self, contract: &FaContract, level: usize)
        requires
            old(self).well_formed(),
        ensures
            final(self).well_formed(),
            final(self).text() == old(self).text() + dump_line(level as nat, "CONTRACT "@ + contract.name@)
                + contract_methods_text(contract.methods@, deeper(level as nat)),
    {
        let mut line = String::new();
        push_str(&mut line, "CONTRACT ");
        push_str(&mut line, contract.name.as_str());
        self.write_string(level, line);
        let inner = indent(level);
        let ghost start = self.output@;
        let mut i: usize = 0;
        while i < contract.methods.len()
            invariant
                self.well_formed(),
                i <= contract.methods@.len(),
                self.output@ == start + contract_methods_text(contract.methods@.take(i as int), inner as nat),
            decreases contract.methods@.len() - i,
        {
            self.visit_contract_method(&contract.methods[i], inner);
            proof {
                let t = contract.methods@.take(i + 1);
                assert(t.drop_last() =~= contract.methods@.take(i as int));
                assert(t.last() == contract.methods@[i as int]);
                assert(self.output@ =~= start + contract_methods_text(t, inner as nat));
            }
            i = i + 1;
        }
        proof {
            assert(contract.methods@.take(contract.methods@.len() as int) =~= contract.methods@);
        }
    }

    fn visit_scheme(&mut self, scheme: &FaScheme, level: usize)
        requires
            old(self).well_formed(),
        ensures
            final(self).well_formed(),
            final(self).text() == old(self).text() + dump_line(level as nat, "SCHEME "@ + scheme.name@)
                + scheme_members_text(scheme.members@, deeper(level as nat)),
    {
        let mut line = String::new();
        push_str(&mut line, "SCHEME ");
        push_str(&mut line, scheme.name.as_str());
        self.write_string(level, line);
        let inner = indent(level);
        let ghost start = self.output@;
        let mut i: usize = 0;
        while i < scheme.members.len()
            invariant
                self.well_formed(),
                i <= scheme.members@.len(),
                self.output@ == start + scheme_members_text(scheme.members@.take(i as int), inner as nat),
            decreases scheme.members@.len() - i,
        {
            self.visit_scheme_member(&scheme.members[i], inner);
            proof {
                let t = scheme.members@.take(i + 1);
                assert(t.drop_last() =~= scheme.members@.take(i as int));
                assert(t.last() == scheme.members@[i as int]);
                assert(self.output@ =~= start + scheme_members_text(t, inner as nat));
            }
            i = i + 1;
        }
        proof {
            assert(scheme.members@.take(scheme.members@.len() as int) =~= scheme.members@);
        }
    }

    fn visit_enum(&mut self, enum_decl: &FaEnum, level: usize)
        requires
            old(self).well_formed(),
        ensures
            final(self).well_formed(),
            final(self).text() == old(self).text() + dump_line(
                level as nat,
                "ENUM "@ + enum_decl.name@ + " { "@ + strings_text(enum_decl.variants@, ", "@) + " }"@,
            ),
    {
        let mut line = String::new();
        push_str(&mut line, "ENUM ");
        push_str(&mut line, enum_decl.name.as_str());
        push_str(&mut line, " { ");
        push_joined(&mut line, &enum_decl.variants, ", ");
        push_str(&mut line, " }");
        proof {
            assert(line@ =~= "ENUM "@ + enum_decl.name@ + " { "@ + strings_text(enum_decl.variants@, ", "@) + " }"@);
        }
        self.write_string(level, line);
    }

    fn visit_theme(&mut self, theme: &FaTheme, level: usize)
        requires
            old(self).well_formed(),
        ensures
            final(self).well_formed(),
            final(self).text() == old(self).text() + dump_line(level as nat, "THEME "@ + theme.name@)
                + theme_members_text(theme.members@, deeper(level as nat)),
    {
        let mut line = String::new();
        push_str(&mut line, "THEME ");
        push_str(&mut line, theme.name.as_str());
        self.write_string(level, line);
        let inner = indent(level);
        let ghost start = self.output@;
        let mut i: usize = 0;
        while i < theme.members.len()
            invariant
                self.well_formed(),
                i <= theme.members@.len(),
                self.output@ == start + theme_members_text(theme.members@.take(i as int), inner as nat),
            decreases theme.members@.len() - i,
        {
            self.visit_theme_member(&theme.members[i], inner);
            proof {
                let t = theme.members@.take(i + 1);
                assert(t.drop_last() =~= theme.members@.take(i as int));
                assert(t.last() == theme.members@[i as int]);
                assert(self.output@ =~= start + theme_members_text(t, inner as nat));
            }
            i = i + 1;
        }
        proof {
            assert(theme.members@.take(theme.members@.len() as int) =~= theme.members@);
        }
    }

    fn visit_arena(&mut self, arena: &FaArena, level: usize)
        requires
            old(self).well_formed(),
        ensures
            final(self).well_formed(),
            final(self).text() == old(self).text() + dump_line(
                level as nat,
                "ARENA "@ + arena.name@ + " FOR "@ + arena.scheme_name@ + match arena.contract {
                    Some(c) => " WITH "@ + c@,
                    None => seq![],
                },
            ),
    {
        let mut line = String::new();
        push_str(&mut line, "ARENA ");
        push_str(&mut line, arena.name.as_str());
        push_str(&mut line, " FOR ");
        push_str(&mut line, arena.scheme_name.as_str());
        if let Some(c) = &arena.contract {
            push_str(&mut line, " WITH ");
            push_str(&mut line, c.as_str());
        }
        proof {
            assert(line@ =~= "ARENA "@ + arena.name@ + " FOR "@ + arena.scheme_name@ + match arena.contract {
                Some(c) => " WITH "@ + c@,
                None => seq![],
            });
        }
        self.write_string(level, line);
    }
}

impl DumpVisitor {
    /// Helper to format a type expression inline
    fn type_inline(&self, type_expr: &FaTypeExpr) -> (r: String)
        ensures
            r@ == type_text(*type_expr),
        decreases type_expr,
    {
        let mut out = String::new();
        match type_expr {
            FaTypeExpr::Named(name) => {
                push_str(&mut out, name.as_str());
            },
            FaTypeExpr::Nullable(inner) => {
                let s = self.type_inline(inner);
                push_str(&mut out, s.as_str());
                push_str(&mut out, "?");
            },
            FaTypeExpr::Ref(inner) => {
                push_str(&mut out, "ref ");
                let s = self.type_inline(inner);
                push_str(&mut out, s.as_str());
            },
            FaTypeExpr::Draft(inner) => {
                push_str(&mut out, "draft ");
                let s = self.type_inline(inner);
                push_str(&mut out, s.as_str());
            },
            FaTypeExpr::Asset(inner) => {
                push_str(&mut out, "asset ");
                let s = self.type_inline(inner);
                push_str(&mut out, s.as_str());
            },
            FaTypeExpr::Blueprint(params) => {
                if params.len() == 0 {
                    push_str(&mut out, "Blueprint");
                } else {
                    push_str(&mut out, "Blueprint<");
                    let s = self.types_inline(params);
                    push_str(&mut out, s.as_str());
                    push_str(&mut out, ">");
                }
            },
            FaTypeExpr::Accessor(inner) => {
                push_str(&mut out, "Accessor<");
                let s = self.type_inline(inner);
                push_str(&mut out, s.as_str());
                push_str(&mut out, ">");
            },
            FaTypeExpr::List(elem) => {
                push_str(&mut out, "List<");
                let s = self.type_inline(elem);
                push_str(&mut out, s.as_str());
                push_str(&mut out, ">");
            },
            FaTypeExpr::SetOf(elem) => {
                push_str(&mut out, "Set<");
                let s = self.type_inline(elem);
                push_str(&mut out, s.as_str());
                push_str(&mut out, ">");
            },
            FaTypeExpr::MapOf(key, value) => {
                push_str(&mut out, "Map<");
                let k = self.type_inline(key);
                push_str(&mut out, k.as_str());
                push_str(&mut out, ", ");
                let v = self.type_inline(value);
                push_str(&mut out, v.as_str());
                push_str(&mut out, ">");
            },
            FaTypeExpr::Tree(elem) => {
                push_str(&mut out, "Tree<");
                let s = self.type_inline(elem);
                push_str(&mut out, s.as_str());
                push_str(&mut out, ">");
            },
        }
        proof {
            assert(out@ =~= type_text(*type_expr));
        }
        out
    }

    /// The symbol of a binary operator
    fn op_str(&self, op: &FaBinaryOp) -> (r: &'static str)
        ensures
            r@ == binary_op_text(*op),
    {
        match op {
            FaBinaryOp::Add => "+",
            FaBinaryOp::Sub => "-",
            FaBinaryOp::Mul => "*",
            FaBinaryOp::Div => "/",
            FaBinaryOp::Mod => "%",
            FaBinaryOp::Pow => "**",
            FaBinaryOp::Eq => "==",
            FaBinaryOp::Ne => "!=",
            FaBinaryOp::Lt => "<",
            FaBinaryOp::Le => "<=",
            FaBinaryOp::Gt => ">",
            FaBinaryOp::Ge => ">=",
            FaBinaryOp::And => "&&",
            FaBinaryOp::Or => "||",
            FaBinaryOp::Elvis => "?:",
        }
    }

    /// The symbol of a unary operator
    fn unary_op_str(&self, op: &FaUnaryOp) -> (r: &'static str)
        ensures
            r@ == unary_op_text(*op),
    {
        match op {
            FaUnaryOp::Not => "!",
            FaUnaryOp::Neg => "-",
            FaUnaryOp::Pos => "+",
        }
    }

    /// Helper to format an expression inline
    fn expr_inline(&self, expr: &FaExpr) -> (r: String)
        ensures
            r@ == expr_text(*expr),
        decreases expr,
    {
        let mut out = String::new();
        match expr {
            FaExpr::Null => {
                push_str(&mut out, "null");
            },
            FaExpr::Bool(b) => {
                if *b {
                    push_str(&mut out, "true");
                } else {
                    push_str(&mut out, "false");
                }
            },
            FaExpr::Int(n) => {
                push_int(&mut out, *n);
            },
            FaExpr::Float(text) => {
                push_str(&mut out, text.as_str());
            },
            FaExpr::Color(c) => {
                push_str(&mut out, "#");
                push_hex(&mut out, *c, 8);
            },
            FaExpr::String(s) => {
                let q = debug_string(s.as_str());
                push_str(&mut out, q.as_str());
            },
            FaExpr::Identifier(name) => {
                push_str(&mut out, name.as_str());
            },
            FaExpr::QualifiedName(parts) => {
                push_joined(&mut out, parts, ".");
            },
            FaExpr::List(items) => {
                push_str(&mut out, "[");
                let s = self.exprs_inline(items);
                push_str(&mut out, s.as_str());
                push_str(&mut out, "]");
            },
            FaExpr::Object(fields) => {
                push_str(&mut out, "{ ");
                let s = self.fields_inline(fields);
                push_str(&mut out, s.as_str());
                push_str(&mut out, " }");
            },
            FaExpr::Binary { op, left, right } => {
                let l = self.expr_inline(left);
                push_str(&mut out, l.as_str());
                push_str(&mut out, " ");
                push_str(&mut out, self.op_str(op));
                push_str(&mut out, " ");
                let r = self.expr_inline(right);
                push_str(&mut out, r.as_str());
            },
            FaExpr::Unary { op, expr: inner } => {
                push_str(&mut out, self.unary_op_str(op));
                let s = self.expr_inline(inner);
                push_str(&mut out, s.as_str());
            },
            FaExpr::Ternary { condition, then_expr, else_expr } => {
                let c = self.expr_inline(condition);
                push_str(&mut out, c.as_str());
                push_str(&mut out, " ? ");
                let t = self.expr_inline(then_expr);
                push_str(&mut out, t.as_str());
                push_str(&mut out, " : ");
                let e = self.expr_inline(else_expr);
                push_str(&mut out, e.as_str());
            },
            FaExpr::FieldAccess { base, field } => {
                let b = self.expr_inline(base);
                push_str(&mut out, b.as_str());
                push_str(&mut out, ".");
                push_str(&mut out, field.as_str());
            },
            FaExpr::OptionalChain { base, field } => {
                let b = self.expr_inline(base);
                push_str(&mut out, b.as_str());
                push_str(&mut out, "?.");
                push_str(&mut out, field.as_str());
            },
            FaExpr::Call { callee, args } => {
                let c = self.expr_inline(callee);
                push_str(&mut out, c.as_str());
                push_str(&mut out, "(");
                let a = self.exprs_inline(args);
                push_str(&mut out, a.as_str());
                push_str(&mut out, ")");
            },
            FaExpr::StringTemplate(elems) => {
                push_str(&mut out, "\"");
                let t = self.template_inline(elems);
                push_str(&mut out, t.as_str());
                push_str(&mut out, "\"");
            },
        }
        proof {
            assert(out@ =~= expr_text(*expr));
        }
        out
    }

    /// Expressions inline, joined with `", "`
    fn exprs_inline(&self, es: &Vec<FaExpr>) -> (r: String)
        ensures
            r@ == exprs_text(es@),
        decreases es@,
    {
        let mut out = String::new();
        let mut i: usize = 0;
        while i < es.len()
            invariant
                i <= es@.len(),
                out@ == exprs_text(es@.take(i as int)),
            decreases es@.len() - i,
        {
            if i > 0 {
                push_str(&mut out, ", ");
            }
            let s = self.expr_inline(&es[i]);
            push_str(&mut out, s.as_str());
            proof {
                let t = es@.take(i + 1);
                assert(t.drop_last() =~= es@.take(i as int));
                assert(t.last() == es@[i as int]);
                if i == 0 {
                    assert(t[0] == es@[0]);
                }
                assert(out@ =~= exprs_text(t));
            }
            i = i + 1;
        }
        proof {
            assert(es@.take(es@.len() as int) =~= es@);
        }
        out
    }

    /// Object fields inline, `key: value` joined with `", "`
    fn fields_inline(&self, fs: &Vec<(String, FaExpr)>) -> (r: String)
        ensures
            r@ == fields_text(fs@),
        decreases fs@,
    {
        let mut out = String::new();
        let mut i: usize = 0;
        while i < fs.len()
            invariant
                i <= fs@.len(),
                out@ == fields_text(fs@.take(i as int)),
            decreases fs@.len() - i,
        {
            if i > 0 {
                push_str(&mut out, ", ");
            }
            let (k, v) = &fs[i];
            push_str(&mut out, k.as_str());
            push_str(&mut out, ": ");
            let s = self.expr_inline(v);
            push_str(&mut out, s.as_str());
            proof {
                let t = fs@.take(i + 1);
                assert(t.drop_last() =~= fs@.take(i as int));
                assert(t.last() == fs@[i as int]);
                if i == 0 {
                    assert(t[0] == fs@[0]);
                }
                assert(out@ =~= fields_text(t));
            }
            i = i + 1;
        }
        proof {
            assert(fs@.take(fs@.len() as int) =~= fs@);
        }
        out
    }

    /// The parts of a string template inline
    fn template_inline(&self, elems: &Vec<FaTemplateElement>) -> (r: String)
        ensures
            r@ == template_text(elems@),
        decreases elems@,
    {
        let mut out = String::new();
        let mut i: usize = 0;
        while i < elems.len()
            invariant
                i <= elems@.len(),
                out@ == template_text(elems@.take(i as int)),
            decreases elems@.len() - i,
        {
            match &elems[i] {
                FaTemplateElement::Text(t) => {
                    push_str(&mut out, t.as_str());
                },
                FaTemplateElement::Interpolation(inner) => {
                    push_str(&mut out, "${");
                    let s = self.expr_inline(inner);
                    push_str(&mut out, s.as_str());
                    push_str(&mut out, "}");
                },
            }
            proof {
                let t = elems@.take(i + 1);
                assert(t.drop_last() =~= elems@.take(i as int));
                assert(t.last() == elems@[i as int]);
                assert(out@ =~= template_text(t));
            }
            i = i + 1;
        }
        proof {
            assert(elems@.take(elems@.len() as int) =~= elems@);
        }
        out
    }

    /// A parameter: `name: type`, then ` = default`
    fn format_param(&self, param: &FaParameter) -> (r: String)
        ensures
            r@ == param_text(*param),
    {
        let mut out = String::new();
        push_str(&mut out, param.name.as_str());
        push_str(&mut out, ": ");
        let t = self.type_inline(&param.type_expr);
        push_str(&mut out, t.as_str());
        if let Some(d) = &param.default {
            push_str(&mut out, " = ");
            let e = self.expr_inline(d);
            push_str(&mut out, e.as_str());
        }
        proof {
            assert(out@ =~= param_text(*param));
        }
        out
    }

    /// Parameters joined with `", "`
    fn params_inline(&self, ps: &Vec<FaParameter>) -> (r: String)
        ensures
            r@ == params_text(ps@),
    {
        let mut out = String::new();
        let mut i: usize = 0;
        while i < ps.len()
            invariant
                i <= ps@.len(),
                out@ == params_text(ps@.take(i as int)),
            decreases ps@.len() - i,
        {
            if i > 0 {
                push_str(&mut out, ", ");
            }
            let s = self.format_param(&ps[i]);
            push_str(&mut out, s.as_str());
            proof {
                let t = ps@.take(i + 1);
                assert(t.drop_last() =~= ps@.take(i as int));
                assert(t.last() == ps@[i as int]);
                if i == 0 {
                    assert(t[0] == ps@[0]);
                }
                assert(out@ =~= params_text(t));
            }
            i = i + 1;
        }
        proof {
            assert(ps@.take(ps@.len() as int) =~= ps@);
        }
        out
    }

    /// An argument: `name: value` if named, else the value
    fn format_arg(&self, arg: &FaArg) -> (r: String)
        ensures
            r@ == arg_text(*arg),
    {
        let mut out = String::new();
        if let Some(name) = &arg.name {
            push_str(&mut out, name.as_str());
            push_str(&mut out, ": ");
        }
        let v = self.expr_inline(&arg.value);
        push_str(&mut out, v.as_str());
        proof {
            assert(out@ =~= arg_text(*arg));
        }
        out
    }

    /// Arguments joined with `", "`
    fn args_inline(&self, args: &Vec<FaArg>) -> (r: String)
        ensures
            r@ == args_text(args@),
    {
        let mut out = String::new();
        let mut i: usize = 0;
        while i < args.len()
            invariant
                i <= args@.len(),
                out@ == args_text(args@.take(i as int)),
            decreases args@.len() - i,
        {
            if i > 0 {
                push_str(&mut out, ", ");
            }
            let s = self.format_arg(&args[i]);
            push_str(&mut out, s.as_str());
            proof {
                let t = args@.take(i + 1);
                assert(t.drop_last() =~= args@.take(i as int));
                assert(t.last() == args@[i as int]);
                if i == 0 {
                    assert(t[0] == args@[0]);
                }
                assert(out@ =~= args_text(t));
            }
            i = i + 1;
        }
        proof {
            assert(args@.take(args@.len() as int) =~= args@);
        }
        out
    }

    /// The line of an instruction
    fn instruction_line(&self, instr: &FaInstruction) -> (r: String)
        ensures
            r@ == instruction_text(*instr),
    {
        let mut out = String::new();
        push_str(&mut out, "INSTR ");
        push_str(&mut out, instr.name.as_str());
        if instr.params.len() > 0 {
            push_str(&mut out, " { ");
            let p = self.fields_inline(&instr.params);
            push_str(&mut out, p.as_str());
            push_str(&mut out, " }");
        }
        proof {
            assert(out@ =~= instruction_text(*instr));
        }
        out
    }

    fn visit_instruction(&mut self, instr: &FaInstruction, level: usize)
        requires
            old(self).well_formed(),
        ensures
            final(self).well_formed(),
            final(self).text() == old(self).text() + dump_line(level as nat, instruction_text(*instr)),
    {
        let line = self.instruction_line(instr);
        self.write_string(level, line);
    }

    // =========================================================================
    // Backend, contract, scheme and theme members
    // =========================================================================

    fn visit_backend_member(&mut self, member: &FaBackendMember, level: usize)
        requires
            old(self).well_formed(),
        ensures
            final(self).well_formed(),
            final(self).text() == old(self).text() + backend_member_text(*member, level as nat),
    {
        let mut line = String::new();
        match member {
            FaBackendMember::Include(name) => {
                push_str(&mut line, "INCLUDE ");
                push_str(&mut line, name.as_str());
            },
            FaBackendMember::Field(field) => {
                push_str(&mut line, "FIELD ");
                push_str(&mut line, field.name.as_str());
                push_str(&mut line, " TYPE ");
                let t = self.type_inline(&field.type_expr);
                push_str(&mut line, t.as_str());
                if let Some(e) = &field.init {
                    push_str(&mut line, " INIT ");
                    let v = self.expr_inline(e);
                    push_str(&mut line, v.as_str());
                }
            },
            FaBackendMember::Method(method) => {
                push_str(&mut line, "METHOD ");
                push_str(&mut line, method.name.as_str());
                push_str(&mut line, "(");
                let p = self.params_inline(&method.params);
                push_str(&mut line, p.as_str());
                push_str(&mut line, ") RETURN ");
                let t = self.type_inline(&method.return_type);
                push_str(&mut line, t.as_str());
            },
            FaBackendMember::Command(command) => {
                push_str(&mut line, "COMMAND ");
                push_str(&mut line, command.name.as_str());
                push_str(&mut line, "(");
                let p = self.params_inline(&command.params);
                push_str(&mut line, p.as_str());
                push_str(&mut line, ")");
            },
        }
        let ghost text = line@;
        self.write_string(level, line);
        proof {
            match member {
                FaBackendMember::Include(name) => {
                    assert(text =~= "INCLUDE "@ + name@);
                },
                FaBackendMember::Field(f) => {
                    assert(text =~= "FIELD "@ + f.name@ + " TYPE "@ + type_text(f.type_expr) + match f.init {
                        Some(e) => " INIT "@ + expr_text(e),
                        None => seq![],
                    });
                },
                FaBackendMember::Method(m) => {
                    assert(text =~= "METHOD "@ + m.name@ + "("@ + params_text(m.params@) + ") RETURN "@
                        + type_text(m.return_type));
                },
                FaBackendMember::Command(c) => {
                    assert(text =~= "COMMAND "@ + c.name@ + "("@ + params_text(c.params@) + ")"@);
                },
            }
        }
    }

    fn visit_contract_method(&mut self, method: &FaContractMethod, level: usize)
        requires
            old(self).well_formed(),
        ensures
            final(self).well_formed(),
            final(self).text() == old(self).text() + dump_line(level as nat, contract_method_text(*method)),
    {
        let mut line = String::new();
        push_str(&mut line, "METHOD ");
        push_str(&mut line, method.name.as_str());
        push_str(&mut line, "(");
        let p = self.params_inline(&method.params);
        push_str(&mut line, p.as_str());
        push_str(&mut line, ")");
        if let Some(t) = &method.return_type {
            push_str(&mut line, " RETURN ");
            let ts = self.type_inline(t);
            push_str(&mut line, ts.as_str());
        }
        proof {
            assert(line@ =~= contract_method_text(*method));
        }
        self.write_string(level, line);
    }

    /// Field instructions joined with `", "`
    fn field_instructions_inline(&self, is: &Vec<FaFieldInstruction>) -> (r: String)
        ensures
            r@ == field_instructions_text(is@),
    {
        let mut out = String::new();
        let mut i: usize = 0;
        while i < is.len()
            invariant
                i <= is@.len(),
                out@ == field_instructions_text(is@.take(i as int)),
            decreases is@.len() - i,
        {
            if i > 0 {
                push_str(&mut out, ", ");
            }
            let ghost before = out@;
            let fi = &is[i];
            push_str(&mut out, fi.name.as_str());
            if let Some(v) = &fi.value {
                push_str(&mut out, "(");
                let e = self.expr_inline(v);
                push_str(&mut out, e.as_str());
                push_str(&mut out, ")");
            }
            proof {
                let t = is@.take(i + 1);
                assert(t.drop_last() =~= is@.take(i as int));
                assert(t.last() == is@[i as int]);
                if i == 0 {
                    assert(t[0] == is@[0]);
                }
                assert(out@ =~= before + field_instruction_text(*fi));
                assert(out@ =~= field_instructions_text(t));
            }
            i = i + 1;
        }
        proof {
            assert(is@.take(is@.len() as int) =~= is@);
        }
        out
    }

    fn visit_scheme_member(&mut self, member: &FaSchemeMember, level: usize)
        requires
            old(self).well_formed(),
        ensures
            final(self).well_formed(),
            final(self).text() == old(self).text() + dump_line(level as nat, scheme_member_text(*member)),
    {
        let mut line = String::new();
        match member {
            FaSchemeMember::Field(field) => {
                push_str(&mut line, "FIELD ");
                push_str(&mut line, field.name.as_str());
                push_str(&mut line, " TYPE ");
                let t = self.type_inline(&field.type_expr);
                push_str(&mut line, t.as_str());
                if field.instructions.len() > 0 {
                    push_str(&mut line, " [");
                    let is = self.field_instructions_inline(&field.instructions);
                    push_str(&mut line, is.as_str());
                    push_str(&mut line, "]");
                }
            },
            FaSchemeMember::Virtual(vf) => {
                push_str(&mut line, "VIRTUAL ");
                push_str(&mut line, vf.name.as_str());
                push_str(&mut line, " TYPE ");
                let t = self.type_inline(&vf.type_expr);
                push_str(&mut line, t.as_str());
                push_str(&mut line, " = ");
                let e = self.expr_inline(&vf.expr);
                push_str(&mut line, e.as_str());
            },
        }
        proof {
            assert(line@ =~= scheme_member_text(*member));
        }
        self.write_string(level, line);
    }

    fn visit_theme_member(&mut self, member: &FaThemeMember, level: usize)
        requires
            old(self).well_formed(),
        ensures
            final(self).well_formed(),
            final(self).text() == old(self).text() + theme_member_text(*member, level as nat),
    {
        let ghost start = self.output@;
        match member {
            FaThemeMember::Include(name) => {
                let mut line = String::new();
                push_str(&mut line, "INCLUDE ");
                push_str(&mut line, name.as_str());
                self.write_string(level, line);
            },
            FaThemeMember::Field(field) => {
                let mut line = String::new();
                if field.is_asset {
                    push_str(&mut line, "ASSET ");
                }
                push_str(&mut line, "FIELD ");
                push_str(&mut line, field.name.as_str());
                push_str(&mut line, " TYPE ");
                let t = self.type_inline(&field.type_expr);
                push_str(&mut line, t.as_str());
                if let Some(e) = &field.init {
                    push_str(&mut line, " = ");
                    let v = self.expr_inline(e);
                    push_str(&mut line, v.as_str());
                }
                proof {
                    assert(line@ =~= (if field.is_asset { "ASSET "@ } else { seq![] }) + "FIELD "@ + field.name@
                        + " TYPE "@ + type_text(field.type_expr) + match field.init {
                        Some(e) => " = "@ + expr_text(e),
                        None => seq![],
                    });
                }
                self.write_string(level, line);
            },
            FaThemeMember::InstructionSet(set) => {
                let mut line = String::new();
                push_str(&mut line, "SET ");
                push_str(&mut line, set.name.as_str());
                self.write_string(level, line);
                let inner = indent(level);
                let ghost mid = self.output@;
                let mut i: usize = 0;
                while i < set.instructions.len()
                    invariant
                        self.well_formed(),
                        i <= set.instructions@.len(),
                        self.output@ == mid + instructions_text(set.instructions@.take(i as int), inner as nat),
                    decreases set.instructions@.len() - i,
                {
                    self.visit_instruction(&set.instructions[i], inner);
                    proof {
                        let t = set.instructions@.take(i + 1);
                        assert(t.drop_last() =~= set.instructions@.take(i as int));
                        assert(t.last() == set.instructions@[i as int]);
                        assert(self.output@ =~= mid + instructions_text(t, inner as nat));
                    }
                    i = i + 1;
                }
                proof {
                    assert(set.instructions@.take(set.instructions@.len() as int) =~= set.instructions@);
                }
            },
            FaThemeMember::Variant(variant) => {
                let mut line = String::new();
                push_str(&mut line, "VARIANT ");
                push_str(&mut line, variant.name.as_str());
                self.write_string(level, line);
                let inner = indent(level);
                let ghost mid = self.output@;
                let mut i: usize = 0;
                while i < variant.overrides.len()
                    invariant
                        self.well_formed(),
                        i <= variant.overrides@.len(),
                        self.output@ == mid + overrides_text(variant.overrides@.take(i as int), inner as nat),
                    decreases variant.overrides@.len() - i,
                {
                    let (name, value) = &variant.overrides[i];
                    let mut l = String::new();
                    push_str(&mut l, name.as_str());
                    push_str(&mut l, " = ");
                    let v = self.expr_inline(value);
                    push_str(&mut l, v.as_str());
                    self.write_string(inner, l);
                    proof {
                        let t = variant.overrides@.take(i + 1);
                        assert(t.drop_last() =~= variant.overrides@.take(i as int));
                        assert(t.last() == variant.overrides@[i as int]);
                        assert(self.output@ =~= mid + overrides_text(t, inner as nat));
                    }
                    i = i + 1;
                }
                proof {
                    assert(variant.overrides@.take(variant.overrides@.len() as int) =~= variant.overrides@);
                }
            },
        }
        proof {
            assert(self.output@ =~= start + theme_member_text(*member, level as nat));
        }
    }

    // =========================================================================
    // Blueprint members
    // =========================================================================

    fn visit_blueprint_stmts(&mut self, stmts: &Vec<FaBlueprintStmt>, level: usize)
        requires
            old(self).well_formed(),
        ensures
            final(self).well_formed(),
            final(self).text() == old(self).text() + stmts_text(stmts@, level as nat),
        decreases stmts@,
    {
        let ghost start = self.output@;
        let mut i: usize = 0;
        while i < stmts.len()
            invariant
                self.well_formed(),
                i <= stmts@.len(),
                self.output@ == start + stmts_text(stmts@.take(i as int), level as nat),
            decreases stmts@.len() - i,
        {
            self.visit_blueprint_stmt(&stmts[i], level);
            proof {
                let t = stmts@.take(i + 1);
                assert(t.drop_last() =~= stmts@.take(i as int));
                assert(t.last() == stmts@[i as int]);
                assert(self.output@ =~= start + stmts_text(t, level as nat));
            }
            i = i + 1;
        }
        proof {
            assert(stmts@.take(stmts@.len() as int) =~= stmts@);
        }
    }

    fn visit_blueprint_stmt(&mut self, stmt: &FaBlueprintStmt, level: usize)
        requires
            old(self).well_formed(),
        ensures
            final(self).well_formed(),
            final(self).text() == old(self).text() + stmt_text(*stmt, level as nat),
        decreases stmt,
    {
        match stmt {
            FaBlueprintStmt::With(name) => {
                let mut line = String::new();
                push_str(&mut line, "WITH ");
                push_str(&mut line, name.as_str());
                self.write_string(level, line);
            },
            FaBlueprintStmt::LocalDecl(decl) => {
                self.visit_local_decl(decl, level);
            },
            FaBlueprintStmt::FragmentCreation(frag) => {
                self.visit_fragment_creation(frag, level);
            },
            FaBlueprintStmt::Control(ctrl) => {
                self.visit_control_stmt(ctrl, level);
            },
            FaBlueprintStmt::Instruction(instr) => {
                self.visit_instruction(instr, level);
            },
            FaBlueprintStmt::EventHandler(handler) => {
                self.visit_event_handler(handler, level);
            },
            FaBlueprintStmt::ContentExpr(expr) => {
                let mut line = String::new();
                push_str(&mut line, "CONTENT ");
                let e = self.expr_inline(expr);
                push_str(&mut line, e.as_str());
                self.write_string(level, line);
            },
        }
    }

    fn visit_local_decl(&mut self, decl: &FaLocalDecl, level: usize)
        requires
            old(self).well_formed(),
        ensures
            final(self).well_formed(),
            final(self).text() == old(self).text() + dump_line(
                level as nat,
                "LOCAL "@ + decl.name@ + " TYPE "@ + type_text(decl.type_expr) + " INIT "@ + expr_text(decl.init),
            ),
    {
        let mut line = String::new();
        push_str(&mut line, "LOCAL ");
        push_str(&mut line, decl.name.as_str());
        push_str(&mut line, " TYPE ");
        let t = self.type_inline(&decl.type_expr);
        push_str(&mut line, t.as_str());
        push_str(&mut line, " INIT ");
        let e = self.expr_inline(&decl.init);
        push_str(&mut line, e.as_str());
        proof {
            assert(line@ =~= "LOCAL "@ + decl.name@ + " TYPE "@ + type_text(decl.type_expr) + " INIT "@
                + expr_text(decl.init));
        }
        self.write_string(level, line);
    }

    fn visit_fragment_creation(&mut self, frag: &FaFragmentCreation, level: usize)
        requires
            old(self).well_formed(),
        ensures
            final(self).well_formed(),
            final(self).text() == old(self).text() + fragment_text(*frag, level as nat),
        decreases frag,
    {
        let ghost start = self.output@;
        let mut line = String::new();
        if frag.name.as_str().is_empty() {
            push_str(&mut line, "BLOCK");
        } else {
            push_str(&mut line, "FRAGMENT ");
            push_str(&mut line, frag.name.as_str());
        }
        if frag.args.len() > 0 {
            push_str(&mut line, " ARGS(");
            let a = self.args_inline(&frag.args);
            push_str(&mut line, a.as_str());
            push_str(&mut line, ")");
        }
        proof {
            assert(line@ =~= fragment_header(*frag));
        }
        self.write_string(level, line);
        let inner = indent(level);
        if let Some(body) = &frag.body {
            self.visit_fragment_body(body, inner);
        }
        self.visit_postfix_items(&frag.postfix, inner);
        proof {
            assert(self.output@ =~= start + fragment_text(*frag, level as nat));
        }
    }

    fn visit_postfix_items(&mut self, items: &Vec<FaPostfixItem>, level: usize)
        requires
            old(self).well_formed(),
        ensures
            final(self).well_formed(),
            final(self).text() == old(self).text() + postfixes_text(items@, level as nat),
    {
        let ghost start = self.output@;
        let mut i: usize = 0;
        while i < items.len()
            invariant
                self.well_formed(),
                i <= items@.len(),
                self.output@ == start + postfixes_text(items@.take(i as int), level as nat),
            decreases items@.len() - i,
        {
            match &items[i] {
                FaPostfixItem::Instruction(instr) => self.visit_instruction(instr, level),
                FaPostfixItem::EventHandler(handler) => self.visit_event_handler(handler, level),
            }
            proof {
                let t = items@.take(i + 1);
                assert(t.drop_last() =~= items@.take(i as int));
                assert(t.last() == items@[i as int]);
                assert(self.output@ =~= start + postfixes_text(t, level as nat));
            }
            i = i + 1;
        }
        proof {
            assert(items@.take(items@.len() as int) =~= items@);
        }
    }

    /// `INLINE(params)`
    fn inline_header(&self, params: &Vec<String>) -> (r: String)
        ensures
            r@ == "INLINE("@ + strings_text(params@, ", "@) + ")"@,
    {
        let mut line = String::new();
        push_str(&mut line, "INLINE(");
        push_joined(&mut line, params, ", ");
        push_str(&mut line, ")");
        proof {
            assert(line@ =~= "INLINE("@ + strings_text(params@, ", "@) + ")"@);
        }
        line
    }

    fn visit_fragment_body(&mut self, body: &FaFragmentBody, level: usize)
        requires
            old(self).well_formed(),
        ensures
            final(self).well_formed(),
            final(self).text() == old(self).text() + fragment_body_text(*body, level as nat),
        decreases body,
    {
        let ghost start = self.output@;
        match body {
            FaFragmentBody::Default(stmts) => {
                self.visit_blueprint_stmts(stmts, level);
            },
            FaFragmentBody::Slots(slots) => {
                self.visit_slot_bindings(slots, level);
            },
            FaFragmentBody::InlineBlueprint { params, body } => {
                let line = self.inline_header(params);
                self.write_string(level, line);
                self.visit_blueprint_stmts(body, indent(level));
            },
        }
        proof {
            assert(self.output@ =~= start + fragment_body_text(*body, level as nat));
        }
    }

    fn visit_slot_bindings(&mut self, slots: &Vec<FaSlotBinding>, level: usize)
        requires
            old(self).well_formed(),
        ensures
            final(self).well_formed(),
            final(self).text() == old(self).text() + slots_text(slots@, level as nat),
        decreases slots@,
    {
        let ghost start = self.output@;
        let mut i: usize = 0;
        while i < slots.len()
            invariant
                self.well_formed(),
                i <= slots@.len(),
                self.output@ == start + slots_text(slots@.take(i as int), level as nat),
            decreases slots@.len() - i,
        {
            let binding = &slots[i];
            let mut line = String::new();
            push_str(&mut line, "SLOT ");
            push_str(&mut line, binding.slot_name.as_str());
            self.write_string(level, line);
            self.visit_blueprint_value(&binding.blueprint, indent(level));
            proof {
                let t = slots@.take(i + 1);
                assert(t.drop_last() =~= slots@.take(i as int));
                assert(t.last() == slots@[i as int]);
                assert(self.output@ =~= start + slots_text(t, level as nat));
            }
            i = i + 1;
        }
        proof {
            assert(slots@.take(slots@.len() as int) =~= slots@);
        }
    }

    fn visit_blueprint_value(&mut self, value: &FaBlueprintValue, level: usize)
        requires
            old(self).well_formed(),
        ensures
            final(self).well_formed(),
            final(self).text() == old(self).text() + blueprint_value_text(*value, level as nat),
        decreases value,
    {
        let ghost start = self.output@;
        match value {
            FaBlueprintValue::Reference(name) => {
                let mut line = String::new();
                push_str(&mut line, "REF ");
                push_str(&mut line, name.as_str());
                self.write_string(level, line);
            },
            FaBlueprintValue::Inline { params, body } => {
                let line = self.inline_header(params);
                self.write_string(level, line);
                self.visit_blueprint_stmts(body, indent(level));
            },
        }
        proof {
            assert(self.output@ =~= start + blueprint_value_text(*value, level as nat));
        }
    }

    fn visit_control_stmt(&mut self, ctrl: &FaControlStmt, level: usize)
        requires
            old(self).well_formed(),
        ensures
            final(self).well_formed(),
            final(self).text() == old(self).text() + control_text(*ctrl, level as nat),
        decreases ctrl,
    {
        let ghost start = self.output@;
        let inner = indent(level);
        match ctrl {
            FaControlStmt::When { condition, then_stmt, else_stmt } => {
                let mut line = String::new();
                push_str(&mut line, "WHEN ");
                let c = self.expr_inline(condition);
                push_str(&mut line, c.as_str());
                self.write_string(level, line);
                self.visit_blueprint_stmt(then_stmt, inner);
                if let Some(else_s) = else_stmt {
                    self.write(level, "ELSE");
                    self.visit_blueprint_stmt(else_s, inner);
                }
            },
            FaControlStmt::Repeat { iterable, item_name, key_expr, body } => {
                let mut line = String::new();
                push_str(&mut line, "REPEAT ");
                match item_name {
                    Some(item) => push_str(&mut line, item.as_str()),
                    None => push_str(&mut line, "it"),
                }
                push_str(&mut line, " ON ");
                let it = self.expr_inline(iterable);
                push_str(&mut line, it.as_str());
                if let Some(k) = key_expr {
                    push_str(&mut line, " BY ");
                    let ks = self.expr_inline(k);
                    push_str(&mut line, ks.as_str());
                }
                proof {
                    assert(line@ =~= "REPEAT "@ + match item_name {
                        Some(item) => item@,
                        None => "it"@,
                    } + " ON "@ + expr_text(*iterable) + match key_expr {
                        Some(k) => " BY "@ + expr_text(*k),
                        None => seq![],
                    });
                }
                self.write_string(level, line);
                self.visit_blueprint_stmt(body, inner);
            },
            FaControlStmt::Select { discriminant, branches, else_branch } => {
                let mut line = String::new();
                push_str(&mut line, "SELECT");
                if let Some(d) = discriminant {
                    push_str(&mut line, " ON ");
                    let ds = self.expr_inline(d);
                    push_str(&mut line, ds.as_str());
                }
                proof {
                    assert(line@ =~= "SELECT"@ + match discriminant {
                        Some(d) => " ON "@ + expr_text(*d),
                        None => seq![],
                    });
                }
                self.write_string(level, line);
                self.visit_select_branches(branches, inner);
                if let Some(else_b) = else_branch {
                    self.write(inner, "ELSE");
                    self.visit_blueprint_stmt(else_b, indent(inner));
                }
            },
        }
        proof {
            assert(self.output@ =~= start + control_text(*ctrl, level as nat));
        }
    }

    fn visit_select_branches(&mut self, branches: &Vec<FaSelectBranch>, level: usize)
        requires
            old(self).well_formed(),
        ensures
            final(self).well_formed(),
            final(self).text() == old(self).text() + branches_text(branches@, level as nat),
        decreases branches@,
    {
        let ghost start = self.output@;
        let mut i: usize = 0;
        while i < branches.len()
            invariant
                self.well_formed(),
                i <= branches@.len(),
                self.output@ == start + branches_text(branches@.take(i as int), level as nat),
            decreases branches@.len() - i,
        {
            let branch = &branches[i];
            let mut line = String::new();
            push_str(&mut line, "CASE ");
            let c = self.expr_inline(&branch.condition);
            push_str(&mut line, c.as_str());
            self.write_string(level, line);
            self.visit_blueprint_stmt(&branch.body, indent(level));
            proof {
                let t = branches@.take(i + 1);
                assert(t.drop_last() =~= branches@.take(i as int));
                assert(t.last() == branches@[i as int]);
                assert(self.output@ =~= start + branches_text(t, level as nat));
            }
            i = i + 1;
        }
        proof {
            assert(branches@.take(branches@.len() as int) =~= branches@);
        }
    }

    /// Dump an instruction expression at a level
    pub fn visit_instruction_expr(&mut self, instr: &FaInstructionExpr, level: usize)
        requires
            old(self).well_formed(),
        ensures
            final(self).well_formed(),
            final(self).text() == old(self).text() + instruction_expr_text(*instr, level as nat),
        decreases instr,
    {
        let ghost start = self.output@;
        let inner = indent(level);
        match instr {
            FaInstructionExpr::Simple(simple) => self.visit_instruction(simple, level),
            FaInstructionExpr::When { condition, then_instr, else_instr } => {
                let mut line = String::new();
                push_str(&mut line, "WHEN ");
                let c = self.expr_inline(condition);
                push_str(&mut line, c.as_str());
                self.write_string(level, line);
                self.visit_instruction_expr(then_instr, inner);
                if let Some(else_i) = else_instr {
                    self.write(level, "ELSE");
                    self.visit_instruction_expr(else_i, inner);
                }
            },
            FaInstructionExpr::Ternary { condition, then_instr, else_instr } => {
                let mut line = String::new();
                push_str(&mut line, "TERNARY ");
                let c = self.expr_inline(condition);
                push_str(&mut line, c.as_str());
                self.write_string(level, line);
                self.write(inner, "THEN");
                self.visit_instruction_expr(then_instr, indent(inner));
                self.write(inner, "ELSE");
                self.visit_instruction_expr(else_instr, indent(inner));
            },
            FaInstructionExpr::Reference(expr) => {
                let mut line = String::new();
                push_str(&mut line, "INSTR_REF ");
                let e = self.expr_inline(expr);
                push_str(&mut line, e.as_str());
                self.write_string(level, line);
            },
        }
        proof {
            assert(self.output@ =~= start + instruction_expr_text(*instr, level as nat));
        }
    }

    fn visit_event_handler(&mut self, handler: &FaEventHandler, level: usize)
        requires
            old(self).well_formed(),
        ensures
            final(self).well_formed(),
            final(self).text() == old(self).text() + handler_text(*handler, level as nat),
    {
        let ghost start = self.output@;
        let mut line = String::new();
        push_str(&mut line, "ON ");
        push_str(&mut line, handler.event_name.as_str());
        if let Some(p) = &handler.param {
            push_str(&mut line, "(");
            push_str(&mut line, p.name.as_str());
            if let Some(t) = &p.type_expr {
                push_str(&mut line, ": ");
                let ts = self.type_inline(t);
                push_str(&mut line, ts.as_str());
            }
            push_str(&mut line, ")");
        }
        proof {
            assert(line@ =~= "ON "@ + handler.event_name@ + event_param_text(handler.param));
        }
        self.write_string(level, line);
        let inner = indent(level);
        let ghost mid = self.output@;
        let mut i: usize = 0;
        while i < handler.body.len()
            invariant
                self.well_formed(),
                i <= handler.body@.len(),
                self.output@ == mid + handler_stmts_text(handler.body@.take(i as int), inner as nat),
            decreases handler.body@.len() - i,
        {
            self.visit_handler_stmt(&handler.body[i], inner);
            proof {
                let t = handler.body@.take(i + 1);
                assert(t.drop_last() =~= handler.body@.take(i as int));
                assert(t.last() == handler.body@[i as int]);
                assert(self.output@ =~= mid + handler_stmts_text(t, inner as nat));
            }
            i = i + 1;
        }
        proof {
            assert(handler.body@.take(handler.body@.len() as int) =~= handler.body@);
            assert(self.output@ =~= start + handler_text(*handler, level as nat));
        }
    }

    fn visit_handler_stmt(&mut self, stmt: &FaHandlerStmt, level: usize)
        requires
            old(self).well_formed(),
        ensures
            final(self).well_formed(),
            final(self).text() == old(self).text() + dump_line(level as nat, handler_stmt_text(*stmt)),
    {
        let mut line = String::new();
        match stmt {
            FaHandlerStmt::Assignment { name, value } => {
                push_str(&mut line, name.as_str());
                push_str(&mut line, " = ");
                let v = self.expr_inline(value);
                push_str(&mut line, v.as_str());
            },
            FaHandlerStmt::CommandCall { name, args } => {
                push_str(&mut line, name.as_str());
                push_str(&mut line, "(");
                let a = self.exprs_inline(args);
                push_str(&mut line, a.as_str());
                push_str(&mut line, ")");
            },
        }
        proof {
            assert(line@ =~= handler_stmt_text(*stmt));
        }
        self.write_string(level, line);
    }

    fn types_inline(&self, ts: &Vec<FaTypeExpr>) -> (r: String)
        ensures
            r@ == types_text(ts@),
        decreases ts@,
    {
        let mut out = String::new();
        let mut i: usize = 0;
        while i < ts.len()
            invariant
                i <= ts@.len(),
                out@ == types_text(ts@.take(i as int)),
            decreases ts@.len() - i,
        {
            if i > 0 {
                push_str(&mut out, ", ");
            }
            let s = self.type_inline(&ts[i]);
            push_str(&mut out, s.as_str());
            proof {
                let t = ts@.take(i + 1);
                assert(t.drop_last() =~= ts@.take(i as int));
                assert(t.last() == ts@[i as int]);
                if i == 0 {
                    assert(t[0] == ts@[0]);
                }
                assert(out@ =~= types_text(t));
            }
            i = i + 1;
        }
        proof {
            assert(ts@.take(ts@.len() as int) =~= ts@);
        }
        out
    }
}

} // verus!
