//! Expression type inference: the type of each expression, checked against
//! an expected type where one is declared, and the errors it shows.
//!
//! Types built from recorded ones are copies, equal to them structurally
//! (`type_equiv`); the rules treat structurally equal types alike, so the
//! contracts state results up to that equality.

use vstd::prelude::*;
use vstd::string::*;
use std::collections::HashMap;
use crate::ast::{FaExpr, FaTemplateElement};
use crate::diagnostic::codes::{e0301_spec, e0401_spec, e0405_spec, e0406_spec, ErrorCode, E0301, E0401, E0406};
use crate::diagnostic::{Diagnostic, Diagnostics};
use crate::semantic::entry_for;
use crate::semantic::scope::{ancestors_of, Scope, ScopeGraph, ScopeId};
use crate::semantic::symbol::{lookup_chain, lookup_entry, LookupEntry, Symbol, SymbolId, SymbolTable};
use crate::semantic::types::{
    clone_type, lemma_equiv_head, lemma_equiv_symmetric, lemma_equiv_text, lemma_equiv_transitive,
    lemma_type_equiv_refl, type_equiv, Type,
};
use crate::source::Span;
use crate::text::push_str;
use super::operators::{
    binary_error_message, binary_result, compatible, expect_bool, infer_binary_op_type, infer_unary_op_type,
    lemma_binary_result_equiv, lemma_compatible_equiv, lemma_unary_equiv, reported, types_compatible,
    unary_accepts, unary_error_message,
};
use super::resolution::{identifier_type, lookup_identifier_type, spans_distinct};

verus! {

/// An error to report: its code and its message.
pub type Note = (ErrorCode, Seq<char>);

/// `added` are the diagnostics for the notes, in order, each at `span`.
pub open spec fn notes_reported(added: Seq<Diagnostic>, notes: Seq<Note>, span: Span) -> bool {
    &&& added.len() == notes.len()
    &&& forall|k: int| 0 <= k < notes.len() ==> (#[trigger] added[k]).is_coded(notes[k].0, span, notes[k].1)
}

/// The type of a value that may be absent: the type itself if it is
/// nullable already.
pub open spec fn nullable_of(t: Type) -> Type {
    if t.spec_is_nullable() {
        t
    } else {
        Type::Nullable(Box::new(t))
    }
}

/// What calling a value of a type yields: a function its result, a
/// blueprint a fragment (unit), anything else an unknown type.
pub open spec fn call_result(t: Type) -> Type {
    match t {
        Type::Function { ret, .. } => *ret,
        Type::Blueprint(_) => Type::Unit,
        _ => Type::Unknown,
    }
}

/// The errors a condition of a type shows: none for `bool`, unknown or error types.
pub open spec fn bool_notes(t: Type) -> Seq<Note> {
    if t is Bool || t is Unknown || t is Error {
        Seq::empty()
    } else {
        seq![(e0401_spec(), "expected `bool`, found `"@ + t.text_spec() + "`"@)]
    }
}

/// The type of an integer literal: `i32` where the value fits, else `i64`.
pub open spec fn int_type(n: i64) -> Type {
    if i32::MIN <= n <= i32::MAX {
        Type::I32
    } else {
        Type::I64
    }
}

/// Expression type checker
pub struct ExprChecker<'a> {
    pub scopes: &'a ScopeGraph,
    pub symbols: &'a SymbolTable,
    /// The types recorded for symbols, by symbol id
    pub symbol_types: &'a HashMap<u32, Type>,
    pub current_scope: ScopeId,
    /// Where errors are reported, and the key of the types recorded (an
    /// expression carries no span of its own)
    pub context_span: Span,
    /// The type of each expression checked, by span
    pub expr_types: Vec<(Span, Type)>,
    pub diagnostics: Diagnostics,
}

impl<'a> ExprChecker<'a> {
    /// The checker's context is usable: the symbol table and the scope graph
    /// are well formed, and no span is recorded twice.
    pub open spec fn well_formed(&self) -> bool {
        &&& self.symbols.wf()
        &&& self.scopes.wf()
        &&& spans_distinct(self.expr_types@)
    }

    /// The same context, and the diagnostics only added to.
    pub open spec fn keeps_context(&self, old: &Self) -> bool {
        &&& self.scopes == old.scopes
        &&& self.symbols == old.symbols
        &&& self.symbol_types == old.symbol_types
        &&& self.current_scope == old.current_scope
        &&& self.context_span == old.context_span
        &&& self.diagnostics@.len() >= old.diagnostics@.len()
        &&& self.diagnostics@.subrange(0, old.diagnostics@.len() as int) == old.diagnostics@
    }

    /// The diagnostics added since `old`.
    pub open spec fn added_since(&self, old: &Self) -> Seq<Diagnostic> {
        self.diagnostics@.subrange(old.diagnostics@.len() as int, self.diagnostics@.len() as int)
    }

    /// The type recorded for `span` is equivalent to `t`, and the records of
    /// other spans are those of `old`.
    pub open spec fn recorded(&self, old: &Self, span: Span, t: Type) -> bool {
        &&& entry_for(self.expr_types@, span) matches Some(x) && type_equiv(x, t)
        &&& forall|other: Span| other != span ==> entry_for(self.expr_types@, other) == entry_for(old.expr_types@, other)
    }

    /// What checking reads.
    pub open spec fn ctx(&self) -> Ctx {
        (self.scopes@, self.symbols.symbols(), self.symbols.entries(), self.symbol_types@, self.current_scope)
    }
}

/// What expression checking reads: the scopes, the symbols, the name
/// lookup entries, the types recorded for symbols (by id), and the scope the
/// expressions stand in.
pub type Ctx = (Seq<Scope>, Seq<Symbol>, Seq<LookupEntry>, Map<u32, Type>, ScopeId);

/// The type of an identifier: that of the symbol the scope chain finds,
/// or the error type where none is found.
pub open spec fn identifier_type_of(c: Ctx, name: Seq<char>) -> Type {
    match identifier_type(
        lookup_chain(
            c.2,
            seq![c.4] + ancestors_of(c.0, c.4),
            name,
        ),
        c.1,
        c.3,
    ) {
        Some(t) => t,
        None => Type::Error,
    }
}

/// The member `name` of the declaration with id `id`, where the
/// declaration has a body scope that holds a symbol of that name.
pub open spec fn member(c: Ctx, id: SymbolId, name: Seq<char>) -> Option<SymbolId> {
    let syms = c.1;
    if (id.0 as int) < syms.len() {
        match syms[id.0 as int].body_scope {
            Some(bs) => lookup_entry(c.2, bs, name),
            None => None,
        }
    } else {
        None
    }
}

/// The type recorded for a member, or unknown.
pub open spec fn member_type(c: Ctx, id: SymbolId) -> Type {
    if c.3.contains_key(id.0) {
        c.3[id.0]
    } else {
        Type::Unknown
    }
}

/// The name of a type in messages: declared types by their names.
pub open spec fn type_label(c: Ctx, t: Type) -> Seq<char>
    decreases t,
{
    let syms = c.1;
    match t {
        Type::Scheme(id) | Type::Backend(id) | Type::Blueprint(id) | Type::Contract(id) | Type::Theme(id)
        | Type::Enum(id) => if (id.0 as int) < syms.len() {
            syms[id.0 as int].name@
        } else {
            t.text_spec()
        },
        Type::Ref(inner) => "ref "@ + type_label(c, *inner),
        Type::Draft(inner) => "draft "@ + type_label(c, *inner),
        Type::Nullable(inner) => type_label(c, *inner) + "?"@,
        Type::List(inner) => "List<"@ + type_label(c, *inner) + ">"@,
        Type::SetOf(inner) => "Set<"@ + type_label(c, *inner) + ">"@,
        Type::MapOf(k, v) => "Map<"@ + type_label(c, *k) + ", "@ + type_label(c, *v) + ">"@,
        Type::Tree(inner) => "Tree<"@ + type_label(c, *inner) + ">"@,
        _ => t.text_spec(),
    }
}

/// The type of a field access on a type, and the error it shows: members
/// of schemes, backends and themes, methods of contracts, variants of
/// enums (of the enum's type); through references; nothing on nullable
/// types (that takes `?.`) or on other types.
pub open spec fn field_access(c: Ctx, base: Type, field: Seq<char>) -> (Type, Seq<Note>)
    decreases base,
{
    let syms = c.1;
    match base {
        Type::Ref(inner) => field_access(c, *inner, field),
        Type::Scheme(id) | Type::Backend(id) | Type::Theme(id) => match member(c, id, field) {
            Some(f) if (f.0 as int) < syms.len() => (member_type(c, f), Seq::empty()),
            _ => (
                Type::Error,
                seq![
                    (e0301_spec(), "no field `"@ + field + "` on type `"@ + type_label(c, base) + "`"@),
                ],
            ),
        },
        Type::Contract(id) => match member(c, id, field) {
            Some(f) if (f.0 as int) < syms.len() => (member_type(c, f), Seq::empty()),
            _ => (
                Type::Error,
                seq![
                    (e0301_spec(), "no method `"@ + field + "` on contract `"@ + type_label(c, base) + "`"@),
                ],
            ),
        },
        Type::Enum(id) => if member(c, id, field) is Some {
            (base, Seq::empty())
        } else {
            (
                Type::Error,
                seq![(e0301_spec(), "no variant `"@ + field + "` in enum `"@ + type_label(c, base) + "`"@)],
            )
        },
        Type::Nullable(_) => (
            Type::Error,
            seq![(e0406_spec(), "cannot access field on nullable type without optional chaining `?.`"@)],
        ),
        Type::Error | Type::Unknown => (Type::Error, Seq::empty()),
        _ => (Type::Error, seq![(e0401_spec(), "type `"@ + type_label(c, base) + "` does not have fields"@)]),
    }
}

/// The type of a qualified name `a.b.c` after its first `k` parts, from
/// the type `t` of its first part, and the errors the accesses show.
pub open spec fn qualified(c: Ctx, t: Type, parts: Seq<String>, k: nat) -> (Type, Seq<Note>)
    decreases k,
{
    if k <= 1 || k > parts.len() {
        (t, Seq::empty())
    } else {
        let prev = qualified(c, t, parts, (k - 1) as nat);
        let step = field_access(c, prev.0, parts[k - 1]@);
        (step.0, prev.1 + step.1)
    }
}

/// The type of an expression and the errors it shows, in the order they
/// are found.
pub open spec fn inferred(c: Ctx, e: FaExpr) -> (Type, Seq<Note>)
    decreases e, 0nat,
{
    match e {
        FaExpr::Null => (Type::Nullable(Box::new(Type::Unknown)), Seq::empty()),
        FaExpr::Bool(_) => (Type::Bool, Seq::empty()),
        FaExpr::Int(n) => (int_type(n), Seq::empty()),
        FaExpr::Float(_) => (Type::F64, Seq::empty()),
        FaExpr::Color(_) => (Type::Color, Seq::empty()),
        FaExpr::String(_) => (Type::String, Seq::empty()),
        FaExpr::StringTemplate(elements) => (Type::String, template_notes(c, elements@, elements@.len())),
        FaExpr::List(items) => if items@.len() == 0 {
            (Type::List(Box::new(Type::Unknown)), Seq::empty())
        } else {
            let first = inferred(c, items@[0]);
            (Type::List(Box::new(first.0)), first.1 + list_notes(c, first.0, items@, items@.len()))
        },
        FaExpr::Object(fields) => (Type::Unknown, field_notes(c, fields@, fields@.len())),
        FaExpr::Identifier(name) => (identifier_type_of(c, name@), Seq::empty()),
        FaExpr::QualifiedName(parts) => if parts@.len() == 0 {
            (Type::Error, Seq::empty())
        } else {
            qualified(c, identifier_type_of(c, parts@[0]@), parts@, parts@.len())
        },
        FaExpr::Binary { op, left, right } => {
            let l = inferred(c, *left);
            let r = inferred(c, *right);
            match binary_result(op, l.0, r.0) {
                Some(t) => (t, l.1 + r.1),
                None => (Type::Error, l.1 + r.1 + seq![(e0405_spec(), binary_error_message(op, l.0, r.0))]),
            }
        },
        FaExpr::Unary { op, expr } => {
            let x = inferred(c, *expr);
            if unary_accepts(op, x.0) {
                (x.0, x.1)
            } else {
                (Type::Error, x.1 + seq![(e0401_spec(), unary_error_message(op, x.0))])
            }
        },
        FaExpr::Ternary { condition, then_expr, else_expr } => {
            let k = inferred(c, *condition);
            let t = inferred(c, *then_expr);
            let f = inferred(c, *else_expr);
            let notes = k.1 + bool_notes(k.0) + t.1 + f.1;
            if compatible(t.0, f.0) {
                (t.0, notes)
            } else {
                (
                    Type::Error,
                    notes + seq![
                        (
                            e0401_spec(),
                            "ternary branches have incompatible types: `"@ + t.0.text_spec() + "` vs `"@
                                + f.0.text_spec() + "`"@,
                        ),
                    ],
                )
            }
        },
        FaExpr::FieldAccess { base, field } => {
            let b = inferred(c, *base);
            let a = field_access(c, b.0, field@);
            (a.0, b.1 + a.1)
        },
        FaExpr::OptionalChain { base, field } => {
            let b = inferred(c, *base);
            let inner = match b.0 {
                Type::Nullable(i) => *i,
                _ => b.0,
            };
            let a = field_access(c, inner, field@);
            (nullable_of(a.0), b.1 + a.1)
        },
        FaExpr::Call { callee, args } => {
            let f = inferred(c, *callee);
            (call_result(f.0), f.1 + args_notes(c, args@, args@.len()))
        },
    }
}

/// The errors of the interpolations among the first `n` template elements.
pub open spec fn template_notes(c: Ctx, elements: Seq<FaTemplateElement>, n: nat) -> Seq<Note>
    decreases elements, n,
{
    if n == 0 || n > elements.len() {
        Seq::empty()
    } else {
        template_notes(c, elements, (n - 1) as nat) + match elements[n - 1] {
            FaTemplateElement::Interpolation(inner) => inferred(c, *inner).1,
            FaTemplateElement::Text(_) => Seq::empty(),
        }
    }
}

/// The errors of list items 1 to `n - 1`: each item's own, then a
/// mismatch with the type `first` of the first item.
pub open spec fn list_notes(c: Ctx, first: Type, items: Seq<FaExpr>, n: nat) -> Seq<Note>
    decreases items, n,
{
    if n <= 1 || n > items.len() {
        Seq::empty()
    } else {
        let item = inferred(c, items[n - 1]);
        list_notes(c, first, items, (n - 1) as nat) + item.1 + if compatible(first, item.0) {
            Seq::empty()
        } else {
            seq![
                (
                    e0401_spec(),
                    "list element type mismatch: expected `"@ + first.text_spec() + "`, found `"@
                        + item.0.text_spec() + "`"@,
                ),
            ]
        }
    }
}

/// The errors of the values of the first `n` object fields.
pub open spec fn field_notes(c: Ctx, fields: Seq<(String, FaExpr)>, n: nat) -> Seq<Note>
    decreases fields, n,
{
    if n == 0 || n > fields.len() {
        Seq::empty()
    } else {
        field_notes(c, fields, (n - 1) as nat) + inferred(c, fields[n - 1].1).1
    }
}

/// The errors of the first `n` call arguments.
pub open spec fn args_notes(c: Ctx, args: Seq<FaExpr>, n: nat) -> Seq<Note>
    decreases args, n,
{
    if n == 0 || n > args.len() {
        Seq::empty()
    } else {
        args_notes(c, args, (n - 1) as nat) + inferred(c, args[n - 1]).1
    }
}

/// The type of an expression checked against an expected type: an empty
/// list takes the expected list type, and `null` the expected nullable
/// type; other expressions are inferred.
pub open spec fn checked(c: Ctx, e: FaExpr, expected: Type) -> (Type, Seq<Note>) {
    match e {
        FaExpr::List(items) if items@.len() == 0 => match expected {
            Type::List(elem) => (Type::List(elem), Seq::empty()),
            _ => (Type::List(Box::new(Type::Unknown)), Seq::empty()),
        },
        FaExpr::Null => match expected {
            Type::Nullable(inner) => (Type::Nullable(inner), Seq::empty()),
            _ => (Type::Nullable(Box::new(Type::Unknown)), Seq::empty()),
        },
        _ => inferred(c, e),
    }
}

// =========================================================================
// Notes and records compose
// =========================================================================

/// Diagnostics `d1` extend `d0` with the notes `n`, at `span`.
pub open spec fn extends_with(d0: Seq<Diagnostic>, d1: Seq<Diagnostic>, n: Seq<Note>, span: Span) -> bool {
    &&& d1.len() >= d0.len()
    &&& d1.subrange(0, d0.len() as int) == d0
    &&& notes_reported(d1.subrange(d0.len() as int, d1.len() as int), n, span)
}

/// Extensions add up.
proof fn lemma_extends_concat(
    d0: Seq<Diagnostic>,
    d1: Seq<Diagnostic>,
    d2: Seq<Diagnostic>,
    n1: Seq<Note>,
    n2: Seq<Note>,
    span: Span,
)
    requires
        extends_with(d0, d1, n1, span),
        extends_with(d1, d2, n2, span),
    ensures
        extends_with(d0, d2, n1 + n2, span),
{
    assert(d2.subrange(0, d0.len() as int) =~= d1.subrange(0, d0.len() as int));
    let a = d2.subrange(d0.len() as int, d2.len() as int);
    assert(a =~= d1.subrange(d0.len() as int, d1.len() as int) + d2.subrange(d1.len() as int, d2.len() as int));
    assert forall|k: int| 0 <= k < (n1 + n2).len() implies (#[trigger] a[k]).is_coded(
        (n1 + n2)[k].0,
        span,
        (n1 + n2)[k].1,
    ) by {
        if k < n1.len() {
            assert(a[k] == d1.subrange(d0.len() as int, d1.len() as int)[k]);
        } else {
            assert(a[k] == d2.subrange(d1.len() as int, d2.len() as int)[k - n1.len()]);
        }
    }
}

/// Nothing added is an extension by no notes.
proof fn lemma_extends_none(d: Seq<Diagnostic>, span: Span)
    ensures
        extends_with(d, d, Seq::empty(), span),
{
    assert(d.subrange(0, d.len() as int) =~= d);
    assert(d.subrange(d.len() as int, d.len() as int) =~= Seq::<Diagnostic>::empty());
}

/// One diagnostic reported is an extension by one note.
proof fn lemma_extends_one(d0: Seq<Diagnostic>, d1: Seq<Diagnostic>, code: ErrorCode, span: Span, message: Seq<char>)
    requires
        reported(d0, d1, code, span, message),
    ensures
        extends_with(d0, d1, seq![(code, message)], span),
{
    assert(d1.subrange(0, d0.len() as int) =~= d1.drop_last());
    assert(d1.subrange(d0.len() as int, d1.len() as int) =~= seq![d1.last()]);
}

/// Declared types by their names are named alike for equivalent types.
pub proof fn lemma_type_label_equiv(c: Ctx, a: Type, b: Type)
    requires
        type_equiv(a, b),
    ensures
        type_label(c, a) == type_label(c, b),
    decreases a,
{
    lemma_equiv_head(a, b);
    lemma_equiv_text(a, b);
    match (a, b) {
        (Type::Ref(x), Type::Ref(y)) => lemma_type_label_equiv(c, *x, *y),
        (Type::Draft(x), Type::Draft(y)) => lemma_type_label_equiv(c, *x, *y),
        (Type::Nullable(x), Type::Nullable(y)) => lemma_type_label_equiv(c, *x, *y),
        (Type::List(x), Type::List(y)) => lemma_type_label_equiv(c, *x, *y),
        (Type::SetOf(x), Type::SetOf(y)) => lemma_type_label_equiv(c, *x, *y),
        (Type::MapOf(k1, v1), Type::MapOf(k2, v2)) => {
            lemma_type_label_equiv(c, *k1, *k2);
            lemma_type_label_equiv(c, *v1, *v2);
        },
        (Type::Tree(x), Type::Tree(y)) => lemma_type_label_equiv(c, *x, *y),
        _ => {},
    }
}

/// Field access treats equivalent types alike.
pub proof fn lemma_field_access_equiv(c: Ctx, a: Type, b: Type, field: Seq<char>)
    requires
        type_equiv(a, b),
    ensures
        type_equiv(field_access(c, a, field).0, field_access(c, b, field).0),
        field_access(c, a, field).1 == field_access(c, b, field).1,
    decreases a,
{
    lemma_equiv_head(a, b);
    lemma_type_label_equiv(c, a, b);
    lemma_type_equiv_refl(Type::Error);
    match (a, b) {
        (Type::Ref(x), Type::Ref(y)) => lemma_field_access_equiv(c, *x, *y, field),
        (Type::Scheme(id), _) | (Type::Backend(id), _) | (Type::Theme(id), _) | (Type::Contract(id), _) => {
            match member(c, id, field) {
                Some(f) => lemma_type_equiv_refl(member_type(c, f)),
                None => {},
            }
        },
        _ => {},
    }
}

/// The nullable form treats equivalent types alike.
proof fn lemma_nullable_of_equiv(a: Type, b: Type)
    requires
        type_equiv(a, b),
    ensures
        type_equiv(nullable_of(a), nullable_of(b)),
{
    lemma_equiv_head(a, b);
}

/// Calling a value of function type yields that function's declared return
/// type, whatever its parameters; calling a blueprint yields a fragment (unit).
pub proof fn law_call_yields_return_type(params: Vec<Type>, ret: Type)
    ensures
        call_result(Type::Function { params, ret: Box::new(ret) }) == ret,
        forall|b: SymbolId| #[trigger] call_result(Type::Blueprint(b)) == Type::Unit,
{
}

/// A call expression whose callee has a function type has that function's
/// return type, whatever the arguments.
pub proof fn law_call_expression_type(c: Ctx, callee: Box<FaExpr>, args: Vec<FaExpr>)
    ensures
        inferred(c, *callee).0 matches Type::Function { ret, .. } ==> inferred(
            c,
            FaExpr::Call { callee, args },
        ).0 == *ret,
{
}

/// Calling a name whose recorded type is a function type (a backend command
/// or a contract method) yields that function's return type.
pub proof fn law_call_of_name(c: Ctx, name: String, args: Vec<FaExpr>)
    ensures
        identifier_type_of(c, name@) matches Type::Function { ret, .. } ==> inferred(
            c,
            FaExpr::Call { callee: Box::new(FaExpr::Identifier(name)), args },
        ).0 == *ret,
{
    let callee = FaExpr::Identifier(name);
    assert(inferred(c, callee).0 == identifier_type_of(c, name@));
    law_call_expression_type(c, Box::new(callee), args);
}

/// What a call yields treats equivalent types alike.
proof fn lemma_call_result_equiv(a: Type, b: Type)
    requires
        type_equiv(a, b),
    ensures
        type_equiv(call_result(a), call_result(b)),
{
    lemma_equiv_head(a, b);
    lemma_type_equiv_refl(Type::Unit);
    lemma_type_equiv_refl(Type::Unknown);
}

// =========================================================================
// Checking
// =========================================================================

impl<'a> ExprChecker<'a> {
    /// The records of spans other than the context span are those of `old`.
    pub open spec fn keeps_records(&self, old: &Self) -> bool {
        forall|other: Span| other != old.context_span ==> entry_for(self.expr_types@, other) == entry_for(
            old.expr_types@,
            other,
        )
    }

    /// `self` is `old` after work whose errors are `notes`: well formed, the
    /// same context, the records of other spans kept, and the notes reported
    /// at the context span.
    pub open spec fn stepped(&self, old: &Self, notes: Seq<Note>) -> bool {
        &&& self.well_formed()
        &&& self.keeps_context(old)
        &&& self.keeps_records(old)
        &&& extends_with(old.diagnostics@, self.diagnostics@, notes, old.context_span)
    }

    /// No work is a step with no notes.
    proof fn lemma_stepped_refl(s: Self)
        requires
            s.well_formed(),
        ensures
            s.stepped(&s, Seq::empty()),
    {
        lemma_extends_none(s.diagnostics@, s.context_span);
    }

    /// Steps add up.
    proof fn lemma_stepped_concat(a: Self, b: Self, c: Self, n1: Seq<Note>, n2: Seq<Note>)
        requires
            b.stepped(&a, n1),
            c.stepped(&b, n2),
        ensures
            c.stepped(&a, n1 + n2),
    {
        lemma_extends_concat(a.diagnostics@, b.diagnostics@, c.diagnostics@, n1, n2, a.context_span);
    }

    /// A checker with nothing recorded or reported.
    pub fn new(
        scopes: &'a ScopeGraph,
        symbols: &'a SymbolTable,
        symbol_types: &'a HashMap<u32, Type>,
        current_scope: ScopeId,
        context_span: Span,
    ) -> (r: Self)
        ensures
            r.scopes == scopes,
            r.symbols == symbols,
            r.symbol_types == symbol_types,
            r.current_scope == current_scope,
            r.context_span == context_span,
            r.expr_types@.len() == 0,
            r.diagnostics@.len() == 0,
    {
        ExprChecker {
            scopes,
            symbols,
            symbol_types,
            current_scope,
            context_span,
            expr_types: Vec::new(),
            diagnostics: Diagnostics::new(),
        }
    }

    /// Record the type of the context span, replacing an earlier record.
    fn record(&mut self, ty: Type)
        requires
            spans_distinct(old(self).expr_types@),
        ensures
            spans_distinct(final(self).expr_types@),
            entry_for(final(self).expr_types@, old(self).context_span) == Some(ty),
            final(self).keeps_records(old(self)),
            final(self).scopes == old(self).scopes,
            final(self).symbols == old(self).symbols,
            final(self).symbol_types == old(self).symbol_types,
            final(self).current_scope == old(self).current_scope,
            final(self).context_span == old(self).context_span,
            final(self).diagnostics == old(self).diagnostics,
    {
        let span = self.context_span;
        let ghost before = self.expr_types@;
        let mut i: usize = 0;
        while i < self.expr_types.len()
            invariant
                self.expr_types@ == before,
                before == old(self).expr_types@,
                spans_distinct(before),
                self.scopes == old(self).scopes,
                self.symbols == old(self).symbols,
                self.symbol_types == old(self).symbol_types,
                self.current_scope == old(self).current_scope,
                self.context_span == old(self).context_span,
                span == self.context_span,
                self.diagnostics == old(self).diagnostics,
                i <= before.len(),
                forall|j: int| 0 <= j < i ==> (#[trigger] before[j]).0 != span,
            decreases before.len() - i,
        {
            if self.expr_types[i].0 == span {
                let ghost old_entries = self.expr_types@;
                self.expr_types.set(i, (span, ty));
                proof {
                    super::resolution::lemma_entry_for_update(old_entries, i as int, span, ty);
                }
                return;
            }
            i = i + 1;
        }
        self.expr_types.push((span, ty));
        proof {
            super::resolution::lemma_entry_for_push(before, span, ty);
        }
    }

    /// Report an error at the context span.
    fn report(&mut self, code: &ErrorCode, message: &str)
        requires
            old(self).well_formed(),
        ensures
            final(self).stepped(old(self), seq![(*code, message@)]),
            final(self).expr_types == old(self).expr_types,
    {
        let ghost d0 = self.diagnostics@;
        self.diagnostics.add(Diagnostic::from_code(code, self.context_span, message));
        proof {
            assert(self.diagnostics@.drop_last() =~= d0);
            lemma_extends_one(d0, self.diagnostics@, *code, self.context_span, message@);
            assert(self.diagnostics@.subrange(0, d0.len() as int) =~= d0);
        }
    }
}

impl<'a> ExprChecker<'a> {
    /// The member `field` of the declaration `id`, looked up in its body scope.
    fn find_member(&self, id: SymbolId, field: &str) -> (r: Option<SymbolId>)
        requires
            self.symbols.wf(),
        ensures
            r == member(self.ctx(), id, field@),
    {
        match self.symbols.get(id) {
            Some(symbol) => match symbol.body_scope {
                Some(body_scope) => self.symbols.lookup_local(body_scope, field),
                None => None,
            },
            None => None,
        }
    }

    /// The type recorded for a member, or unknown.
    fn member_type_of(&self, id: SymbolId) -> (r: Type)
        ensures
            type_equiv(r, member_type(self.ctx(), id)),
    {
        match self.symbol_types.get(&id.0) {
            Some(t) => clone_type(t),
            None => Type::Unknown,
        }
    }

    /// Format a type for display in error messages, resolving symbol names
    pub fn describe_type(&self, ty: &Type) -> (r: String)
        ensures
            r@ == type_label(self.ctx(), *ty),
        decreases *ty,
    {
        let mut out = String::new();
        match ty {
            Type::Scheme(id) | Type::Backend(id) | Type::Blueprint(id) | Type::Contract(id) | Type::Theme(id)
            | Type::Enum(id) => match self.symbols.get(*id) {
                Some(symbol) => push_str(&mut out, symbol.name.as_str()),
                None => ty.push_text(&mut out),
            },
            Type::Ref(inner) => {
                push_str(&mut out, "ref ");
                let s = self.describe_type(inner);
                push_str(&mut out, s.as_str());
            },
            Type::Draft(inner) => {
                push_str(&mut out, "draft ");
                let s = self.describe_type(inner);
                push_str(&mut out, s.as_str());
            },
            Type::Nullable(inner) => {
                let s = self.describe_type(inner);
                push_str(&mut out, s.as_str());
                push_str(&mut out, "?");
            },
            Type::List(inner) => {
                push_str(&mut out, "List<");
                let s = self.describe_type(inner);
                push_str(&mut out, s.as_str());
                push_str(&mut out, ">");
            },
            Type::SetOf(inner) => {
                push_str(&mut out, "Set<");
                let s = self.describe_type(inner);
                push_str(&mut out, s.as_str());
                push_str(&mut out, ">");
            },
            Type::MapOf(k, v) => {
                push_str(&mut out, "Map<");
                let s = self.describe_type(k);
                push_str(&mut out, s.as_str());
                push_str(&mut out, ", ");
                let t = self.describe_type(v);
                push_str(&mut out, t.as_str());
                push_str(&mut out, ">");
            },
            Type::Tree(inner) => {
                push_str(&mut out, "Tree<");
                let s = self.describe_type(inner);
                push_str(&mut out, s.as_str());
                push_str(&mut out, ">");
            },
            _ => ty.push_text(&mut out),
        }
        proof {
            assert(out@ =~= type_label(self.ctx(), *ty));
        }
        out
    }

    /// Infer the result type of a function/method call
    fn infer_call_result_type(&self, callee_type: &Type) -> (r: Type)
        ensures
            type_equiv(r, call_result(*callee_type)),
    {
        proof {
            lemma_type_equiv_refl(Type::Unit);
            lemma_type_equiv_refl(Type::Unknown);
        }
        match callee_type {
            Type::Function { ret, .. } => clone_type(&**ret),
            // A blueprint instantiation yields a fragment, represented as unit
            Type::Blueprint(_) => Type::Unit,
            _ => Type::Unknown,
        }
    }

    /// The message `prefix` + `field` + `middle` + the name of `ty` + "`".
    fn access_message(&self, prefix: &str, field: &str, middle: &str, ty: &Type) -> (r: String)
        ensures
            r@ == prefix@ + field@ + middle@ + type_label(self.ctx(), *ty) + "`"@,
    {
        let mut message = String::new();
        push_str(&mut message, prefix);
        push_str(&mut message, field);
        push_str(&mut message, middle);
        let label = self.describe_type(ty);
        push_str(&mut message, label.as_str());
        push_str(&mut message, "`");
        proof {
            assert(message@ =~= prefix@ + field@ + middle@ + type_label(self.ctx(), *ty) + "`"@);
        }
        message
    }

    /// Resolve a field access on a type
    pub fn resolve_field_access(&mut self, base_type: &Type, field: &str) -> (r: Type)
        requires
            old(self).well_formed(),
        ensures
            final(self).stepped(old(self), field_access(old(self).ctx(), *base_type, field@).1),
            final(self).expr_types == old(self).expr_types,
            type_equiv(r, field_access(old(self).ctx(), *base_type, field@).0),
        decreases *base_type,
    {
        let ghost start = *self;
        let ghost c = self.ctx();
        proof {
            Self::lemma_stepped_refl(start);
            lemma_type_equiv_refl(Type::Error);
            reveal_strlit("no field `");
            reveal_strlit("` on type `");
            reveal_strlit("no method `");
            reveal_strlit("` on contract `");
            reveal_strlit("no variant `");
            reveal_strlit("` in enum `");
            reveal_strlit("type `");
            reveal_strlit("` does not have fields");
            reveal_strlit("`");
        }
        match base_type {
            // A reference is accessed through
            Type::Ref(inner) => self.resolve_field_access(inner, field),
            Type::Scheme(id) | Type::Backend(id) | Type::Theme(id) => {
                if let Some(field_id) = self.find_member(*id, field) {
                    if self.symbols.get(field_id).is_some() {
                        return self.member_type_of(field_id);
                    }
                }
                let message = self.access_message("no field `", field, "` on type `", base_type);
                self.report(&E0301(), message.as_str());
                Type::Error
            },
            Type::Contract(id) => {
                if let Some(method_id) = self.find_member(*id, field) {
                    if self.symbols.get(method_id).is_some() {
                        return self.member_type_of(method_id);
                    }
                }
                let message = self.access_message("no method `", field, "` on contract `", base_type);
                self.report(&E0301(), message.as_str());
                Type::Error
            },
            Type::Enum(id) => {
                // A variant has the type of its enum
                if self.find_member(*id, field).is_some() {
                    return clone_type(base_type);
                }
                let message = self.access_message("no variant `", field, "` in enum `", base_type);
                self.report(&E0301(), message.as_str());
                Type::Error
            },
            Type::Nullable(_) => {
                // A nullable value takes optional chaining
                self.report(&E0406(), "cannot access field on nullable type without optional chaining `?.`");
                Type::Error
            },
            Type::Error | Type::Unknown => Type::Error,
            _ => {
                let mut message = String::new();
                push_str(&mut message, "type `");
                let label = self.describe_type(base_type);
                push_str(&mut message, label.as_str());
                push_str(&mut message, "` does not have fields");
                proof {
                    assert(message@ =~= "type `"@ + type_label(c, *base_type) + "` does not have fields"@);
                }
                self.report(&E0401(), message.as_str());
                Type::Error
            },
        }
    }
}

impl<'a> ExprChecker<'a> {
    /// Check an expression against an expected type (bidirectional type
    /// checking): an empty list takes the expected list type, and `null` the
    /// expected nullable type; other expressions are inferred.
    pub fn check_expr_type(&mut self, expr: &FaExpr, expected: &Type) -> (r: Type)
        requires
            old(self).well_formed(),
        ensures
            final(self).stepped(old(self), checked(old(self).ctx(), *expr, *expected).1),
            type_equiv(r, checked(old(self).ctx(), *expr, *expected).0),
            final(self).recorded(old(self), old(self).context_span, r),
    {
        let ghost start = *self;
        proof {
            Self::lemma_stepped_refl(start);
            lemma_type_equiv_refl(Type::Unknown);
        }
        match expr {
            FaExpr::List(items) if items.len() == 0 => {
                let ty = match expected {
                    Type::List(elem) => Type::List(Box::new(clone_type(&**elem))),
                    _ => Type::List(Box::new(Type::Unknown)),
                };
                let rec = clone_type(&ty);
                self.record(rec);
                proof {
                    lemma_equiv_transitive(rec, ty, checked(start.ctx(), *expr, *expected).0);
                }
                ty
            },
            FaExpr::Null => {
                let ty = match expected {
                    Type::Nullable(inner) => Type::Nullable(Box::new(clone_type(&**inner))),
                    _ => Type::Nullable(Box::new(Type::Unknown)),
                };
                let rec = clone_type(&ty);
                self.record(rec);
                proof {
                    lemma_equiv_transitive(rec, ty, checked(start.ctx(), *expr, *expected).0);
                }
                ty
            },
            _ => self.infer_expr_type(expr),
        }
    }

    /// Infer the type of an expression, recorded for the context span (an
    /// expression carries no span of its own).
    pub fn infer_expr_type(&mut self, expr: &FaExpr) -> (r: Type)
        requires
            old(self).well_formed(),
        ensures
            final(self).stepped(old(self), inferred(old(self).ctx(), *expr).1),
            type_equiv(r, inferred(old(self).ctx(), *expr).0),
            final(self).recorded(old(self), old(self).context_span, r),
        decreases *expr, 2nat,
    {
        let ghost start = *self;
        let ty = self.infer_shape(expr);
        let rec = clone_type(&ty);
        self.record(rec);
        ty
    }

    /// The type of an expression by its form, and the errors it shows.
    fn infer_shape(&mut self, expr: &FaExpr) -> (r: Type)
        requires
            old(self).well_formed(),
        ensures
            final(self).stepped(old(self), inferred(old(self).ctx(), *expr).1),
            type_equiv(r, inferred(old(self).ctx(), *expr).0),
        decreases *expr, 1nat,
    {
        let ghost start = *self;
        let ghost c = self.ctx();
        proof {
            Self::lemma_stepped_refl(start);
            lemma_type_equiv_refl(Type::Unknown);
            lemma_type_equiv_refl(Type::Error);
        }
        match expr {
            FaExpr::Null => Type::Nullable(Box::new(Type::Unknown)),
            FaExpr::Bool(_) => Type::Bool,
            FaExpr::Int(n) => {
                // The integer size follows the value
                if *n >= -2147483648i64 && *n <= 2147483647i64 {
                    Type::I32
                } else {
                    Type::I64
                }
            },
            FaExpr::Float(_) => Type::F64,
            FaExpr::Color(_) => Type::Color,
            FaExpr::String(_) => Type::String,
            FaExpr::StringTemplate(elements) => {
                self.infer_template(elements);
                Type::String
            },
            FaExpr::List(items) => {
                if items.len() == 0 {
                    Type::List(Box::new(Type::Unknown))
                } else {
                    let first = self.infer_expr_type(&items[0]);
                    let ghost mid = *self;
                    self.infer_list_rest(&first, Ghost(inferred(c, items@[0]).0), items);
                    proof {
                        Self::lemma_stepped_concat(start, mid, *self, inferred(c, items@[0]).1,
                            list_notes(c, inferred(c, items@[0]).0, items@, items@.len()));
                    }
                    Type::List(Box::new(first))
                }
            },
            FaExpr::Object(fields) => {
                // Object literals have no structural type yet
                self.infer_fields(fields);
                Type::Unknown
            },
            FaExpr::Identifier(name) => lookup_identifier_type(
                name.as_str(),
                self.current_scope,
                self.symbols,
                self.scopes,
                self.symbol_types,
            ),
            FaExpr::QualifiedName(parts) => self.infer_qualified(parts),
            FaExpr::Binary { .. } => self.infer_binary(expr),
            FaExpr::Unary { .. } => self.infer_unary(expr),
            FaExpr::Ternary { .. } => self.infer_ternary(expr),
            FaExpr::FieldAccess { base, field } => {
                let base_type = self.infer_expr_type(base);
                let ghost mid = *self;
                let r = self.resolve_field_access(&base_type, field.as_str());
                proof {
                    lemma_field_access_equiv(c, base_type, inferred(c, **base).0, field@);
                    lemma_equiv_transitive(r, field_access(c, base_type, field@).0,
                        field_access(c, inferred(c, **base).0, field@).0);
                    Self::lemma_stepped_concat(start, mid, *self, inferred(c, **base).1,
                        field_access(c, base_type, field@).1);
                }
                r
            },
            FaExpr::OptionalChain { .. } => self.infer_optional_chain(expr),
            FaExpr::Call { callee, args } => {
                let callee_type = self.infer_expr_type(callee);
                let ghost mid = *self;
                self.infer_args(args);
                let r = self.infer_call_result_type(&callee_type);
                proof {
                    lemma_call_result_equiv(callee_type, inferred(c, **callee).0);
                    lemma_equiv_transitive(r, call_result(callee_type), call_result(inferred(c, **callee).0));
                    Self::lemma_stepped_concat(start, mid, *self, inferred(c, **callee).1,
                        args_notes(c, args@, args@.len()));
                }
                r
            },
        }
    }

    /// Check the interpolations of a template.
    fn infer_template(&mut self, elements: &Vec<FaTemplateElement>)
        requires
            old(self).well_formed(),
        ensures
            final(self).stepped(old(self), template_notes(old(self).ctx(), elements@, elements@.len())),
        decreases elements@, 0nat,
    {
        let ghost start = *self;
        let ghost c = self.ctx();
        proof {
            Self::lemma_stepped_refl(start);
        }
        let mut i: usize = 0;
        while i < elements.len()
            invariant
                i <= elements@.len(),
                c == start.ctx(),
                self.stepped(&start, template_notes(c, elements@, i as nat)),
            decreases elements@.len() - i,
        {
            let ghost before = *self;
            match &elements[i] {
                FaTemplateElement::Interpolation(inner) => {
                    self.infer_expr_type(inner);
                    proof {
                        Self::lemma_stepped_concat(start, before, *self, template_notes(c, elements@, i as nat),
                            inferred(c, **inner).1);
                    }
                },
                FaTemplateElement::Text(_) => {
                    proof {
                        Self::lemma_stepped_refl(before);
                        Self::lemma_stepped_concat(start, before, *self, template_notes(c, elements@, i as nat),
                            Seq::empty());
                    }
                },
            }
            proof {
                assert(template_notes(c, elements@, (i + 1) as nat) == template_notes(c, elements@, i as nat)
                    + match elements@[i as int] {
                    FaTemplateElement::Interpolation(inner) => inferred(c, *inner).1,
                    FaTemplateElement::Text(_) => Seq::empty(),
                });
            }
            i = i + 1;
        }
    }

    /// Check list items after the first against the first item's type.
    fn infer_list_rest(&mut self, first: &Type, Ghost(first_spec): Ghost<Type>, items: &Vec<FaExpr>)
        requires
            old(self).well_formed(),
            type_equiv(*first, first_spec),
        ensures
            final(self).stepped(old(self), list_notes(old(self).ctx(), first_spec, items@, items@.len())),
        decreases items@, 0nat,
    {
        let ghost start = *self;
        let ghost c = self.ctx();
        proof {
            Self::lemma_stepped_refl(start);
            lemma_equiv_text(*first, first_spec);
        }
        if items.len() == 0 {
            return;
        }
        let mut i: usize = 1;
        while i < items.len()
            invariant
                1 <= i <= items@.len(),
                c == start.ctx(),
                type_equiv(*first, first_spec),
                first.text_spec() == first_spec.text_spec(),
                self.stepped(&start, list_notes(c, first_spec, items@, i as nat)),
            decreases items@.len() - i,
        {
            let ghost before = *self;
            let item_type = self.infer_expr_type(&items[i]);
            let ghost item = inferred(c, items@[i as int]);
            let ghost mid = *self;
            proof {
                Self::lemma_stepped_concat(start, before, mid, list_notes(c, first_spec, items@, i as nat), item.1);
                lemma_compatible_equiv(*first, first_spec, item_type, item.0);
                lemma_equiv_text(item_type, item.0);
            }
            if !types_compatible(first, &item_type) {
                let mut message = String::new();
                push_str(&mut message, "list element type mismatch: expected `");
                first.push_text(&mut message);
                push_str(&mut message, "`, found `");
                item_type.push_text(&mut message);
                push_str(&mut message, "`");
                self.report(&E0401(), message.as_str());
                proof {
                    Self::lemma_stepped_concat(start, mid, *self,
                        list_notes(c, first_spec, items@, i as nat) + item.1, seq![(e0401_spec(), message@)]);
                    assert(message@ =~= "list element type mismatch: expected `"@ + first_spec.text_spec()
                        + "`, found `"@ + item.0.text_spec() + "`"@);
                    assert(list_notes(c, first_spec, items@, (i + 1) as nat) =~= list_notes(c, first_spec, items@, i as nat)
                        + item.1 + seq![(e0401_spec(), message@)]);
                }
            } else {
                proof {
                    assert(list_notes(c, first_spec, items@, (i + 1) as nat) =~= list_notes(c, first_spec, items@, i as nat)
                        + item.1);
                }
            }
            i = i + 1;
        }
    }

    /// Check the values of object fields.
    fn infer_fields(&mut self, fields: &Vec<(String, FaExpr)>)
        requires
            old(self).well_formed(),
        ensures
            final(self).stepped(old(self), field_notes(old(self).ctx(), fields@, fields@.len())),
        decreases fields@, 0nat,
    {
        let ghost start = *self;
        let ghost c = self.ctx();
        proof {
            Self::lemma_stepped_refl(start);
        }
        let mut i: usize = 0;
        while i < fields.len()
            invariant
                i <= fields@.len(),
                c == start.ctx(),
                self.stepped(&start, field_notes(c, fields@, i as nat)),
            decreases fields@.len() - i,
        {
            let ghost before = *self;
            self.infer_expr_type(&fields[i].1);
            proof {
                Self::lemma_stepped_concat(start, before, *self, field_notes(c, fields@, i as nat),
                    inferred(c, fields@[i as int].1).1);
            }
            i = i + 1;
        }
    }

    /// Check call arguments.
    fn infer_args(&mut self, args: &Vec<FaExpr>)
        requires
            old(self).well_formed(),
        ensures
            final(self).stepped(old(self), args_notes(old(self).ctx(), args@, args@.len())),
        decreases args@, 0nat,
    {
        let ghost start = *self;
        let ghost c = self.ctx();
        proof {
            Self::lemma_stepped_refl(start);
        }
        let mut i: usize = 0;
        while i < args.len()
            invariant
                i <= args@.len(),
                c == start.ctx(),
                self.stepped(&start, args_notes(c, args@, i as nat)),
            decreases args@.len() - i,
        {
            let ghost before = *self;
            self.infer_expr_type(&args[i]);
            proof {
                Self::lemma_stepped_concat(start, before, *self, args_notes(c, args@, i as nat),
                    inferred(c, args@[i as int]).1);
            }
            i = i + 1;
        }
    }
}

impl<'a> ExprChecker<'a> {
    /// The type of a qualified name: its first part looked up, then each
    /// further part accessed as a field.
    fn infer_qualified(&mut self, parts: &Vec<String>) -> (r: Type)
        requires
            old(self).well_formed(),
        ensures
            final(self).stepped(old(self), inferred(old(self).ctx(), FaExpr::QualifiedName(*parts)).1),
            type_equiv(r, inferred(old(self).ctx(), FaExpr::QualifiedName(*parts)).0),
    {
        let ghost start = *self;
        let ghost c = self.ctx();
        proof {
            Self::lemma_stepped_refl(start);
            lemma_type_equiv_refl(Type::Error);
        }
        if parts.len() == 0 {
            return Type::Error;
        }
        let ghost t0 = identifier_type_of(c, parts@[0]@);
        let mut current = lookup_identifier_type(
            parts[0].as_str(),
            self.current_scope,
            self.symbols,
            self.scopes,
            self.symbol_types,
        );
        let mut i: usize = 1;
        while i < parts.len()
            invariant
                1 <= i <= parts@.len(),
                c == start.ctx(),
                type_equiv(current, qualified(c, t0, parts@, i as nat).0),
                self.stepped(&start, qualified(c, t0, parts@, i as nat).1),
            decreases parts@.len() - i,
        {
            let ghost before = *self;
            let ghost prev = qualified(c, t0, parts@, i as nat);
            let next = self.resolve_field_access(&current, parts[i].as_str());
            proof {
                lemma_field_access_equiv(c, current, prev.0, parts@[i as int]@);
                lemma_equiv_transitive(next, field_access(c, current, parts@[i as int]@).0,
                    field_access(c, prev.0, parts@[i as int]@).0);
                Self::lemma_stepped_concat(start, before, *self, prev.1, field_access(c, current, parts@[i as int]@).1);
            }
            current = next;
            i = i + 1;
        }
        current
    }

    /// A binary operation: both operands inferred, then the operator's rule.
    fn infer_binary(&mut self, expr: &FaExpr) -> (r: Type)
        requires
            old(self).well_formed(),
            *expr is Binary,
        ensures
            final(self).stepped(old(self), inferred(old(self).ctx(), *expr).1),
            type_equiv(r, inferred(old(self).ctx(), *expr).0),
        decreases *expr, 0nat,
    {
        let ghost start = *self;
        let ghost c = self.ctx();
        match expr {
            FaExpr::Binary { op, left, right } => {
                let left_type = self.infer_expr_type(left);
                let ghost mid = *self;
                let right_type = self.infer_expr_type(right);
                let ghost mid2 = *self;
                let ghost l = inferred(c, **left);
                let ghost rr = inferred(c, **right);
                proof {
                    Self::lemma_stepped_concat(start, mid, mid2, l.1, rr.1);
                    lemma_binary_result_equiv(*op, left_type, l.0, right_type, rr.0);
                }
                let r = infer_binary_op_type(*op, &left_type, &right_type, self.context_span, &mut self.diagnostics);
                proof {
                    match binary_result(*op, l.0, rr.0) {
                        Some(t) => {
                            let t1 = binary_result(*op, left_type, right_type)->0;
                            lemma_equiv_transitive(r, t1, t);
                            Self::lemma_stepped_refl(mid2);
                            assert(l.1 + rr.1 + Seq::<Note>::empty() =~= l.1 + rr.1);
                            Self::lemma_stepped_concat(start, mid2, *self, l.1 + rr.1, Seq::empty());
                        },
                        None => {
                            lemma_extends_one(mid2.diagnostics@, self.diagnostics@, e0405_spec(), mid2.context_span,
                                binary_error_message(*op, l.0, rr.0));
                            assert(self.diagnostics@.subrange(0, mid2.diagnostics@.len() as int) =~= mid2.diagnostics@);
                            Self::lemma_stepped_concat(start, mid2, *self, l.1 + rr.1,
                                seq![(e0405_spec(), binary_error_message(*op, l.0, rr.0))]);
                        },
                    }
                }
                r
            },
            _ => {
                proof {
                    assert(false);
                }
                Type::Error
            },
        }
    }

    /// A unary operation: the operand inferred, then the operator's rule.
    fn infer_unary(&mut self, expr: &FaExpr) -> (r: Type)
        requires
            old(self).well_formed(),
            *expr is Unary,
        ensures
            final(self).stepped(old(self), inferred(old(self).ctx(), *expr).1),
            type_equiv(r, inferred(old(self).ctx(), *expr).0),
        decreases *expr, 0nat,
    {
        let ghost start = *self;
        let ghost c = self.ctx();
        match expr {
            FaExpr::Unary { op, expr: operand } => {
                let operand_type = self.infer_expr_type(operand);
                let ghost mid = *self;
                let ghost x = inferred(c, **operand);
                proof {
                    lemma_unary_equiv(*op, operand_type, x.0);
                    lemma_type_equiv_refl(Type::Error);
                }
                let r = infer_unary_op_type(*op, &operand_type, self.context_span, &mut self.diagnostics);
                proof {
                    if unary_accepts(*op, x.0) {
                        lemma_equiv_transitive(r, operand_type, x.0);
                        Self::lemma_stepped_refl(mid);
                        assert(x.1 + Seq::<Note>::empty() =~= x.1);
                        Self::lemma_stepped_concat(start, mid, *self, x.1, Seq::empty());
                    } else {
                        lemma_extends_one(mid.diagnostics@, self.diagnostics@, e0401_spec(), mid.context_span,
                            unary_error_message(*op, x.0));
                        assert(self.diagnostics@.subrange(0, mid.diagnostics@.len() as int) =~= mid.diagnostics@);
                        Self::lemma_stepped_concat(start, mid, *self, x.1,
                            seq![(e0401_spec(), unary_error_message(*op, x.0))]);
                    }
                }
                r
            },
            _ => {
                proof {
                    assert(false);
                }
                Type::Error
            },
        }
    }

    /// A conditional: a `bool` condition, and branches of compatible types.
    fn infer_ternary(&mut self, expr: &FaExpr) -> (r: Type)
        requires
            old(self).well_formed(),
            *expr is Ternary,
        ensures
            final(self).stepped(old(self), inferred(old(self).ctx(), *expr).1),
            type_equiv(r, inferred(old(self).ctx(), *expr).0),
        decreases *expr, 0nat,
    {
        let ghost start = *self;
        let ghost c = self.ctx();
        match expr {
            FaExpr::Ternary { condition, then_expr, else_expr } => {
                let ghost k = inferred(c, **condition);
                let ghost t = inferred(c, **then_expr);
                let ghost f = inferred(c, **else_expr);
                let cond_type = self.infer_expr_type(condition);
                let ghost s1 = *self;
                proof {
                    lemma_equiv_head(cond_type, k.0);
                    lemma_equiv_text(cond_type, k.0);
                }
                self.expect_bool_here(&cond_type);
                let ghost s2 = *self;
                proof {
                    Self::lemma_stepped_concat(start, s1, s2, k.1, bool_notes(k.0));
                }
                let then_type = self.infer_expr_type(then_expr);
                let ghost s3 = *self;
                proof {
                    Self::lemma_stepped_concat(start, s2, s3, k.1 + bool_notes(k.0), t.1);
                }
                let else_type = self.infer_expr_type(else_expr);
                let ghost s4 = *self;
                proof {
                    Self::lemma_stepped_concat(start, s3, s4, k.1 + bool_notes(k.0) + t.1, f.1);
                    lemma_compatible_equiv(then_type, t.0, else_type, f.0);
                    lemma_equiv_text(then_type, t.0);
                    lemma_equiv_text(else_type, f.0);
                    lemma_type_equiv_refl(Type::Error);
                }
                if types_compatible(&then_type, &else_type) {
                    then_type
                } else {
                    let mut message = String::new();
                    push_str(&mut message, "ternary branches have incompatible types: `");
                    then_type.push_text(&mut message);
                    push_str(&mut message, "` vs `");
                    else_type.push_text(&mut message);
                    push_str(&mut message, "`");
                    proof {
                        assert(message@ =~= "ternary branches have incompatible types: `"@ + t.0.text_spec()
                            + "` vs `"@ + f.0.text_spec() + "`"@);
                    }
                    self.report(&E0401(), message.as_str());
                    proof {
                        Self::lemma_stepped_concat(start, s4, *self, k.1 + bool_notes(k.0) + t.1 + f.1,
                            seq![(e0401_spec(), message@)]);
                    }
                    Type::Error
                }
            },
            _ => {
                proof {
                    assert(false);
                }
                Type::Error
            },
        }
    }

    /// Expect a condition of type `bool` at the context span.
    fn expect_bool_here(&mut self, ty: &Type)
        requires
            old(self).well_formed(),
        ensures
            final(self).stepped(old(self), bool_notes(*ty)),
            final(self).expr_types == old(self).expr_types,
    {
        let ghost start = *self;
        expect_bool(ty, self.context_span, &mut self.diagnostics);
        proof {
            if *ty is Bool || *ty is Unknown || *ty is Error {
                Self::lemma_stepped_refl(start);
            } else {
                lemma_extends_one(start.diagnostics@, self.diagnostics@, e0401_spec(), start.context_span,
                    "expected `bool`, found `"@ + ty.text_spec() + "`"@);
                assert(self.diagnostics@.subrange(0, start.diagnostics@.len() as int) =~= start.diagnostics@);
            }
        }
    }

    /// Optional chaining: the field of the base's non-null type, itself nullable.
    fn infer_optional_chain(&mut self, expr: &FaExpr) -> (r: Type)
        requires
            old(self).well_formed(),
            *expr is OptionalChain,
        ensures
            final(self).stepped(old(self), inferred(old(self).ctx(), *expr).1),
            type_equiv(r, inferred(old(self).ctx(), *expr).0),
        decreases *expr, 0nat,
    {
        let ghost start = *self;
        let ghost c = self.ctx();
        match expr {
            FaExpr::OptionalChain { base, field } => {
                let ghost b = inferred(c, **base);
                let base_type = self.infer_expr_type(base);
                let ghost mid = *self;
                let ghost inner_spec = match b.0 {
                    Type::Nullable(i) => *i,
                    _ => b.0,
                };
                proof {
                    lemma_equiv_head(base_type, b.0);
                }
                // A non-nullable base needs no chaining, but is allowed
                let field_type = match &base_type {
                    Type::Nullable(inner) => {
                        let t = self.resolve_field_access(&**inner, field.as_str());
                        proof {
                            lemma_field_access_equiv(c, **inner, inner_spec, field@);
                            lemma_equiv_transitive(t, field_access(c, **inner, field@).0,
                                field_access(c, inner_spec, field@).0);
                            Self::lemma_stepped_concat(start, mid, *self, b.1, field_access(c, **inner, field@).1);
                        }
                        t
                    },
                    _ => {
                        let t = self.resolve_field_access(&base_type, field.as_str());
                        proof {
                            lemma_field_access_equiv(c, base_type, inner_spec, field@);
                            lemma_equiv_transitive(t, field_access(c, base_type, field@).0,
                                field_access(c, inner_spec, field@).0);
                            Self::lemma_stepped_concat(start, mid, *self, b.1, field_access(c, base_type, field@).1);
                        }
                        t
                    },
                };
                let ghost ft = field_type;
                let r = field_type.make_nullable();
                proof {
                    lemma_nullable_of_equiv(ft, field_access(c, inner_spec, field@).0);
                }
                r
            },
            _ => {
                proof {
                    assert(false);
                }
                Type::Error
            },
        }
    }
}

} // verus!
