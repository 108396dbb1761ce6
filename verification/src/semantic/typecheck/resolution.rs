//! The types that type expressions, symbols and identifiers denote.

use vstd::prelude::*;
use vstd::string::*;
use std::collections::HashMap;
use crate::ast::FaTypeExpr;
use crate::diagnostic::codes::E0402;
use crate::diagnostic::{Diagnostic, Diagnostics, Severity};
use crate::semantic::entry_for;
use crate::semantic::scope::{ancestors_of, ScopeGraph, ScopeId};
use crate::semantic::symbol::{lookup_chain, LookupEntry, Symbol, SymbolId, SymbolKind, SymbolTable};
use crate::semantic::types::{clone_type, type_equiv, Type};
use crate::source::Span;
use crate::text::{push_str, str_eq};

verus! {

broadcast use vstd::std_specs::hash::group_hash_axioms;

/// The type a symbol stands for: type definitions give their nominal type,
/// every other kind of symbol gives the error type.
pub open spec fn symbol_type(kind: SymbolKind, id: SymbolId) -> Type {
    match kind {
        SymbolKind::Scheme => Type::Scheme(id),
        SymbolKind::Backend => Type::Backend(id),
        SymbolKind::Blueprint => Type::Blueprint(id),
        SymbolKind::Contract => Type::Contract(id),
        SymbolKind::Theme => Type::Theme(id),
        SymbolKind::Enum => Type::Enum(id),
        _ => Type::Error,
    }
}

/// Convert a symbol to its corresponding type
pub fn symbol_to_type(symbol: &Symbol) -> (r: Type)
    ensures
        r == symbol_type(symbol.kind, symbol.id),
{
    match symbol.kind {
        SymbolKind::Scheme => Type::Scheme(symbol.id),
        SymbolKind::Backend => Type::Backend(symbol.id),
        SymbolKind::Blueprint => Type::Blueprint(symbol.id),
        SymbolKind::Contract => Type::Contract(symbol.id),
        SymbolKind::Theme => Type::Theme(symbol.id),
        SymbolKind::Enum => Type::Enum(symbol.id),
        _ => Type::Error,
    }
}

/// The type an identifier has when no type was recorded for its symbol: value
/// symbols (fields, parameters, locals) are not known yet, type definitions
/// give their nominal type, anything else is unknown.
pub open spec fn kind_type(kind: SymbolKind, id: SymbolId) -> Type {
    match kind {
        SymbolKind::Field | SymbolKind::VirtualField | SymbolKind::Parameter | SymbolKind::LocalVar => Type::Unknown,
        SymbolKind::Backend => Type::Backend(id),
        SymbolKind::Blueprint => Type::Blueprint(id),
        SymbolKind::Scheme => Type::Scheme(id),
        SymbolKind::Enum => Type::Enum(id),
        SymbolKind::Contract => Type::Contract(id),
        SymbolKind::Theme => Type::Theme(id),
        _ => Type::Unknown,
    }
}

/// The type of an identifier: that of the symbol the scope chain finds for it,
/// as recorded in `symbol_types` (keyed by symbol id) or else as its kind
/// gives; the error type where the name is not found (name resolution has
/// reported that already).
pub open spec fn identifier_type(
    found: Option<SymbolId>,
    symbols: Seq<Symbol>,
    symbol_types: Map<u32, Type>,
) -> Option<Type> {
    match found {
        Some(id) => if (id.0 as int) < symbols.len() {
            if symbol_types.contains_key(id.0) {
                Some(symbol_types[id.0])
            } else {
                Some(kind_type(symbols[id.0 as int].kind, id))
            }
        } else {
            None
        },
        None => None,
    }
}

/// Look up the type of an identifier in the symbol table
pub fn lookup_identifier_type(
    name: &str,
    current_scope: ScopeId,
    symbols: &SymbolTable,
    scopes: &ScopeGraph,
    symbol_types: &HashMap<u32, Type>,
) -> (r: Type)
    requires
        symbols.wf(),
        scopes.wf(),
    ensures
        match identifier_type(
            lookup_chain(symbols.entries(), seq![current_scope] + ancestors_of(scopes@, current_scope), name@),
            symbols.symbols(),
            symbol_types@,
        ) {
            Some(t) => type_equiv(r, t),
            None => r is Error,
        },
{
    if let Some(symbol_id) = symbols.lookup_in_scope_chain(current_scope, name, scopes) {
        if let Some(symbol) = symbols.get(symbol_id) {
            // Check if we have a type for this symbol
            if let Some(ty) = symbol_types.get(&symbol_id.0) {
                return clone_type(ty);
            }
            // Otherwise, derive from symbol kind
            return match symbol.kind {
                SymbolKind::Field | SymbolKind::VirtualField | SymbolKind::Parameter | SymbolKind::LocalVar => {
                    // The declared type is not consulted here
                    Type::Unknown
                },
                SymbolKind::Backend => Type::Backend(symbol_id),
                SymbolKind::Blueprint => Type::Blueprint(symbol_id),
                SymbolKind::Scheme => Type::Scheme(symbol_id),
                SymbolKind::Enum => Type::Enum(symbol_id),
                SymbolKind::Contract => Type::Contract(symbol_id),
                SymbolKind::Theme => Type::Theme(symbol_id),
                _ => Type::Unknown,
            };
        }
    }
    // Not found - already reported during name resolution
    Type::Error
}

// =========================================================================
// Resolving type expressions
// =========================================================================

/// Whether `name` is imported (an import entry maps names to module paths).
pub open spec fn imported(imports: Seq<(String, String)>, name: Seq<char>) -> bool {
    exists|i: int| 0 <= i < imports.len() && (#[trigger] imports[i]).0@ == name
}

/// What a scope chain lookup from `scope` finds for `name`.
pub open spec fn found_in_chain(
    entries: Seq<LookupEntry>,
    scopes: Seq<super::super::scope::Scope>,
    scope: ScopeId,
    name: Seq<char>,
) -> Option<SymbolId> {
    lookup_chain(entries, seq![scope] + ancestors_of(scopes, scope), name)
}

/// The type a name denotes from `scope`: an intrinsic type, else the type of
/// the declaration the scope chain finds, else unknown for an imported name,
/// else the error type.
pub open spec fn named_type(
    symbols: Seq<Symbol>,
    entries: Seq<LookupEntry>,
    scopes: Seq<super::super::scope::Scope>,
    imports: Seq<(String, String)>,
    scope: ScopeId,
    name: Seq<char>,
) -> Type {
    match Type::intrinsic_of(name) {
        Some(t) => t,
        None => match found_in_chain(entries, scopes, scope, name) {
            Some(id) if (id.0 as int) < symbols.len() => symbol_type(
                symbols[id.0 as int].kind,
                symbols[id.0 as int].id,
            ),
            _ => if imported(imports, name) {
                Type::Unknown
            } else {
                Type::Error
            },
        },
    }
}

/// Whether a name denotes no type at all: not intrinsic, not declared in
/// reach, not imported.
pub open spec fn name_unknown(
    symbols: Seq<Symbol>,
    entries: Seq<LookupEntry>,
    scopes: Seq<super::super::scope::Scope>,
    imports: Seq<(String, String)>,
    scope: ScopeId,
    name: Seq<char>,
) -> bool {
    &&& Type::intrinsic_of(name) is None
    &&& !(found_in_chain(entries, scopes, scope, name) matches Some(id) && (id.0 as int) < symbols.len())
    &&& !imported(imports, name)
}

/// The type a type expression denotes (a blueprint type stays unknown).
pub open spec fn resolved_type(
    symbols: Seq<Symbol>,
    entries: Seq<LookupEntry>,
    scopes: Seq<super::super::scope::Scope>,
    imports: Seq<(String, String)>,
    scope: ScopeId,
    t: FaTypeExpr,
) -> Type
    decreases t,
{
    match t {
        FaTypeExpr::Named(name) => named_type(symbols, entries, scopes, imports, scope, name@),
        FaTypeExpr::Nullable(inner) => Type::Nullable(
            Box::new(resolved_type(symbols, entries, scopes, imports, scope, *inner)),
        ),
        FaTypeExpr::Ref(inner) => Type::Ref(Box::new(resolved_type(symbols, entries, scopes, imports, scope, *inner))),
        FaTypeExpr::Draft(inner) => Type::Draft(
            Box::new(resolved_type(symbols, entries, scopes, imports, scope, *inner)),
        ),
        FaTypeExpr::Asset(inner) => Type::Asset(
            Box::new(resolved_type(symbols, entries, scopes, imports, scope, *inner)),
        ),
        FaTypeExpr::List(elem) => Type::List(Box::new(resolved_type(symbols, entries, scopes, imports, scope, *elem))),
        FaTypeExpr::SetOf(elem) => Type::SetOf(
            Box::new(resolved_type(symbols, entries, scopes, imports, scope, *elem)),
        ),
        FaTypeExpr::MapOf(key, value) => Type::MapOf(
            Box::new(resolved_type(symbols, entries, scopes, imports, scope, *key)),
            Box::new(resolved_type(symbols, entries, scopes, imports, scope, *value)),
        ),
        FaTypeExpr::Tree(elem) => Type::Tree(Box::new(resolved_type(symbols, entries, scopes, imports, scope, *elem))),
        FaTypeExpr::Blueprint(_) => Type::Unknown,
        FaTypeExpr::Accessor(inner) => Type::Accessor(
            Box::new(resolved_type(symbols, entries, scopes, imports, scope, *inner)),
        ),
    }
}

/// The unknown names of a type expression, in the order they are met
/// (outer before inner, left before right).
pub open spec fn unknown_names(
    symbols: Seq<Symbol>,
    entries: Seq<LookupEntry>,
    scopes: Seq<super::super::scope::Scope>,
    imports: Seq<(String, String)>,
    scope: ScopeId,
    t: FaTypeExpr,
) -> Seq<Seq<char>>
    decreases t, 0nat,
{
    match t {
        FaTypeExpr::Named(name) => if name_unknown(symbols, entries, scopes, imports, scope, name@) {
            seq![name@]
        } else {
            Seq::empty()
        },
        FaTypeExpr::Nullable(inner) => unknown_names(symbols, entries, scopes, imports, scope, *inner),
        FaTypeExpr::Ref(inner) => unknown_names(symbols, entries, scopes, imports, scope, *inner),
        FaTypeExpr::Draft(inner) => unknown_names(symbols, entries, scopes, imports, scope, *inner),
        FaTypeExpr::Asset(inner) => unknown_names(symbols, entries, scopes, imports, scope, *inner),
        FaTypeExpr::List(elem) => unknown_names(symbols, entries, scopes, imports, scope, *elem),
        FaTypeExpr::SetOf(elem) => unknown_names(symbols, entries, scopes, imports, scope, *elem),
        FaTypeExpr::MapOf(key, value) => unknown_names(symbols, entries, scopes, imports, scope, *key)
            + unknown_names(symbols, entries, scopes, imports, scope, *value),
        FaTypeExpr::Tree(elem) => unknown_names(symbols, entries, scopes, imports, scope, *elem),
        FaTypeExpr::Blueprint(params) => unknown_names_of(
            symbols,
            entries,
            scopes,
            imports,
            scope,
            params@,
            params@.len(),
        ),
        FaTypeExpr::Accessor(inner) => unknown_names(symbols, entries, scopes, imports, scope, *inner),
    }
}

/// The unknown names of the first `n` type expressions, in order.
pub open spec fn unknown_names_of(
    symbols: Seq<Symbol>,
    entries: Seq<LookupEntry>,
    scopes: Seq<super::super::scope::Scope>,
    imports: Seq<(String, String)>,
    scope: ScopeId,
    ts: Seq<FaTypeExpr>,
    n: nat,
) -> Seq<Seq<char>>
    decreases ts, n,
{
    if n == 0 || n > ts.len() {
        Seq::empty()
    } else {
        unknown_names_of(symbols, entries, scopes, imports, scope, ts, (n - 1) as nat) + unknown_names(
            symbols,
            entries,
            scopes,
            imports,
            scope,
            ts[n - 1],
        )
    }
}

/// The diagnostic for a type name that denotes no type.
pub open spec fn unknown_type_diagnostic(d: Diagnostic, name: Seq<char>, span: Span) -> bool {
    &&& d.severity == Severity::Error
    &&& d.code matches Some(c) && c@ == "E0402"@
    &&& d.message@ == "unknown type `"@ + name + "`"@
    &&& d.span == span
    &&& d.help matches Some(h) && h@ == "Check the spelling or make sure the type is defined or imported."@
}

/// `added` are the diagnostics for the unknown names, one each, in order.
pub open spec fn unknown_type_diagnostics(added: Seq<Diagnostic>, names: Seq<Seq<char>>, span: Span) -> bool {
    &&& added.len() == names.len()
    &&& forall|k: int| 0 <= k < names.len() ==> unknown_type_diagnostic(#[trigger] added[k], names[k], span)
}

/// Resolution keeps the type constructor of a type expression: `Set<T>`
/// resolves to a set of the resolved `T`, `[T]` to a list, `Map<K, V>` to a
/// map, `Tree<T>` to a tree, `T?` to a nullable type, and likewise for
/// references, drafts, assets and accessors; it never yields another kind of
/// collection.
pub proof fn law_resolution_keeps_constructor(
    symbols: Seq<Symbol>,
    entries: Seq<LookupEntry>,
    scopes: Seq<super::super::scope::Scope>,
    imports: Seq<(String, String)>,
    scope: ScopeId,
    t: FaTypeExpr,
)
    ensures
        ({
            let r = |e: FaTypeExpr| resolved_type(symbols, entries, scopes, imports, scope, e);
            &&& t matches FaTypeExpr::SetOf(e) ==> r(t) == Type::SetOf(Box::new(r(*e)))
            &&& t matches FaTypeExpr::List(e) ==> r(t) == Type::List(Box::new(r(*e)))
            &&& t matches FaTypeExpr::MapOf(k, v) ==> r(t) == Type::MapOf(Box::new(r(*k)), Box::new(r(*v)))
            &&& t matches FaTypeExpr::Tree(e) ==> r(t) == Type::Tree(Box::new(r(*e)))
            &&& t matches FaTypeExpr::Nullable(e) ==> r(t) == Type::Nullable(Box::new(r(*e)))
            &&& t matches FaTypeExpr::Ref(e) ==> r(t) == Type::Ref(Box::new(r(*e)))
            &&& t matches FaTypeExpr::Draft(e) ==> r(t) == Type::Draft(Box::new(r(*e)))
            &&& t matches FaTypeExpr::Asset(e) ==> r(t) == Type::Asset(Box::new(r(*e)))
            &&& t matches FaTypeExpr::Accessor(e) ==> r(t) == Type::Accessor(Box::new(r(*e)))
        }),
{
}

/// A name of an intrinsic type resolves to that type, wherever it stands.
pub proof fn law_intrinsic_name_resolves(
    symbols: Seq<Symbol>,
    entries: Seq<LookupEntry>,
    scopes: Seq<super::super::scope::Scope>,
    imports: Seq<(String, String)>,
    scope: ScopeId,
    name: String,
)
    ensures
        Type::intrinsic_of(name@) matches Some(i) ==> resolved_type(
            symbols,
            entries,
            scopes,
            imports,
            scope,
            FaTypeExpr::Named(name),
        ) == i,
{
}

/// No span is recorded twice.
pub open spec fn spans_distinct(entries: Seq<(Span, Type)>) -> bool {
    forall|i: int, j: int| 0 <= i < j < entries.len() ==> (#[trigger] entries[i]).0 != (#[trigger] entries[j]).0
}

/// Type resolver that converts type expressions to semantic types, records
/// the type found for each type expression by its span, and reports the
/// names that denote no type.
pub struct TypeResolver<'a> {
    pub scopes: &'a ScopeGraph,
    pub symbols: &'a SymbolTable,
    /// Imported names, with the module path each comes from
    pub imports: &'a Vec<(String, String)>,
    pub current_scope: ScopeId,
    /// The type resolved for each type expression, by its span
    pub type_resolutions: Vec<(Span, Type)>,
    pub diagnostics: Diagnostics,
}

impl<'a> TypeResolver<'a> {
    /// The resolver's context is usable: the symbol table and the scope graph
    /// are well formed, and no span is recorded twice.
    pub open spec fn well_formed(&self) -> bool {
        &&& self.symbols.wf()
        &&& self.scopes.wf()
        &&& spans_distinct(self.type_resolutions@)
    }

    /// The type a type expression denotes in the resolver's context.
    pub open spec fn resolution_of(&self, t: FaTypeExpr) -> Type {
        resolved_type(
            self.symbols.symbols(),
            self.symbols.entries(),
            self.scopes@,
            self.imports@,
            self.current_scope,
            t,
        )
    }

    /// The unknown names of a type expression in the resolver's context.
    pub open spec fn unknown_names_in(&self, t: FaTypeExpr) -> Seq<Seq<char>> {
        unknown_names(
            self.symbols.symbols(),
            self.symbols.entries(),
            self.scopes@,
            self.imports@,
            self.current_scope,
            t,
        )
    }

    /// The same context, and the diagnostics only added to.
    pub open spec fn keeps_context(&self, old: &Self) -> bool {
        &&& self.scopes == old.scopes
        &&& self.symbols == old.symbols
        &&& self.imports == old.imports
        &&& self.current_scope == old.current_scope
        &&& self.diagnostics@.len() >= old.diagnostics@.len()
        &&& self.diagnostics@.subrange(0, old.diagnostics@.len() as int) == old.diagnostics@
    }

    /// A resolver at the root scope, with nothing recorded or reported.
    pub fn new(scopes: &'a ScopeGraph, symbols: &'a SymbolTable, imports: &'a Vec<(String, String)>) -> (r: Self)
        ensures
            r.scopes == scopes,
            r.symbols == symbols,
            r.imports == imports,
            r.current_scope == ScopeId::root_spec(),
            r.type_resolutions@.len() == 0,
            r.diagnostics@.len() == 0,
    {
        TypeResolver {
            scopes,
            symbols,
            imports,
            current_scope: ScopeId::ROOT(),
            type_resolutions: Vec::new(),
            diagnostics: Diagnostics::new(),
        }
    }

    /// Resolve a type expression to a type, and record it for `span` (an
    /// earlier record for that span is replaced); every unknown name in it
    /// is reported at `span`.
    pub fn resolve_type_expr(&mut self, type_expr: &FaTypeExpr, span: Span) -> (r: Type)
        requires
            old(self).well_formed(),
        ensures
            final(self).well_formed(),
            final(self).keeps_context(old(self)),
            r == old(self).resolution_of(*type_expr),
            entry_for(final(self).type_resolutions@, span) matches Some(t) && type_equiv(t, r),
            forall|other: Span| other != span ==> entry_for(final(self).type_resolutions@, other) == entry_for(
                old(self).type_resolutions@,
                other,
            ),
            unknown_type_diagnostics(
                final(self).diagnostics@.subrange(old(self).diagnostics@.len() as int, final(self).diagnostics@.len() as int),
                old(self).unknown_names_in(*type_expr),
                span,
            ),
        decreases *type_expr, 0nat,
    {
        let ghost d0 = self.diagnostics@;
        let ty = match type_expr {
            FaTypeExpr::Named(name) => self.resolve_named_type(name.as_str(), span),
            FaTypeExpr::Nullable(inner) => Type::Nullable(Box::new(self.resolve_type_expr(inner, span))),
            FaTypeExpr::Ref(inner) => Type::Ref(Box::new(self.resolve_type_expr(inner, span))),
            FaTypeExpr::Draft(inner) => Type::Draft(Box::new(self.resolve_type_expr(inner, span))),
            FaTypeExpr::Asset(inner) => Type::Asset(Box::new(self.resolve_type_expr(inner, span))),
            FaTypeExpr::List(elem) => Type::List(Box::new(self.resolve_type_expr(elem, span))),
            FaTypeExpr::SetOf(elem) => Type::SetOf(Box::new(self.resolve_type_expr(elem, span))),
            FaTypeExpr::MapOf(key, value) => {
                let ghost d1 = self.diagnostics@;
                let key_ty = self.resolve_type_expr(key, span);
                let ghost d2 = self.diagnostics@;
                let value_ty = self.resolve_type_expr(value, span);
                proof {
                    let d3 = self.diagnostics@;
                    assert(d2.subrange(0, d1.len() as int) == d1);
                    assert(d3.subrange(0, d2.len() as int) == d2);
                    assert(d3.subrange(d1.len() as int, d3.len() as int) =~= d2.subrange(d1.len() as int, d2.len() as int)
                        + d3.subrange(d2.len() as int, d3.len() as int));
                    assert(d3.subrange(0, d1.len() as int) =~= d1);
                }
                Type::MapOf(Box::new(key_ty), Box::new(value_ty))
            },
            FaTypeExpr::Tree(elem) => Type::Tree(Box::new(self.resolve_type_expr(elem, span))),
            FaTypeExpr::Blueprint(params) => {
                // The parameter types are resolved (and recorded, and their
                // unknown names reported); the blueprint type itself stays unknown
                self.resolve_params(params, span);
                Type::Unknown
            },
            FaTypeExpr::Accessor(inner) => Type::Accessor(Box::new(self.resolve_type_expr(inner, span))),
        };
        let recorded = clone_type(&ty);
        self.record(span, recorded);
        ty
    }

    /// Resolve the parameter types of a blueprint type, in order.
    fn resolve_params(&mut self, params: &Vec<FaTypeExpr>, span: Span)
        requires
            old(self).well_formed(),
        ensures
            final(self).well_formed(),
            final(self).keeps_context(old(self)),
            forall|other: Span| other != span ==> entry_for(final(self).type_resolutions@, other) == entry_for(
                old(self).type_resolutions@,
                other,
            ),
            unknown_type_diagnostics(
                final(self).diagnostics@.subrange(old(self).diagnostics@.len() as int, final(self).diagnostics@.len() as int),
                unknown_names_of(
                    old(self).symbols.symbols(),
                    old(self).symbols.entries(),
                    old(self).scopes@,
                    old(self).imports@,
                    old(self).current_scope,
                    params@,
                    params@.len(),
                ),
                span,
            ),
        decreases params@, 1nat,
    {
        let ghost d0 = self.diagnostics@;
        let mut i: usize = 0;
        proof {
            assert(self.diagnostics@.subrange(0, d0.len() as int) =~= d0);
            assert(self.diagnostics@.subrange(d0.len() as int, d0.len() as int) =~= Seq::<Diagnostic>::empty());
        }
        while i < params.len()
            invariant
                i <= params@.len(),
                self.well_formed(),
                self.keeps_context(old(self)),
                d0 == old(self).diagnostics@,
                forall|other: Span| other != span ==> entry_for(self.type_resolutions@, other) == entry_for(
                    old(self).type_resolutions@,
                    other,
                ),
                unknown_type_diagnostics(
                    self.diagnostics@.subrange(d0.len() as int, self.diagnostics@.len() as int),
                    unknown_names_of(
                        old(self).symbols.symbols(),
                        old(self).symbols.entries(),
                        old(self).scopes@,
                        old(self).imports@,
                        old(self).current_scope,
                        params@,
                        i as nat,
                    ),
                    span,
                ),
            decreases params@.len() - i,
        {
            let ghost d1 = self.diagnostics@;
            self.resolve_type_expr(&params[i], span);
            proof {
                let d2 = self.diagnostics@;
                assert(d2.subrange(0, d1.len() as int) == d1);
                assert(d2.subrange(0, d0.len() as int) =~= d0);
                assert(d2.subrange(d0.len() as int, d2.len() as int) =~= d1.subrange(d0.len() as int, d1.len() as int)
                    + d2.subrange(d1.len() as int, d2.len() as int));
            }
            i = i + 1;
        }
    }

    /// Record the type for a span, replacing an earlier record for it.
    fn record(&mut self, span: Span, ty: Type)
        requires
            spans_distinct(old(self).type_resolutions@),
        ensures
            spans_distinct(final(self).type_resolutions@),
            entry_for(final(self).type_resolutions@, span) == Some(ty),
            forall|other: Span| other != span ==> entry_for(final(self).type_resolutions@, other) == entry_for(
                old(self).type_resolutions@,
                other,
            ),
            final(self).scopes == old(self).scopes,
            final(self).symbols == old(self).symbols,
            final(self).imports == old(self).imports,
            final(self).current_scope == old(self).current_scope,
            final(self).diagnostics == old(self).diagnostics,
    {
        let ghost before = self.type_resolutions@;
        let mut i: usize = 0;
        while i < self.type_resolutions.len()
            invariant
                self.type_resolutions@ == before,
                before == old(self).type_resolutions@,
                spans_distinct(before),
                self.scopes == old(self).scopes,
                self.symbols == old(self).symbols,
                self.imports == old(self).imports,
                self.current_scope == old(self).current_scope,
                self.diagnostics == old(self).diagnostics,
                i <= before.len(),
                forall|j: int| 0 <= j < i ==> (#[trigger] before[j]).0 != span,
            decreases before.len() - i,
        {
            if self.type_resolutions[i].0 == span {
                let ghost old_entries = self.type_resolutions@;
                self.type_resolutions.set(i, (span, ty));
                proof {
                    lemma_entry_for_update(old_entries, i as int, span, ty);
                }
                return;
            }
            i = i + 1;
        }
        self.type_resolutions.push((span, ty));
        proof {
            lemma_entry_for_push(before, span, ty);
        }
    }

    /// Resolve a named type (either intrinsic or user-defined)
    pub fn resolve_named_type(&mut self, name: &str, span: Span) -> (r: Type)
        requires
            old(self).well_formed(),
        ensures
            final(self).well_formed(),
            final(self).keeps_context(old(self)),
            final(self).type_resolutions == old(self).type_resolutions,
            r == named_type(
                old(self).symbols.symbols(),
                old(self).symbols.entries(),
                old(self).scopes@,
                old(self).imports@,
                old(self).current_scope,
                name@,
            ),
            unknown_type_diagnostics(
                final(self).diagnostics@.subrange(old(self).diagnostics@.len() as int, final(self).diagnostics@.len() as int),
                if name_unknown(
                    old(self).symbols.symbols(),
                    old(self).symbols.entries(),
                    old(self).scopes@,
                    old(self).imports@,
                    old(self).current_scope,
                    name@,
                ) {
                    seq![name@]
                } else {
                    Seq::<Seq<char>>::empty()
                },
                span,
            ),
    {
        let ghost d0 = self.diagnostics@;
        // First try intrinsic types
        if let Some(ty) = Type::from_intrinsic_name(name) {
            proof {
                assert(self.diagnostics@.subrange(d0.len() as int, d0.len() as int) =~= Seq::<Diagnostic>::empty());
                assert(self.diagnostics@.subrange(0, d0.len() as int) =~= d0);
            }
            return ty;
        }
        // Then look up user-defined types in the symbol table
        if let Some(symbol_id) = self.symbols.lookup_in_scope_chain(self.current_scope, name, self.scopes) {
            if let Some(symbol) = self.symbols.get(symbol_id) {
                proof {
                    assert(self.diagnostics@.subrange(d0.len() as int, d0.len() as int) =~= Seq::<Diagnostic>::empty());
                    assert(self.diagnostics@.subrange(0, d0.len() as int) =~= d0);
                }
                return symbol_to_type(symbol);
            }
        }
        // An imported name stands for a type defined elsewhere, unknown here
        if imports_contain(self.imports, name) {
            proof {
                assert(self.diagnostics@.subrange(d0.len() as int, d0.len() as int) =~= Seq::<Diagnostic>::empty());
                assert(self.diagnostics@.subrange(0, d0.len() as int) =~= d0);
            }
            return Type::Unknown;
        }
        // Type not found
        let mut message = String::new();
        push_str(&mut message, "unknown type `");
        push_str(&mut message, name);
        push_str(&mut message, "`");
        let diagnostic = Diagnostic::from_code(&E0402(), span, message.as_str()).with_help(
            "Check the spelling or make sure the type is defined or imported.",
        );
        self.diagnostics.add(diagnostic);
        proof {
            reveal_strlit("E0402");
            assert(self.diagnostics@.subrange(d0.len() as int, self.diagnostics@.len() as int) =~= seq![diagnostic]);
            assert(self.diagnostics@.subrange(0, d0.len() as int) =~= d0);
        }
        Type::Error
    }
}

/// Whether an import entry has the name.
fn imports_contain(imports: &Vec<(String, String)>, name: &str) -> (r: bool)
    ensures
        r == imported(imports@, name@),
{
    let mut i: usize = 0;
    while i < imports.len()
        invariant
            i <= imports@.len(),
            forall|j: int| 0 <= j < i ==> (#[trigger] imports@[j]).0@ != name@,
        decreases imports@.len() - i,
    {
        if str_eq(imports[i].0.as_str(), name) {
            return true;
        }
        i = i + 1;
    }
    false
}

/// Replacing the entry at `i`, the only one for its span, changes what is
/// recorded for that span alone.
pub proof fn lemma_entry_for_update(entries: Seq<(Span, Type)>, i: int, span: Span, ty: Type)
    requires
        spans_distinct(entries),
        0 <= i < entries.len(),
        entries[i].0 == span,
    ensures
        spans_distinct(entries.update(i, (span, ty))),
        entry_for(entries.update(i, (span, ty)), span) == Some(ty),
        forall|other: Span| other != span ==> entry_for(entries.update(i, (span, ty)), other) == entry_for(
            entries,
            other,
        ),
    decreases entries.len(),
{
    let u = entries.update(i, (span, ty));
    assert(spans_distinct(u)) by {
        assert forall|a: int, b: int| 0 <= a < b < u.len() implies (#[trigger] u[a]).0 != (#[trigger] u[b]).0 by {
            assert(entries[a].0 != entries[b].0);
        }
    }
    if i > 0 {
        assert(u.drop_first() =~= entries.drop_first().update(i - 1, (span, ty)));
        assert(spans_distinct(entries.drop_first())) by {
            assert forall|a: int, b: int| 0 <= a < b < entries.drop_first().len() implies
                (#[trigger] entries.drop_first()[a]).0 != (#[trigger] entries.drop_first()[b]).0 by {
                assert(entries[a + 1].0 != entries[b + 1].0);
            }
        }
        lemma_entry_for_update(entries.drop_first(), i - 1, span, ty);
        assert(entries[0].0 != span);
        assert(u[0] == entries[0]);
        assert forall|other: Span| other != span implies entry_for(u, other) == entry_for(entries, other) by {
            assert(entry_for(entries.drop_first().update(i - 1, (span, ty)), other) == entry_for(
                entries.drop_first(),
                other,
            ));
        }
    } else {
        assert(u.drop_first() =~= entries.drop_first());
        assert forall|other: Span| other != span implies entry_for(u, other) == entry_for(entries, other) by {
        }
    }
}

/// Appending an entry for a span with none yet records it, and nothing else changes.
pub proof fn lemma_entry_for_push(entries: Seq<(Span, Type)>, span: Span, ty: Type)
    requires
        spans_distinct(entries),
        forall|j: int| 0 <= j < entries.len() ==> (#[trigger] entries[j]).0 != span,
    ensures
        spans_distinct(entries.push((span, ty))),
        entry_for(entries.push((span, ty)), span) == Some(ty),
        forall|other: Span| other != span ==> entry_for(entries.push((span, ty)), other) == entry_for(
            entries,
            other,
        ),
    decreases entries.len(),
{
    let p = entries.push((span, ty));
    assert(spans_distinct(p)) by {
        assert forall|a: int, b: int| 0 <= a < b < p.len() implies (#[trigger] p[a]).0 != (#[trigger] p[b]).0 by {
            if b < entries.len() {
                assert(entries[a].0 != entries[b].0);
            } else {
                assert(entries[a].0 != span);
            }
        }
    }
    if entries.len() > 0 {
        assert(p.drop_first() =~= entries.drop_first().push((span, ty)));
        assert(spans_distinct(entries.drop_first())) by {
            assert forall|a: int, b: int| 0 <= a < b < entries.drop_first().len() implies
                (#[trigger] entries.drop_first()[a]).0 != (#[trigger] entries.drop_first()[b]).0 by {
                assert(entries[a + 1].0 != entries[b + 1].0);
            }
        }
        assert forall|j: int| 0 <= j < entries.drop_first().len() implies (#[trigger] entries.drop_first()[j]).0
            != span by {
            assert(entries[j + 1].0 != span);
        }
        lemma_entry_for_push(entries.drop_first(), span, ty);
        assert(p[0] == entries[0]);
        assert(entries[0].0 != span);
        assert forall|other: Span| other != span implies entry_for(p, other) == entry_for(entries, other) by {
            assert(entry_for(entries.drop_first().push((span, ty)), other) == entry_for(entries.drop_first(), other));
        }
    } else {
        assert(p.drop_first() =~= Seq::<(Span, Type)>::empty());
        assert forall|other: Span| other != span implies entry_for(p, other) == entry_for(entries, other) by {
            assert(entry_for(p.drop_first(), other) == None::<Type>);
        }
    }
}

} // verus!
