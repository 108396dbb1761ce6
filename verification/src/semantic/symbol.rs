//! The symbol table: every named entity of a program, stored in an arena and
//! looked up by (scope, name).

use vstd::prelude::*;
use super::scope::{ancestors_of, ScopeGraph, ScopeId};
use crate::source::Span;
use crate::text::{str_eq, to_string};

verus! {

broadcast use vstd::seq::group_seq_axioms;

/// Unique identifier for a symbol
#[derive(Debug, Clone, Copy, PartialEq, Eq, Hash, Structural)]
pub struct SymbolId(pub u32);

/// The kind of symbol (what the name refers to)
#[derive(Debug, Clone, Copy, PartialEq, Eq, Structural)]
pub enum SymbolKind {
    /// A backend declaration
    Backend,
    /// A blueprint declaration
    Blueprint,
    /// A scheme (data type) declaration
    Scheme,
    /// A contract declaration
    Contract,
    /// A theme declaration
    Theme,
    /// An enum declaration
    Enum,
    /// An enum variant
    EnumVariant,
    /// An arena declaration
    Arena,
    /// A field in a backend, scheme, or theme
    Field,
    /// A virtual/computed field in a scheme
    VirtualField,
    /// A method in a backend or contract
    Method,
    /// A command in a backend
    Command,
    /// A query in a backend
    Query,
    /// A parameter (function/method/blueprint parameter)
    Parameter,
    /// A local variable
    LocalVar,
    /// An instruction set in a theme
    InstructionSet,
    /// A theme variant
    ThemeVariant,
    /// An import alias
    Import,
}

impl SymbolKind {
    pub open spec fn as_str_spec(&self) -> Seq<char> {
        match self {
            SymbolKind::Backend => "backend"@,
            SymbolKind::Blueprint => "blueprint"@,
            SymbolKind::Scheme => "scheme"@,
            SymbolKind::Contract => "contract"@,
            SymbolKind::Theme => "theme"@,
            SymbolKind::Enum => "enum"@,
            SymbolKind::EnumVariant => "enum variant"@,
            SymbolKind::Arena => "arena"@,
            SymbolKind::Field => "field"@,
            SymbolKind::VirtualField => "virtual field"@,
            SymbolKind::Method => "method"@,
            SymbolKind::Command => "command"@,
            SymbolKind::Query => "query"@,
            SymbolKind::Parameter => "parameter"@,
            SymbolKind::LocalVar => "local variable"@,
            SymbolKind::InstructionSet => "instruction set"@,
            SymbolKind::ThemeVariant => "theme variant"@,
            SymbolKind::Import => "import"@,
        }
    }

    pub fn as_str(&self) -> (r: &'static str)
        ensures
            r@ == self.as_str_spec(),
    {
        match self {
            SymbolKind::Backend => "backend",
            SymbolKind::Blueprint => "blueprint",
            SymbolKind::Scheme => "scheme",
            SymbolKind::Contract => "contract",
            SymbolKind::Theme => "theme",
            SymbolKind::Enum => "enum",
            SymbolKind::EnumVariant => "enum variant",
            SymbolKind::Arena => "arena",
            SymbolKind::Field => "field",
            SymbolKind::VirtualField => "virtual field",
            SymbolKind::Method => "method",
            SymbolKind::Command => "command",
            SymbolKind::Query => "query",
            SymbolKind::Parameter => "parameter",
            SymbolKind::LocalVar => "local variable",
            SymbolKind::InstructionSet => "instruction set",
            SymbolKind::ThemeVariant => "theme variant",
            SymbolKind::Import => "import",
        }
    }

    pub open spec fn spec_is_type_definition(&self) -> bool {
        matches!(self, SymbolKind::Backend | SymbolKind::Blueprint | SymbolKind::Scheme
            | SymbolKind::Contract | SymbolKind::Theme | SymbolKind::Enum)
    }

    /// Check if this symbol kind defines a type
    #[verifier::when_used_as_spec(spec_is_type_definition)]
    pub fn is_type_definition(&self) -> (r: bool)
        ensures
            r == self.spec_is_type_definition(),
    {
        matches!(self, SymbolKind::Backend | SymbolKind::Blueprint | SymbolKind::Scheme
            | SymbolKind::Contract | SymbolKind::Theme | SymbolKind::Enum)
    }

    pub open spec fn spec_is_callable(&self) -> bool {
        matches!(self, SymbolKind::Method | SymbolKind::Command | SymbolKind::Query | SymbolKind::Blueprint)
    }

    /// Check if this symbol kind is callable
    #[verifier::when_used_as_spec(spec_is_callable)]
    pub fn is_callable(&self) -> (r: bool)
        ensures
            r == self.spec_is_callable(),
    {
        matches!(self, SymbolKind::Method | SymbolKind::Command | SymbolKind::Query | SymbolKind::Blueprint)
    }
}

/// A symbol representing a named entity
#[derive(Debug, Clone)]
pub struct Symbol {
    /// Unique identifier
    pub id: SymbolId,
    /// Name of the symbol
    pub name: String,
    /// Kind of symbol
    pub kind: SymbolKind,
    /// Scope this symbol is defined in
    pub scope: ScopeId,
    /// Span where this symbol is defined
    pub def_span: Span,
    /// For type definitions, the scope they create
    pub body_scope: Option<ScopeId>,
    /// For imports, the resolved symbol (if resolved)
    pub resolved_import: Option<SymbolId>,
    /// Source module for external/imported symbols (None = local)
    pub source_module: Option<String>,
}

impl Symbol {
    /// A symbol with the given fields and no body scope, import or source module.
    pub open spec fn is_fresh(&self, id: SymbolId, name: Seq<char>, kind: SymbolKind, scope: ScopeId, def_span: Span) -> bool {
        &&& self.id == id && self.name@ == name && self.kind == kind && self.scope == scope
        &&& self.def_span == def_span
        &&& self.body_scope.is_none() && self.resolved_import.is_none() && self.source_module.is_none()
    }

    pub fn new(id: SymbolId, name: &str, kind: SymbolKind, scope: ScopeId, def_span: Span) -> (r: Self)
        ensures
            r.is_fresh(id, name@, kind, scope, def_span),
    {
        Symbol {
            id,
            name: to_string(name),
            kind,
            scope,
            def_span,
            body_scope: None,
            resolved_import: None,
            source_module: None,
        }
    }

    /// Create a symbol that defines a scope (backend, blueprint, etc.)
    pub fn with_body_scope(self, body_scope: ScopeId) -> (r: Self)
        ensures
            r.body_scope == Some(body_scope),
            r.id == self.id && r.name == self.name && r.kind == self.kind && r.scope == self.scope
                && r.def_span == self.def_span && r.resolved_import == self.resolved_import
                && r.source_module == self.source_module,
    {
        let mut s = self;
        s.body_scope = Some(body_scope);
        s
    }

    /// Check if this symbol is from an external module (imported)
    pub fn is_external(&self) -> (r: bool)
        ensures
            r == self.source_module.is_some(),
    {
        self.source_module.is_some()
    }
}

/// A lookup entry: the scope and name a symbol was defined under, and its id.
pub type LookupEntry = (ScopeId, Seq<char>, SymbolId);

/// Whether entry `i` is for `name` in `scope`.
pub open spec fn entry_matches(entries: Seq<LookupEntry>, i: int, scope: ScopeId, name: Seq<char>) -> bool {
    0 <= i < entries.len() && entries[i].0 == scope && entries[i].1 == name
}

/// The id recorded for `name` in `scope`, if any.
pub open spec fn lookup_entry(entries: Seq<LookupEntry>, scope: ScopeId, name: Seq<char>) -> Option<SymbolId> {
    if exists|i: int| entry_matches(entries, i, scope, name) {
        let i = choose|i: int| entry_matches(entries, i, scope, name);
        Some(entries[i].2)
    } else {
        None
    }
}

/// No two entries share a (scope, name).
pub open spec fn entries_unique(entries: Seq<LookupEntry>) -> bool {
    forall|i: int, j: int| 0 <= i < j < entries.len() ==> !(entries[i].0 == entries[j].0 && entries[i].1 == entries[j].1)
}

/// The first scope of `chain` in which `name` is defined, with its symbol.
pub open spec fn lookup_chain(entries: Seq<LookupEntry>, chain: Seq<ScopeId>, name: Seq<char>) -> Option<SymbolId>
    decreases chain.len(),
{
    if chain.len() == 0 {
        None
    } else {
        match lookup_entry(entries, chain[0], name) {
            Some(id) => Some(id),
            None => lookup_chain(entries, chain.drop_first(), name),
        }
    }
}

/// The first child scope (in creation order) that defines `name`, with its symbol.
pub open spec fn lookup_children(entries: Seq<LookupEntry>, children: Seq<ScopeId>, name: Seq<char>) -> Option<(SymbolId, ScopeId)>
    decreases children.len(),
{
    if children.len() == 0 {
        None
    } else {
        match lookup_entry(entries, children[0], name) {
            Some(id) => Some((id, children[0])),
            None => lookup_children(entries, children.drop_first(), name),
        }
    }
}

/// The symbols defined in `scope` among the first `n` entries, in definition order.
pub open spec fn scope_members(entries: Seq<LookupEntry>, symbols: Seq<Symbol>, scope: ScopeId, n: nat) -> Seq<Symbol>
    decreases n,
{
    if n == 0 || n > entries.len() {
        Seq::empty()
    } else {
        let prev = scope_members(entries, symbols, scope, (n - 1) as nat);
        let e = entries[n - 1];
        if e.0 == scope && (e.2.0 as int) < symbols.len() {
            prev.push(symbols[e.2.0 as int])
        } else {
            prev
        }
    }
}

/// Looking up a name right after defining it in a scope gives the new symbol,
/// and every other (scope, name) looks up as it did before.
pub proof fn law_lookup_after_define(
    entries: Seq<LookupEntry>,
    scope: ScopeId,
    name: Seq<char>,
    id: SymbolId,
    other_scope: ScopeId,
    other_name: Seq<char>,
)
    requires
        entries_unique(entries),
        lookup_entry(entries, scope, name).is_none(),
    ensures
        lookup_entry(entries.push((scope, name, id)), scope, name) == Some(id),
        !(other_scope == scope && other_name == name) ==> lookup_entry(
            entries.push((scope, name, id)),
            other_scope,
            other_name,
        ) == lookup_entry(entries, other_scope, other_name),
{
    let after = entries.push((scope, name, id));
    let n = entries.len() as int;
    assert(entry_matches(after, n, scope, name));
    let i = choose|i: int| entry_matches(after, i, scope, name);
    if i < n {
        assert(entry_matches(entries, i, scope, name));
    }
    if !(other_scope == scope && other_name == name) {
        if exists|j: int| entry_matches(after, j, other_scope, other_name) {
            let j = choose|j: int| entry_matches(after, j, other_scope, other_name);
            assert(entry_matches(entries, j, other_scope, other_name));
        }
        if exists|j: int| entry_matches(entries, j, other_scope, other_name) {
            let j = choose|j: int| entry_matches(entries, j, other_scope, other_name);
            assert(entry_matches(after, j, other_scope, other_name));
        }
    }
}

/// Symbol table: arena-based storage with scope-based lookup
#[derive(Debug)]
pub struct SymbolTable {
    /// All symbols stored in an arena
    symbols: Vec<Symbol>,
    /// (scope, name) -> symbol ID, in definition order
    name_lookup: Vec<(ScopeId, String, SymbolId)>,
}

impl SymbolTable {
    /// All symbols, in definition order.
    pub closed spec fn symbols(&self) -> Seq<Symbol> {
        self.symbols@
    }

    /// The lookup entries, in definition order.
    pub closed spec fn entries(&self) -> Seq<LookupEntry> {
        self.name_lookup@.map_values(|e: (ScopeId, String, SymbolId)| (e.0, e.1@, e.2))
    }

    /// One entry per symbol, ids as assigned at definition, no (scope, name) twice.
    pub open spec fn wf(&self) -> bool {
        &&& self.entries().len() == self.symbols().len()
        &&& entries_unique(self.entries())
    }

    pub fn new() -> (r: Self)
        ensures
            r.wf(),
            r.symbols() == Seq::<Symbol>::empty(),
            r.entries() == Seq::<LookupEntry>::empty(),
    {
        let r = SymbolTable { symbols: Vec::new(), name_lookup: Vec::new() };
        proof {
            assert(r.entries() =~= Seq::<LookupEntry>::empty());
        }
        r
    }

    /// Look up a name in a specific scope only (no parent lookup)
    pub fn lookup_local(&self, scope: ScopeId, name: &str) -> (r: Option<SymbolId>)
        requires
            self.wf(),
        ensures
            r == lookup_entry(self.entries(), scope, name@),
    {
        let mut i: usize = 0;
        while i < self.name_lookup.len()
            invariant
                self.wf(),
                i <= self.name_lookup@.len(),
                forall|j: int| 0 <= j < i ==> !entry_matches(self.entries(), j, scope, name@),
            decreases self.name_lookup.len() - i,
        {
            let e = &self.name_lookup[i];
            if e.0 == scope && str_eq(e.1.as_str(), name) {
                proof {
                    assert(entry_matches(self.entries(), i as int, scope, name@));
                    let k = choose|k: int| entry_matches(self.entries(), k, scope, name@);
                    if k != i as int {
                        assert(entries_unique(self.entries()));
                        if k < i as int {
                            assert(false);
                        } else {
                            assert(!(self.entries()[i as int].0 == self.entries()[k].0 && self.entries()[i as int].1 == self.entries()[k].1));
                        }
                    }
                }
                return Some(e.2);
            }
            i = i + 1;
        }
        None
    }

    fn define_entry(&mut self, name: &str, kind: SymbolKind, scope: ScopeId, def_span: Span, source_module: Option<String>) -> (r: Option<SymbolId>)
        requires
            old(self).wf(),
        ensures
            final(self).wf(),
            r.is_none() == lookup_entry(old(self).entries(), scope, name@).is_some(),
            r.is_none() ==> final(self).symbols() == old(self).symbols() && final(self).entries() == old(self).entries(),
            r matches Some(id) ==> {
                &&& id.0 == old(self).symbols().len() as u32
                &&& final(self).symbols().len() == old(self).symbols().len() + 1
                &&& final(self).symbols().drop_last() == old(self).symbols()
                &&& final(self).symbols().last().id == id
                &&& final(self).symbols().last().name@ == name@
                &&& final(self).symbols().last().kind == kind
                &&& final(self).symbols().last().scope == scope
                &&& final(self).symbols().last().def_span == def_span
                &&& final(self).symbols().last().body_scope.is_none()
                &&& final(self).symbols().last().resolved_import.is_none()
                &&& final(self).symbols().last().source_module == source_module
                &&& final(self).entries() == old(self).entries().push((scope, name@, id))
            },
    {
        if self.lookup_local(scope, name).is_some() {
            return None;
        }
        let id = SymbolId(self.symbols.len() as u32);
        let mut symbol = Symbol::new(id, name, kind, scope, def_span);
        symbol.source_module = source_module;
        self.symbols.push(symbol);
        self.name_lookup.push((scope, to_string(name), id));
        proof {
            let old_e = old(self).entries();
            assert(self.entries() =~= old_e.push((scope, name@, id)));
            assert forall|i: int, j: int| 0 <= i < j < self.entries().len() implies
                !(self.entries()[i].0 == self.entries()[j].0 && self.entries()[i].1 == self.entries()[j].1) by {
                if j == old_e.len() {
                    assert(!entry_matches(old_e, i, scope, name@));
                }
            }
            assert(self.symbols@.drop_last() =~= old(self).symbols@);
        }
        Some(id)
    }

    /// Define a new symbol in a scope; `None` if the name is already defined in
    /// that scope (duplicate definition).
    pub fn define(&mut self, name: &str, kind: SymbolKind, scope: ScopeId, def_span: Span) -> (r: Option<SymbolId>)
        requires
            old(self).wf(),
        ensures
            final(self).wf(),
            r.is_none() == lookup_entry(old(self).entries(), scope, name@).is_some(),
            r.is_none() ==> final(self).symbols() == old(self).symbols() && final(self).entries() == old(self).entries(),
            r matches Some(id) ==> {
                &&& id.0 == old(self).symbols().len() as u32
                &&& final(self).symbols() == old(self).symbols().push(final(self).symbols().last())
                &&& final(self).symbols().last().is_fresh(id, name@, kind, scope, def_span)
                &&& final(self).entries() == old(self).entries().push((scope, name@, id))
            },
    {
        let r = self.define_entry(name, kind, scope, def_span, None);
        proof {
            if r.is_some() {
                assert(self.symbols() =~= old(self).symbols().push(self.symbols().last()));
            }
        }
        r
    }

    /// Define a symbol that creates a scope (backend, blueprint, etc.)
    pub fn define_with_scope(&mut self, name: &str, kind: SymbolKind, scope: ScopeId, body_scope: ScopeId, def_span: Span) -> (r: Option<SymbolId>)
        requires
            old(self).wf(),
        ensures
            final(self).wf(),
            r.is_none() == lookup_entry(old(self).entries(), scope, name@).is_some(),
            r.is_none() ==> final(self).symbols() == old(self).symbols() && final(self).entries() == old(self).entries(),
            r matches Some(id) ==> {
                &&& id.0 == old(self).symbols().len() as u32
                &&& final(self).entries() == old(self).entries().push((scope, name@, id))
                &&& final(self).symbols().len() == old(self).symbols().len() + 1
                &&& old(self).symbols().len() < u32::MAX ==> {
                    &&& final(self).symbols().drop_last() == old(self).symbols()
                    &&& final(self).symbols().last().id == id
                    &&& final(self).symbols().last().name@ == name@
                    &&& final(self).symbols().last().kind == kind
                    &&& final(self).symbols().last().scope == scope
                    &&& final(self).symbols().last().def_span == def_span
                    &&& final(self).symbols().last().body_scope == Some(body_scope)
                    &&& final(self).symbols().last().resolved_import.is_none()
                    &&& final(self).symbols().last().source_module.is_none()
                }
            },
    {
        let r = self.define_entry(name, kind, scope, def_span, None);
        match r {
            Some(id) => {
                let ghost mid = self.symbols@;
                let i = id.0 as usize;
                if i < self.symbols.len() {
                    let mut target = Symbol::new(id, "", kind, scope, def_span);
                    std::mem::swap(&mut target, &mut self.symbols[i]);
                    target.body_scope = Some(body_scope);
                    std::mem::swap(&mut target, &mut self.symbols[i]);
                }
                proof {
                    if old(self).symbols().len() < u32::MAX {
                        assert(i == mid.len() - 1);
                        assert(self.symbols@.drop_last() =~= mid.drop_last());
                    }
                }
                Some(id)
            },
            None => None,
        }
    }

    /// Define an external symbol imported from another module; `None` if the
    /// name is already defined in that scope.
    pub fn define_external(&mut self, name: &str, kind: SymbolKind, scope: ScopeId, def_span: Span, source_module: String) -> (r: Option<SymbolId>)
        requires
            old(self).wf(),
        ensures
            final(self).wf(),
            r.is_none() == lookup_entry(old(self).entries(), scope, name@).is_some(),
            r.is_none() ==> final(self).symbols() == old(self).symbols() && final(self).entries() == old(self).entries(),
            r matches Some(id) ==> {
                &&& id.0 == old(self).symbols().len() as u32
                &&& final(self).symbols().len() == old(self).symbols().len() + 1
                &&& final(self).symbols().drop_last() == old(self).symbols()
                &&& final(self).symbols().last().id == id
                &&& final(self).symbols().last().name@ == name@
                &&& final(self).symbols().last().kind == kind
                &&& final(self).symbols().last().scope == scope
                &&& final(self).symbols().last().def_span == def_span
                &&& final(self).symbols().last().body_scope.is_none()
                &&& final(self).symbols().last().resolved_import.is_none()
                &&& final(self).symbols().last().source_module == Some(source_module)
                &&& final(self).entries() == old(self).entries().push((scope, name@, id))
            },
    {
        self.define_entry(name, kind, scope, def_span, Some(source_module))
    }

    /// Get a symbol by ID
    pub fn get(&self, id: SymbolId) -> (r: Option<&Symbol>)
        ensures
            r == if (id.0 as int) < self.symbols().len() { Some(&self.symbols()[id.0 as int]) } else { None::<&Symbol> },
    {
        let i = id.0 as usize;
        if i < self.symbols.len() {
            Some(&self.symbols[i])
        } else {
            None
        }
    }

    /// Get a mutable symbol by ID
    pub fn get_mut(&mut self, id: SymbolId) -> (r: Option<&mut Symbol>)
        ensures
            final(self).entries() == old(self).entries(),
            match r {
                Some(s) => (id.0 as int) < old(self).symbols().len() && *s == old(self).symbols()[id.0 as int]
                    && final(self).symbols() == old(self).symbols().update(id.0 as int, *final(s)),
                None => (id.0 as int) >= old(self).symbols().len() && final(self).symbols() == old(self).symbols(),
            },
    {
        let i = id.0 as usize;
        if i < self.symbols.len() {
            Some(&mut self.symbols[i])
        } else {
            None
        }
    }

    /// Look up a name following the scope chain (local -> parent -> ... -> module).
    /// Imports are not consulted here.
    pub fn lookup_in_scope_chain(&self, scope: ScopeId, name: &str, scopes: &ScopeGraph) -> (r: Option<SymbolId>)
        requires
            self.wf(),
            scopes.wf(),
        ensures
            r == lookup_chain(self.entries(), seq![scope] + ancestors_of(scopes@, scope), name@),
    {
        proof {
            assert((seq![scope] + ancestors_of(scopes@, scope)).drop_first() =~= ancestors_of(scopes@, scope));
        }
        if let Some(id) = self.lookup_local(scope, name) {
            return Some(id);
        }
        self.lookup_first(&scopes.ancestors(scope), name)
    }

    fn lookup_first(&self, chain: &Vec<ScopeId>, name: &str) -> (r: Option<SymbolId>)
        requires
            self.wf(),
        ensures
            r == lookup_chain(self.entries(), chain@, name@),
    {
        let mut i: usize = 0;
        proof {
            assert(chain@.subrange(0, chain@.len() as int) =~= chain@);
        }
        while i < chain.len()
            invariant
                self.wf(),
                i <= chain@.len(),
                lookup_chain(self.entries(), chain@, name@) == lookup_chain(self.entries(), chain@.subrange(i as int, chain@.len() as int), name@),
            decreases chain.len() - i,
        {
            proof {
                assert(chain@.subrange(i as int, chain@.len() as int).drop_first() =~= chain@.subrange(i + 1, chain@.len() as int));
            }
            if let Some(id) = self.lookup_local(chain[i], name) {
                return Some(id);
            }
            i = i + 1;
        }
        None
    }

    /// Look up a name in the immediate children of a scope (in creation order);
    /// returns the symbol and the child scope where it was found
    pub fn lookup_in_children(&self, scope: ScopeId, name: &str, scopes: &ScopeGraph) -> (r: Option<(SymbolId, ScopeId)>)
        requires
            self.wf(),
        ensures
            r == if (scope.0 as int) < scopes@.len() {
                lookup_children(self.entries(), scopes@[scope.0 as int].children@, name@)
            } else {
                None
            },
    {
        match scopes.get(scope) {
            Some(parent_scope) => {
                let children = &parent_scope.children;
                let mut i: usize = 0;
                proof {
                    assert(children@.subrange(0, children@.len() as int) =~= children@);
                }
                while i < children.len()
                    invariant
                        self.wf(),
                        (scope.0 as int) < scopes@.len(),
                        children@ == scopes@[scope.0 as int].children@,
                        i <= children@.len(),
                        lookup_children(self.entries(), children@, name@) == lookup_children(self.entries(), children@.subrange(i as int, children@.len() as int), name@),
                    decreases children.len() - i,
                {
                    proof {
                        assert(children@.subrange(i as int, children@.len() as int).drop_first() =~= children@.subrange(i + 1, children@.len() as int));
                    }
                    if let Some(id) = self.lookup_local(children[i], name) {
                        return Some((id, children[i]));
                    }
                    i = i + 1;
                }
                None
            },
            None => None,
        }
    }

    /// Get all symbols defined in a scope, in definition order
    pub fn symbols_in_scope(&self, scope: ScopeId) -> (r: Vec<&Symbol>)
        requires
            self.wf(),
        ensures
            r@.map_values(|s: &Symbol| *s) == scope_members(self.entries(), self.symbols(), scope, self.entries().len()),
    {
        let mut out: Vec<&Symbol> = Vec::new();
        let mut i: usize = 0;
        while i < self.name_lookup.len()
            invariant
                self.wf(),
                i <= self.name_lookup@.len(),
                out@.map_values(|s: &Symbol| *s) == scope_members(self.entries(), self.symbols(), scope, i as nat),
            decreases self.name_lookup.len() - i,
        {
            let e = &self.name_lookup[i];
            let ghost prev = out@;
            if e.0 == scope {
                if let Some(s) = self.get(e.2) {
                    out.push(s);
                    proof {
                        assert(out@.map_values(|s: &Symbol| *s) =~= prev.map_values(|s: &Symbol| *s).push(*s));
                    }
                }
            }
            i = i + 1;
        }
        out
    }

    /// Get all symbols in the table
    pub fn iter(&self) -> (r: std::slice::Iter<'_, Symbol>)
        ensures
            exists|s: &[Symbol]| s@ == self.symbols() && r == vstd::std_specs::slice::spec_slice_iter(s),
    {
        self.symbols.iter()
    }

    /// All symbols, in definition order.
    pub fn as_slice(&self) -> (r: &[Symbol])
        ensures
            r@ == self.symbols(),
    {
        self.symbols.as_slice()
    }

    /// Get the number of symbols
    pub fn len(&self) -> (r: usize)
        ensures
            r == self.symbols().len(),
    {
        self.symbols.len()
    }

    /// Check if empty
    pub fn is_empty(&self) -> (r: bool)
        ensures
            r == (self.symbols().len() == 0),
    {
        self.symbols.len() == 0
    }

    /// Check if a name exists anywhere in the ancestor chain (for shadowing check)
    pub fn name_exists_in_ancestors(&self, scope: ScopeId, name: &str, scopes: &ScopeGraph) -> (r: Option<SymbolId>)
        requires
            self.wf(),
            scopes.wf(),
        ensures
            r == lookup_chain(self.entries(), ancestors_of(scopes@, scope), name@),
    {
        self.lookup_first(&scopes.ancestors(scope), name)
    }
}

impl Default for SymbolTable {
    fn default() -> (r: Self)
        ensures
            r.wf(),
            r.symbols() == Seq::<Symbol>::empty(),
            r.entries() == Seq::<LookupEntry>::empty(),
    {
        SymbolTable::new()
    }
}

/// Result of looking up a name
#[derive(Debug, Clone, Copy, PartialEq, Eq, Structural)]
pub enum LookupResult {
    /// Found exactly one symbol
    Found(SymbolId),
    /// Name not found
    NotFound,
    /// Name would shadow a symbol in an outer scope
    WouldShadow(SymbolId),
    /// Duplicate definition in the same scope
    Duplicate(SymbolId),
}

} // verus!
