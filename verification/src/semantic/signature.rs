//! Module signatures: the cacheable public interface of a compiled module,
//! and the registry of signatures used for cross-module resolution.

use vstd::prelude::*;
use super::scope::{Scope, ScopeGraph, ScopeId, ScopeKind};
use super::symbol::{Symbol, SymbolId, SymbolKind, SymbolTable};
use crate::source::Span;
use crate::text::str_eq;

verus! {

broadcast use vstd::seq::group_seq_axioms;

/// Current signature format version
pub const SIGNATURE_VERSION: u32 = 1;

/// A module's public interface, cacheable and serializable
#[derive(Debug, Clone)]
pub struct ModuleSignature {
    /// Signature format version (for compatibility checking)
    pub version: u32,
    /// Module path (e.g., "test.data")
    pub path: String,
    /// Exported declarations (top-level types visible to importers)
    pub exports: Vec<ExportedDecl>,
    /// Scope graph for this module
    pub scopes: SerializableScopeGraph,
    /// Symbol table for this module
    pub symbols: SerializableSymbolTable,
}

/// The first export named `name`, if any.
pub open spec fn find_export(exports: Seq<ExportedDecl>, name: Seq<char>) -> Option<ExportedDecl>
    decreases exports.len(),
{
    if exports.len() == 0 {
        None
    } else if exports[0].name@ == name {
        Some(exports[0])
    } else {
        find_export(exports.drop_first(), name)
    }
}

impl ModuleSignature {
    /// Create a new module signature from a module's scope graph and symbol table
    pub fn new(path: String, exports: Vec<ExportedDecl>, scopes: &ScopeGraph, symbols: &SymbolTable) -> (r: Self)
        ensures
            r.version == SIGNATURE_VERSION,
            r.path == path,
            r.exports == exports,
            r.scopes.scopes@.len() == scopes@.len(),
            forall|i: int| 0 <= i < scopes@.len() ==> #[trigger] r.scopes.scopes@[i].mirrors(scopes@[i]),
            r.symbols.symbols@.len() == symbols.symbols().len(),
            forall|i: int| 0 <= i < symbols.symbols().len() ==> #[trigger] r.symbols.symbols@[i].mirrors(symbols.symbols()[i]),
    {
        ModuleSignature {
            version: SIGNATURE_VERSION,
            path,
            exports,
            scopes: SerializableScopeGraph::from_graph(scopes),
            symbols: SerializableSymbolTable::from_table(symbols),
        }
    }

    /// Check if this signature is compatible with the current version
    pub fn is_compatible(&self) -> (r: bool)
        ensures
            r == (self.version == SIGNATURE_VERSION),
    {
        self.version == SIGNATURE_VERSION
    }

    /// Get an exported declaration by name (the first with that name)
    pub fn get_export(&self, name: &str) -> (r: Option<&ExportedDecl>)
        ensures
            match r {
                Some(e) => find_export(self.exports@, name@) == Some(*e),
                None => find_export(self.exports@, name@).is_none(),
            },
    {
        let mut i: usize = 0;
        proof {
            assert(self.exports@.subrange(0, self.exports@.len() as int) =~= self.exports@);
        }
        while i < self.exports.len()
            invariant
                i <= self.exports@.len(),
                find_export(self.exports@, name@) == find_export(self.exports@.subrange(i as int, self.exports@.len() as int), name@),
            decreases self.exports.len() - i,
        {
            proof {
                assert(self.exports@.subrange(i as int, self.exports@.len() as int).drop_first()
                    =~= self.exports@.subrange(i + 1, self.exports@.len() as int));
            }
            if str_eq(self.exports[i].name.as_str(), name) {
                return Some(&self.exports[i]);
            }
            i = i + 1;
        }
        None
    }

    /// Look up a symbol by ID
    pub fn get_symbol(&self, id: SymbolId) -> (r: Option<&SerializableSymbol>)
        ensures
            r == if (id.0 as int) < self.symbols.symbols@.len() {
                Some(&self.symbols.symbols@[id.0 as int])
            } else {
                None::<&SerializableSymbol>
            },
    {
        self.symbols.get(id)
    }

    /// Look up a scope by ID
    pub fn get_scope(&self, id: ScopeId) -> (r: Option<&SerializableScope>)
        ensures
            r == if (id.0 as int) < self.scopes.scopes@.len() {
                Some(&self.scopes.scopes@[id.0 as int])
            } else {
                None::<&SerializableScope>
            },
    {
        self.scopes.get(id)
    }
}

/// An exported declaration from a module
#[derive(Debug, Clone)]
pub struct ExportedDecl {
    /// Name of the exported type
    pub name: String,
    /// Kind of declaration
    pub kind: SymbolKind,
    /// Symbol ID in the module's symbol table
    pub symbol_id: SymbolId,
    /// Body scope ID (for looking up members)
    pub body_scope: Option<ScopeId>,
}

impl ExportedDecl {
    pub fn new(name: String, kind: SymbolKind, symbol_id: SymbolId, body_scope: Option<ScopeId>) -> (r: Self)
        ensures
            r.name == name && r.kind == kind && r.symbol_id == symbol_id && r.body_scope == body_scope,
    {
        ExportedDecl { name, kind, symbol_id, body_scope }
    }
}

/// Serializable version of ScopeGraph
#[derive(Debug, Clone)]
pub struct SerializableScopeGraph {
    pub scopes: Vec<SerializableScope>,
}

impl SerializableScopeGraph {
    /// A copy of every scope of a graph, in order.
    pub fn from_graph(graph: &ScopeGraph) -> (r: Self)
        ensures
            r.scopes@.len() == graph@.len(),
            forall|i: int| 0 <= i < graph@.len() ==> #[trigger] r.scopes@[i].mirrors(graph@[i]),
    {
        let all = graph.as_slice();
        let mut scopes: Vec<SerializableScope> = Vec::new();
        let mut i: usize = 0;
        while i < all.len()
            invariant
                all@ == graph@,
                i <= all@.len(),
                scopes@.len() == i,
                forall|j: int| 0 <= j < i ==> #[trigger] scopes@[j].mirrors(graph@[j]),
            decreases all.len() - i,
        {
            scopes.push(SerializableScope::from_scope(&all[i]));
            i = i + 1;
        }
        SerializableScopeGraph { scopes }
    }

    pub fn get(&self, id: ScopeId) -> (r: Option<&SerializableScope>)
        ensures
            r == if (id.0 as int) < self.scopes@.len() { Some(&self.scopes@[id.0 as int]) } else { None::<&SerializableScope> },
    {
        let i = id.0 as usize;
        if i < self.scopes.len() {
            Some(&self.scopes[i])
        } else {
            None
        }
    }

    pub fn iter(&self) -> (r: std::slice::Iter<'_, SerializableScope>)
        ensures
            exists|s: &[SerializableScope]| s@ == self.scopes@ && r == vstd::std_specs::slice::spec_slice_iter(s),
    {
        self.scopes.iter()
    }

    pub fn len(&self) -> (r: usize)
        ensures
            r == self.scopes@.len(),
    {
        self.scopes.len()
    }

    pub fn is_empty(&self) -> (r: bool)
        ensures
            r == (self.scopes@.len() == 0),
    {
        self.scopes.len() == 0
    }
}

/// Serializable version of Scope
#[derive(Debug, Clone)]
pub struct SerializableScope {
    pub id: ScopeId,
    pub kind: ScopeKind,
    pub parent: Option<ScopeId>,
    pub name: Option<String>,
    pub span: Span,
    pub children: Vec<ScopeId>,
}

fn clone_opt_string(s: &Option<String>) -> (r: Option<String>)
    ensures
        r.is_some() == s.is_some(),
        r matches Some(x) ==> x@ == s.unwrap()@,
{
    match s {
        Some(x) => Some(x.clone()),
        None => None,
    }
}

fn clone_ids(v: &Vec<ScopeId>) -> (r: Vec<ScopeId>)
    ensures
        r@ == v@,
{
    let mut out: Vec<ScopeId> = Vec::new();
    let mut i: usize = 0;
    while i < v.len()
        invariant
            i <= v@.len(),
            out@ == v@.take(i as int),
        decreases v.len() - i,
    {
        out.push(v[i]);
        i = i + 1;
        proof {
            assert(out@ =~= v@.take(i as int));
        }
    }
    proof {
        assert(out@ =~= v@);
    }
    out
}

impl SerializableScope {
    /// The same id, kind, parent, name, span and children as `scope`.
    pub open spec fn mirrors(&self, scope: Scope) -> bool {
        &&& self.id == scope.id && self.kind == scope.kind && self.parent == scope.parent
        &&& self.span == scope.span && self.children@ == scope.children@
        &&& self.name.is_some() == scope.name.is_some()
        &&& (self.name matches Some(n) ==> n@ == scope.name.unwrap()@)
    }

    /// A serializable copy of a scope.
    pub fn from_scope(scope: &Scope) -> (r: Self)
        ensures
            r.mirrors(*scope),
    {
        SerializableScope {
            id: scope.id,
            kind: scope.kind,
            parent: scope.parent,
            name: clone_opt_string(&scope.name),
            span: scope.span,
            children: clone_ids(&scope.children),
        }
    }
}

/// The id of the last symbol defined under (scope, name), if any.
pub open spec fn last_symbol_named(symbols: Seq<SerializableSymbol>, scope: ScopeId, name: Seq<char>) -> Option<SymbolId>
    decreases symbols.len(),
{
    if symbols.len() == 0 {
        None
    } else if symbols.last().scope == scope && symbols.last().name@ == name {
        Some(symbols.last().id)
    } else {
        last_symbol_named(symbols.drop_last(), scope, name)
    }
}

/// Serializable version of SymbolTable. Lookup by (scope, name) finds the
/// last symbol with that key, as rebuilding a map from the list would.
#[derive(Debug, Clone)]
pub struct SerializableSymbolTable {
    pub symbols: Vec<SerializableSymbol>,
}

impl SerializableSymbolTable {
    /// A copy of every symbol of a table, in order.
    pub fn from_table(table: &SymbolTable) -> (r: Self)
        ensures
            r.symbols@.len() == table.symbols().len(),
            forall|i: int| 0 <= i < table.symbols().len() ==> #[trigger] r.symbols@[i].mirrors(table.symbols()[i]),
    {
        let all = table.as_slice();
        let mut symbols: Vec<SerializableSymbol> = Vec::new();
        let mut i: usize = 0;
        while i < all.len()
            invariant
                all@ == table.symbols(),
                i <= all@.len(),
                symbols@.len() == i,
                forall|j: int| 0 <= j < i ==> #[trigger] symbols@[j].mirrors(table.symbols()[j]),
            decreases all.len() - i,
        {
            symbols.push(SerializableSymbol::from_symbol(&all[i]));
            i = i + 1;
        }
        SerializableSymbolTable { symbols }
    }

    pub fn get(&self, id: SymbolId) -> (r: Option<&SerializableSymbol>)
        ensures
            r == if (id.0 as int) < self.symbols@.len() { Some(&self.symbols@[id.0 as int]) } else { None::<&SerializableSymbol> },
    {
        let i = id.0 as usize;
        if i < self.symbols.len() {
            Some(&self.symbols[i])
        } else {
            None
        }
    }

    /// Look up a name in a scope (no parent lookup)
    pub fn lookup_local(&self, scope: ScopeId, name: &str) -> (r: Option<SymbolId>)
        ensures
            r == last_symbol_named(self.symbols@, scope, name@),
    {
        let mut i: usize = self.symbols.len();
        proof {
            assert(self.symbols@.take(i as int) =~= self.symbols@);
        }
        while i > 0
            invariant
                i <= self.symbols@.len(),
                last_symbol_named(self.symbols@, scope, name@) == last_symbol_named(self.symbols@.take(i as int), scope, name@),
            decreases i,
        {
            let s = &self.symbols[i - 1];
            proof {
                assert(self.symbols@.take(i as int).drop_last() =~= self.symbols@.take(i - 1));
            }
            if s.scope == scope && str_eq(s.name.as_str(), name) {
                return Some(s.id);
            }
            i = i - 1;
        }
        None
    }

    pub fn iter(&self) -> (r: std::slice::Iter<'_, SerializableSymbol>)
        ensures
            exists|s: &[SerializableSymbol]| s@ == self.symbols@ && r == vstd::std_specs::slice::spec_slice_iter(s),
    {
        self.symbols.iter()
    }

    pub fn len(&self) -> (r: usize)
        ensures
            r == self.symbols@.len(),
    {
        self.symbols.len()
    }

    pub fn is_empty(&self) -> (r: bool)
        ensures
            r == (self.symbols@.len() == 0),
    {
        self.symbols.len() == 0
    }
}

/// Serializable version of Symbol
#[derive(Debug, Clone)]
pub struct SerializableSymbol {
    pub id: SymbolId,
    pub name: String,
    pub kind: SymbolKind,
    pub scope: ScopeId,
    pub def_span: Span,
    pub body_scope: Option<ScopeId>,
    pub source_module: Option<String>,
}

impl SerializableSymbol {
    /// The same fields as `symbol` (its resolved import is not kept).
    pub open spec fn mirrors(&self, symbol: Symbol) -> bool {
        &&& self.id == symbol.id && self.name@ == symbol.name@ && self.kind == symbol.kind
        &&& self.scope == symbol.scope && self.def_span == symbol.def_span && self.body_scope == symbol.body_scope
        &&& self.source_module.is_some() == symbol.source_module.is_some()
        &&& (self.source_module matches Some(m) ==> m@ == symbol.source_module.unwrap()@)
    }

    /// A serializable copy of a symbol.
    pub fn from_symbol(symbol: &Symbol) -> (r: Self)
        ensures
            r.mirrors(*symbol),
    {
        SerializableSymbol {
            id: symbol.id,
            name: symbol.name.clone(),
            kind: symbol.kind,
            scope: symbol.scope,
            def_span: symbol.def_span,
            body_scope: symbol.body_scope,
            source_module: clone_opt_string(&symbol.source_module),
        }
    }
}

/// Registry of module signatures for cross-module resolution, keyed by module path
#[derive(Debug)]
pub struct SignatureRegistry {
    signatures: Vec<ModuleSignature>,
}

/// Whether signature `i` has module path `path`.
pub open spec fn has_path(sigs: Seq<ModuleSignature>, i: int, path: Seq<char>) -> bool {
    0 <= i < sigs.len() && sigs[i].path@ == path
}

/// Getting a module right after registering its signature gives that
/// signature; every other module reads as before.
pub proof fn law_get_after_register(
    registry: Map<Seq<char>, ModuleSignature>,
    signature: ModuleSignature,
    other: Seq<char>,
)
    ensures
        registry.insert(signature.path@, signature).contains_key(signature.path@),
        registry.insert(signature.path@, signature)[signature.path@] == signature,
        other != signature.path@ ==> (registry.insert(signature.path@, signature).contains_key(other)
            == registry.contains_key(other)),
        other != signature.path@ && registry.contains_key(other) ==> registry.insert(
            signature.path@,
            signature,
        )[other] == registry[other],
{
}

impl SignatureRegistry {
    #[verifier::type_invariant]
    spec fn inv(self) -> bool {
        forall|i: int, j: int| 0 <= i < j < self.signatures@.len() ==>
            self.signatures@[i].path@ != self.signatures@[j].path@
    }

    /// The registered signatures, keyed by module path.
    pub closed spec fn view(&self) -> Map<Seq<char>, ModuleSignature> {
        Map::new(
            |p: Seq<char>| exists|i: int| has_path(self.signatures@, i, p),
            |p: Seq<char>| self.signatures@[choose|i: int| has_path(self.signatures@, i, p)],
        )
    }

    pub fn new() -> (r: Self)
        ensures
            r.view() == Map::<Seq<char>, ModuleSignature>::empty(),
    {
        let r = SignatureRegistry { signatures: Vec::new() };
        proof {
            assert(r.view() =~= Map::<Seq<char>, ModuleSignature>::empty());
        }
        r
    }

    fn find(&self, mod_path: &str) -> (r: Option<usize>)
        ensures
            match r {
                Some(i) => has_path(self.signatures@, i as int, mod_path@),
                None => !exists|i: int| has_path(self.signatures@, i, mod_path@),
            },
    {
        let mut i: usize = 0;
        while i < self.signatures.len()
            invariant
                i <= self.signatures@.len(),
                forall|j: int| 0 <= j < i ==> !has_path(self.signatures@, j, mod_path@),
            decreases self.signatures.len() - i,
        {
            if str_eq(self.signatures[i].path.as_str(), mod_path) {
                return Some(i);
            }
            i = i + 1;
        }
        None
    }

    /// Register a module signature (replacing any with the same path)
    pub fn register(&mut self, signature: ModuleSignature)
        ensures
            final(self).view() == old(self).view().insert(signature.path@, signature),
            final(self).view().dom().finite(),
    {
        proof {
            use_type_invariant(&*self);
        }
        let ghost sig = signature;
        let found = self.find(signature.path.as_str());
        let mut taken = SignatureRegistry::new();
        std::mem::swap(self, &mut taken);
        let SignatureRegistry { signatures } = taken;
        let mut signatures = signatures;
        let ghost before = signatures@;
        match found {
            Some(i) => {
                signatures.set(i, signature);
            },
            None => {
                signatures.push(signature);
            },
        }
        proof {
            let after = signatures@;
            assert forall|a: int, b: int| 0 <= a < b < after.len() implies after[a].path@ != after[b].path@ by {
                if found is None {
                    if b == before.len() {
                        assert(!has_path(before, a, sig.path@));
                    }
                } else {
                    let i = found.unwrap() as int;
                    if a == i {
                        assert(before[b].path@ != before[i].path@);
                    } else if b == i {
                        assert(before[a].path@ != before[i].path@);
                    }
                }
            }
        }
        *self = SignatureRegistry { signatures };
        proof {
            let m_old = old(self).view();
            let m_new = self.view();
            let after = self.signatures@;
            assert forall|p: Seq<char>| #[trigger] m_new.dom().contains(p) == m_old.insert(sig.path@, sig).dom().contains(p) by {
                if p == sig.path@ {
                    if found is None {
                        assert(has_path(after, before.len() as int, p));
                    } else {
                        assert(has_path(after, found.unwrap() as int, p));
                    }
                } else {
                    if exists|i: int| has_path(before, i, p) {
                        let i = choose|i: int| has_path(before, i, p);
                        assert(has_path(after, i, p));
                    }
                    if exists|i: int| has_path(after, i, p) {
                        let i = choose|i: int| has_path(after, i, p);
                        assert(has_path(before, i, p));
                    }
                }
            }
            assert forall|p: Seq<char>| #[trigger] m_new.dom().contains(p) implies m_new[p] == m_old.insert(sig.path@, sig)[p] by {
                let i = choose|i: int| has_path(after, i, p);
                if p == sig.path@ {
                    let k = if found is None { before.len() as int } else { found.unwrap() as int };
                    assert(has_path(after, k, p));
                    assert(i == k);
                } else {
                    assert(has_path(before, i, p));
                    let j = choose|j: int| has_path(before, j, p);
                    if i != j {
                        assert(before[i].path@ != before[j].path@ || i == j);
                    }
                }
            }
            assert(m_new =~= m_old.insert(sig.path@, sig));
        }
        proof {
            use_type_invariant(&*self);
            self.lemma_dom_len();
        }
    }

    /// Get a module signature by path
    pub fn get(&self, mod_path: &str) -> (r: Option<&ModuleSignature>)
        ensures
            match r {
                Some(s) => self.view().contains_key(mod_path@) && *s == self.view()[mod_path@],
                None => !self.view().contains_key(mod_path@),
            },
    {
        proof {
            use_type_invariant(self);
        }
        match self.find(mod_path) {
            Some(i) => {
                proof {
                    let j = choose|j: int| has_path(self.signatures@, j, mod_path@);
                    assert(has_path(self.signatures@, i as int, mod_path@));
                    if j != i as int {
                        assert(self.signatures@[i as int].path@ != self.signatures@[j].path@ || j == i as int);
                    }
                }
                Some(&self.signatures[i])
            },
            None => None,
        }
    }

    /// Check if a module is registered
    pub fn contains(&self, mod_path: &str) -> (r: bool)
        ensures
            r == self.view().contains_key(mod_path@),
    {
        self.find(mod_path).is_some()
    }

    /// Resolve an import (mod_path, name) to the module's export of that name
    pub fn resolve_import(&self, mod_path: &str, name: &str) -> (r: Option<&ExportedDecl>)
        ensures
            match r {
                Some(e) => self.view().contains_key(mod_path@)
                    && find_export(self.view()[mod_path@].exports@, name@) == Some(*e),
                None => !self.view().contains_key(mod_path@)
                    || find_export(self.view()[mod_path@].exports@, name@).is_none(),
            },
    {
        match self.get(mod_path) {
            Some(sig) => sig.get_export(name),
            None => None,
        }
    }

    /// Get all registered module paths (each once, in registration order)
    pub fn module_paths(&self) -> (r: Vec<&String>)
        ensures
            r@.len() == self.view().dom().len(),
            forall|i: int| 0 <= i < r@.len() ==> self.view().contains_key(#[trigger] r@[i]@),
            forall|p: Seq<char>| self.view().contains_key(p) ==> exists|i: int| 0 <= i < r@.len() && r@[i]@ == p,
    {
        proof {
            use_type_invariant(self);
        }
        let mut out: Vec<&String> = Vec::new();
        let mut i: usize = 0;
        while i < self.signatures.len()
            invariant
                i <= self.signatures@.len(),
                out@.len() == i,
                forall|j: int| 0 <= j < i ==> #[trigger] out@[j]@ == self.signatures@[j].path@,
            decreases self.signatures.len() - i,
        {
            out.push(&self.signatures[i].path);
            i = i + 1;
        }
        proof {
            self.lemma_dom_len();
            assert forall|j: int| 0 <= j < out@.len() implies self.view().contains_key(#[trigger] out@[j]@) by {
                assert(has_path(self.signatures@, j, out@[j]@));
            }
            assert forall|p: Seq<char>| self.view().contains_key(p) implies exists|k: int| 0 <= k < out@.len() && out@[k]@ == p by {
                let k = choose|k: int| has_path(self.signatures@, k, p);
                assert(out@[k]@ == p);
            }
        }
        out
    }

    proof fn lemma_dom_len(&self)
        requires
            self.inv(),
        ensures
            self.view().dom().finite(),
            self.view().dom().len() == self.signatures@.len(),
    {
        let paths = self.signatures@.map_values(|s: ModuleSignature| s.path@);
        assert forall|p: Seq<char>| self.view().dom().contains(p) == paths.to_set().contains(p) by {
            if self.view().dom().contains(p) {
                let i = choose|i: int| has_path(self.signatures@, i, p);
                assert(paths[i] == p);
            }
            if paths.contains(p) {
                let i = choose|i: int| 0 <= i < paths.len() && paths[i] == p;
                assert(has_path(self.signatures@, i, p));
            }
        }
        assert(self.view().dom() =~= paths.to_set());
        assert(paths.no_duplicates()) by {
            assert forall|a: int, b: int| 0 <= a < paths.len() && 0 <= b < paths.len() && a != b implies paths[a] != paths[b] by {
                if a < b {
                } else {
                }
            }
        }
        paths.unique_seq_to_set();
    }

    /// Number of registered modules
    pub fn len(&self) -> (r: usize)
        ensures
            self.view().dom().finite(),
            r == self.view().dom().len(),
    {
        proof {
            use_type_invariant(self);
            self.lemma_dom_len();
        }
        self.signatures.len()
    }

    pub fn is_empty(&self) -> (r: bool)
        ensures
            r == (self.view().dom().len() == 0),
    {
        proof {
            use_type_invariant(self);
            self.lemma_dom_len();
        }
        self.signatures.len() == 0
    }
}

impl Default for SignatureRegistry {
    fn default() -> (r: Self)
        ensures
            r.view() == Map::<Seq<char>, ModuleSignature>::empty(),
    {
        SignatureRegistry::new()
    }
}

} // verus!
