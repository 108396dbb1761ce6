//! The scope graph: the scope hierarchy used for name resolution.
//! Frel uses a 4-layer scoping model (local -> parent -> imports -> module)
//! with no shadowing allowed.

use vstd::prelude::*;
use crate::source::Span;
use crate::text::to_string;

verus! {

broadcast use vstd::seq::group_seq_axioms;

/// Unique identifier for a scope in the scope graph
#[derive(Debug, Clone, Copy, PartialEq, Eq, Hash, Structural)]
pub struct ScopeId(pub u32);

impl ScopeId {
    /// The root/module scope ID
    pub open spec fn root_spec() -> ScopeId {
        ScopeId(0)
    }

    /// The root/module scope ID
    #[allow(non_snake_case)]
    pub fn ROOT() -> (r: ScopeId)
        ensures
            r == ScopeId::root_spec(),
    {
        ScopeId(0)
    }
}

/// The kind of scope, determines what names are valid and how lookup works
#[derive(Debug, Clone, Copy, PartialEq, Eq, Structural)]
pub enum ScopeKind {
    /// Module-level scope (top-level declarations)
    Module,
    /// Backend scope (fields, methods, commands)
    Backend,
    /// Blueprint scope (local decls, children)
    Blueprint,
    /// Scheme scope (fields, virtuals)
    Scheme,
    /// Contract scope (methods)
    Contract,
    /// Theme scope (fields, instruction sets, variants)
    Theme,
    /// Enum scope (variants)
    Enum,
    /// Block scope (local variables within handlers, repeat loops, etc.)
    Block,
    /// Function/method parameter scope
    Parameters,
}

impl ScopeKind {
    pub open spec fn as_str_spec(&self) -> Seq<char> {
        match self {
            ScopeKind::Module => "module"@,
            ScopeKind::Backend => "backend"@,
            ScopeKind::Blueprint => "blueprint"@,
            ScopeKind::Scheme => "scheme"@,
            ScopeKind::Contract => "contract"@,
            ScopeKind::Theme => "theme"@,
            ScopeKind::Enum => "enum"@,
            ScopeKind::Block => "block"@,
            ScopeKind::Parameters => "parameters"@,
        }
    }

    pub fn as_str(&self) -> (r: &'static str)
        ensures
            r@ == self.as_str_spec(),
    {
        match self {
            ScopeKind::Module => "module",
            ScopeKind::Backend => "backend",
            ScopeKind::Blueprint => "blueprint",
            ScopeKind::Scheme => "scheme",
            ScopeKind::Contract => "contract",
            ScopeKind::Theme => "theme",
            ScopeKind::Enum => "enum",
            ScopeKind::Block => "block",
            ScopeKind::Parameters => "parameters",
        }
    }
}

/// A scope in the scope graph
#[derive(Debug, Clone)]
pub struct Scope {
    /// Unique identifier
    pub id: ScopeId,
    /// Kind of scope
    pub kind: ScopeKind,
    /// Parent scope (None for root/module scope)
    pub parent: Option<ScopeId>,
    /// Name of the scope (for named scopes like backends, blueprints)
    pub name: Option<String>,
    /// Span in source where this scope is defined
    pub span: Span,
    /// Child scopes
    pub children: Vec<ScopeId>,
}

impl Scope {
    /// Create a new scope
    pub fn new(id: ScopeId, kind: ScopeKind, parent: Option<ScopeId>, span: Span) -> (r: Self)
        ensures
            r.id == id && r.kind == kind && r.parent == parent && r.name.is_none() && r.span == span,
            r.children@.len() == 0,
    {
        Scope { id, kind, parent, name: None, span, children: Vec::new() }
    }

    /// Create a named scope
    pub fn named(id: ScopeId, kind: ScopeKind, parent: Option<ScopeId>, name: &str, span: Span) -> (r: Self)
        ensures
            r.id == id && r.kind == kind && r.parent == parent && r.span == span,
            r.name matches Some(n) && n@ == name@,
            r.children@.len() == 0,
    {
        Scope { id, kind, parent, name: Some(to_string(name)), span, children: Vec::new() }
    }

    pub open spec fn spec_can_contain_declaration(&self) -> bool {
        matches!(self.kind, ScopeKind::Module | ScopeKind::Backend | ScopeKind::Blueprint | ScopeKind::Scheme
            | ScopeKind::Contract | ScopeKind::Theme | ScopeKind::Enum)
    }

    /// Check if this scope can contain declarations (everything but blocks and parameter lists)
    pub fn can_contain_declaration(&self) -> (r: bool)
        ensures
            r == self.spec_can_contain_declaration(),
    {
        matches!(self.kind, ScopeKind::Module | ScopeKind::Backend | ScopeKind::Blueprint | ScopeKind::Scheme
            | ScopeKind::Contract | ScopeKind::Theme | ScopeKind::Enum)
    }

    pub open spec fn spec_is_type_definition(&self) -> bool {
        matches!(self.kind, ScopeKind::Backend | ScopeKind::Blueprint | ScopeKind::Scheme
            | ScopeKind::Contract | ScopeKind::Theme | ScopeKind::Enum)
    }

    /// Check if this scope represents a type definition
    pub fn is_type_definition(&self) -> (r: bool)
        ensures
            r == self.spec_is_type_definition(),
    {
        matches!(self.kind, ScopeKind::Backend | ScopeKind::Blueprint | ScopeKind::Scheme
            | ScopeKind::Contract | ScopeKind::Theme | ScopeKind::Enum)
    }
}

/// The parent recorded for the scope with id `id` (none when there is no such scope).
pub open spec fn parent_in(scopes: Seq<Scope>, id: ScopeId) -> Option<ScopeId> {
    if (id.0 as int) < scopes.len() {
        scopes[id.0 as int].parent
    } else {
        None
    }
}

/// Every scope's parent id is smaller than its own position: the graph is a forest
/// in which following parents always terminates.
pub open spec fn parents_precede(scopes: Seq<Scope>) -> bool {
    forall|i: int| 0 <= i < scopes.len() ==> ((#[trigger] scopes[i]).parent matches Some(p) ==> (p.0 as int) < i)
}

/// Every scope's children come after it, so the tree below a scope is finite.
pub open spec fn children_follow(scopes: Seq<Scope>) -> bool {
    forall|i: int, k: int|
        0 <= i < scopes.len() && 0 <= k < scopes[i].children@.len() ==> (#[trigger] scopes[i].children@[k]).0
            > i
}

/// The ancestors of a scope, nearest first (the scope itself excluded).
pub open spec fn ancestors_of(scopes: Seq<Scope>, id: ScopeId) -> Seq<ScopeId>
    decreases id.0,
    when parents_precede(scopes)
{
    match parent_in(scopes, id) {
        Some(p) => seq![p] + ancestors_of(scopes, p),
        None => Seq::empty(),
    }
}

/// Arena-based storage for scopes
#[derive(Debug)]
pub struct ScopeGraph {
    scopes: Vec<Scope>,
}

impl View for ScopeGraph {
    type V = Seq<Scope>;

    closed spec fn view(&self) -> Seq<Scope> {
        self.scopes@
    }
}

impl ScopeGraph {
    pub fn new() -> (r: Self)
        ensures
            r@ == Seq::<Scope>::empty(),
    {
        ScopeGraph { scopes: Vec::new() }
    }

    /// Every graph built only by `create_root` and by `create_*scope` calls whose
    /// parent already exists has its parents before its children, and its
    /// children after their parents.
    pub open spec fn wf(&self) -> bool {
        &&& parents_precede(self@)
        &&& children_follow(self@)
    }

    /// Create the root/module scope
    pub fn create_root(&mut self, span: Span) -> (r: ScopeId)
        ensures
            r.0 == old(self)@.len() as u32,
            final(self)@ == old(self)@.push(Scope {
                id: r,
                kind: ScopeKind::Module,
                parent: None,
                name: final(self)@.last().name,
                span,
                children: final(self)@.last().children,
            }),
            final(self)@.last().name.is_none(),
            final(self)@.last().children@.len() == 0,
            old(self).wf() ==> final(self).wf(),
    {
        let id = ScopeId(self.scopes.len() as u32);
        self.scopes.push(Scope::new(id, ScopeKind::Module, None, span));
        id
    }

    fn push_child(&mut self, kind: ScopeKind, parent: ScopeId, name: Option<&str>, span: Span) -> (r: ScopeId)
        ensures
            r.0 == old(self)@.len() as u32,
            final(self)@.len() == old(self)@.len() + 1,
            ScopeGraph::added_child(old(self)@, final(self)@, r, kind, parent, span),
            match name {
                Some(n) => final(self)@.last().name matches Some(m) && m@ == n@,
                None => final(self)@.last().name.is_none(),
            },
            old(self).wf() && (parent.0 as int) < old(self)@.len() < u32::MAX ==> final(self).wf(),
    {
        let len = self.scopes.len();
        let id = ScopeId(len as u32);
        let scope = match name {
            Some(n) => Scope::named(id, kind, Some(parent), n, span),
            None => Scope::new(id, kind, Some(parent), span),
        };
        self.scopes.push(scope);
        let ghost pushed = self.scopes@;
        let p = parent.0 as usize;
        if p < self.scopes.len() {
            let ghost orig = pushed[p as int];
            let mut target = Scope::new(ScopeId(0), ScopeKind::Block, None, span);
            std::mem::swap(&mut target, &mut self.scopes[p]);
            assert(target == orig);
            target.children.push(id);
            let ghost updated = target;
            std::mem::swap(&mut target, &mut self.scopes[p]);
            proof {
                assert(self.scopes@ == pushed.update(p as int, updated));
                assert(updated.children@ == orig.children@.push(id));
            }
        }
        proof {
            let n = len as int;
            let pp = parent.0 as int;
            let new = self.scopes@;
            let old_s = old(self)@;
            assert(new.len() == n + 1);
            assert(new[n].id == id && new[n].kind == kind && new[n].parent == Some(parent) && new[n].span == span);
            assert(if pp == n { new[n].children@ == seq![id] } else { new[n].children@.len() == 0 });
            assert(forall|i: int| 0 <= i < n && i != pp ==> new[i] == old_s[i]);
            assert(0 <= pp < n ==> {
                &&& new[pp].id == old_s[pp].id && new[pp].kind == old_s[pp].kind && new[pp].parent == old_s[pp].parent
                &&& new[pp].name == old_s[pp].name && new[pp].span == old_s[pp].span
                &&& new[pp].children@ == old_s[pp].children@.push(id)
            });
            if old(self).wf() && (parent.0 as int) < old(self)@.len() < u32::MAX {
                assert forall|i: int| 0 <= i < self.scopes@.len() implies
                    ((#[trigger] self.scopes@[i]).parent matches Some(q) ==> (q.0 as int) < i) by {
                    if i < len {
                        assert(self.scopes@[i].parent == old(self)@[i].parent);
                    }
                }
                assert forall|i: int, k: int|
                    0 <= i < self.scopes@.len() && 0 <= k < self.scopes@[i].children@.len() implies
                    (#[trigger] self.scopes@[i].children@[k]).0 > i by {
                    if i < len && i != pp {
                        assert(self.scopes@[i] == old(self)@[i]);
                    } else if i == pp {
                        if k < old(self)@[i].children@.len() {
                            assert(self.scopes@[i].children@[k] == old(self)@[i].children@[k]);
                        }
                    }
                }
            }
        }
        id
    }

    /// The scope `id` was appended with the given kind, parent and span and no
    /// children, and (when the parent exists) `id` was appended to the parent's
    /// children; nothing else changed.
    pub open spec fn added_child(old: Seq<Scope>, new: Seq<Scope>, id: ScopeId, kind: ScopeKind, parent: ScopeId, span: Span) -> bool {
        let n = old.len() as int;
        let p = parent.0 as int;
        &&& new.len() == n + 1
        &&& new[n].id == id && new[n].kind == kind && new[n].parent == Some(parent) && new[n].span == span
        &&& (if p == n { new[n].children@ == seq![id] } else { new[n].children@.len() == 0 })
        &&& forall|i: int| 0 <= i < n && i != p ==> new[i] == old[i]
        &&& (0 <= p < n ==> {
            &&& new[p].id == old[p].id && new[p].kind == old[p].kind && new[p].parent == old[p].parent
            &&& new[p].name == old[p].name && new[p].span == old[p].span
            &&& new[p].children@ == old[p].children@.push(id)
        })
    }

    /// Create a new scope with a parent
    pub fn create_scope(&mut self, kind: ScopeKind, parent: ScopeId, span: Span) -> (r: ScopeId)
        ensures
            r.0 == old(self)@.len() as u32,
            ScopeGraph::added_child(old(self)@, final(self)@, r, kind, parent, span),
            final(self)@.last().name.is_none(),
            old(self).wf() && (parent.0 as int) < old(self)@.len() < u32::MAX ==> final(self).wf(),
    {
        self.push_child(kind, parent, None, span)
    }

    /// Create a named scope with a parent
    pub fn create_named_scope(&mut self, kind: ScopeKind, parent: ScopeId, name: &str, span: Span) -> (r: ScopeId)
        ensures
            r.0 == old(self)@.len() as u32,
            ScopeGraph::added_child(old(self)@, final(self)@, r, kind, parent, span),
            final(self)@.last().name matches Some(m) && m@ == name@,
            old(self).wf() && (parent.0 as int) < old(self)@.len() < u32::MAX ==> final(self).wf(),
    {
        self.push_child(kind, parent, Some(name), span)
    }

    /// Get a scope by ID
    pub fn get(&self, id: ScopeId) -> (r: Option<&Scope>)
        ensures
            r == if (id.0 as int) < self@.len() { Some(&self@[id.0 as int]) } else { None::<&Scope> },
    {
        let i = id.0 as usize;
        if i < self.scopes.len() {
            Some(&self.scopes[i])
        } else {
            None
        }
    }

    /// Get a mutable scope by ID
    pub fn get_mut(&mut self, id: ScopeId) -> (r: Option<&mut Scope>)
        ensures
            match r {
                Some(s) => (id.0 as int) < old(self)@.len() && *s == old(self)@[id.0 as int]
                    && final(self)@ == old(self)@.update(id.0 as int, *final(s)),
                None => (id.0 as int) >= old(self)@.len() && final(self)@ == old(self)@,
            },
    {
        let i = id.0 as usize;
        if i < self.scopes.len() {
            Some(&mut self.scopes[i])
        } else {
            None
        }
    }

    /// Get the parent scope of a scope
    pub fn parent(&self, id: ScopeId) -> (r: Option<ScopeId>)
        ensures
            r == parent_in(self@, id),
    {
        match self.get(id) {
            Some(s) => s.parent,
            None => None,
        }
    }

    /// All ancestors of a scope, nearest first (excluding the scope itself)
    pub fn ancestors(&self, id: ScopeId) -> (r: Vec<ScopeId>)
        requires
            self.wf(),
        ensures
            r@ == ancestors_of(self@, id),
    {
        let mut out: Vec<ScopeId> = Vec::new();
        let mut cur = self.parent(id);
        proof {
            assert(ancestors_of(self@, id) == match cur { Some(p) => seq![p] + ancestors_of(self@, p), None => Seq::<ScopeId>::empty() });
        }
        while cur.is_some()
            invariant
                self.wf(),
                ancestors_of(self@, id) == out@ + match cur {
                    Some(p) => seq![p] + ancestors_of(self@, p),
                    None => Seq::<ScopeId>::empty(),
                },
                cur matches Some(p) ==> (p.0 as int) < self@.len() || parent_in(self@, p).is_none(),
            decreases match cur { Some(p) => p.0 as int + 1, None => 0 },
        {
            let p = cur.unwrap();
            out.push(p);
            let next = self.parent(p);
            proof {
                assert(ancestors_of(self@, p) == match next { Some(q) => seq![q] + ancestors_of(self@, q), None => Seq::<ScopeId>::empty() });
                if let Some(q) = next {
                    assert((q.0 as int) < (p.0 as int));
                }
                assert(out@ + match next { Some(q) => seq![q] + ancestors_of(self@, q), None => Seq::<ScopeId>::empty() }
                    =~= ancestors_of(self@, id));
            }
            cur = next;
        }
        proof {
            assert(out@ =~= ancestors_of(self@, id));
        }
        out
    }

    /// Check if scope `inner` is nested inside `outer`
    pub fn is_nested_in(&self, inner: ScopeId, outer: ScopeId) -> (r: bool)
        requires
            self.wf(),
        ensures
            r == ancestors_of(self@, inner).contains(outer),
    {
        let anc = self.ancestors(inner);
        let mut i: usize = 0;
        while i < anc.len()
            invariant
                self.wf(),
                anc@ == ancestors_of(self@, inner),
                i <= anc@.len(),
                forall|j: int| 0 <= j < i ==> anc@[j] != outer,
            decreases anc.len() - i,
        {
            if anc[i] == outer {
                proof {
                    assert(anc@[i as int] == outer);
                }
                return true;
            }
            i = i + 1;
        }
        false
    }

    /// Get all scopes
    pub fn iter(&self) -> (r: std::slice::Iter<'_, Scope>)
        ensures
            exists|s: &[Scope]| s@ == self@ && r == vstd::std_specs::slice::spec_slice_iter(s),
    {
        self.scopes.iter()
    }

    /// All scopes, in creation order.
    pub fn as_slice(&self) -> (r: &[Scope])
        ensures
            r@ == self@,
    {
        self.scopes.as_slice()
    }

    /// Get the number of scopes
    pub fn len(&self) -> (r: usize)
        ensures
            r == self@.len(),
    {
        self.scopes.len()
    }

    /// Check if empty
    pub fn is_empty(&self) -> (r: bool)
        ensures
            r == (self@.len() == 0),
    {
        self.scopes.len() == 0
    }
}

impl Default for ScopeGraph {
    fn default() -> (r: Self)
        ensures
            r@ == Seq::<Scope>::empty(),
    {
        ScopeGraph::new()
    }
}

} // verus!
