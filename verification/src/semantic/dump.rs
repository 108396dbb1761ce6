//! DUMP format output for a semantic analysis result: a header with counts,
//! the scope tree, the symbols grouped by scope, the recorded types, and the
//! diagnostics, one item per line, indented by four spaces per level.

use vstd::prelude::*;
use vstd::string::*;
use super::scope::{children_follow, Scope, ScopeId};
use super::symbol::{Symbol, SymbolId};
use super::types::Type;
use super::SemanticResult;
use crate::ast::dump::{deeper, dump_line, indentation};
use crate::diagnostic::{count_severity, Diagnostic, Severity};
use crate::source::Span;
use crate::text::{chars_of, decimal, push_char, push_decimal_u64, push_str};

verus! {

broadcast use vstd::seq::group_seq_axioms;

// =========================================================================
// The text of the dump
// =========================================================================

/// The line of a scope: its id, kind, name (if it has one) and span.
pub open spec fn scope_line(id: nat, s: Scope) -> Seq<char> {
    "SCOPE #"@ + decimal(id) + " kind="@ + s.kind.as_str_spec() + match s.name {
        Some(n) => " name="@ + n@,
        None => Seq::empty(),
    } + " span="@ + decimal(s.span.start as nat) + ".."@ + decimal(s.span.end as nat)
}

/// The lines of the scope `id` and, one level deeper, the trees of its children.
pub open spec fn scope_tree_text(scopes: Seq<Scope>, id: nat, level: nat) -> Seq<char>
    decreases scopes.len() - id, if id < scopes.len() { scopes[id as int].children@.len() + 1 } else { 0 },
    when children_follow(scopes)
{
    if id < scopes.len() {
        dump_line(level, scope_line(id, scopes[id as int])) + scope_children_text(
            scopes,
            id,
            scopes[id as int].children@.len(),
            deeper(level),
        )
    } else {
        Seq::empty()
    }
}

/// The trees of the first `k` children of the scope `id`.
pub open spec fn scope_children_text(scopes: Seq<Scope>, id: nat, k: nat, level: nat) -> Seq<char>
    decreases scopes.len() - id, k,
    when children_follow(scopes)
{
    if id < scopes.len() && 0 < k <= scopes[id as int].children@.len() {
        let c = scopes[id as int].children@[k - 1].0 as nat;
        scope_children_text(scopes, id, (k - 1) as nat, level) + if c < scopes.len() {
            scope_tree_text(scopes, c, level)
        } else {
            Seq::empty()
        }
    } else {
        Seq::empty()
    }
}

/// An ASCII letter in upper case; other characters unchanged.
pub open spec fn ascii_upper(c: char) -> char {
    if 'a' <= c <= 'z' {
        (((c as u8) - 32) as u8) as char
    } else {
        c
    }
}

/// The text in upper case (the texts upper-cased here are ASCII).
pub open spec fn upper_text(s: Seq<char>) -> Seq<char> {
    s.map_values(|c: char| ascii_upper(c))
}

/// The line of the symbol with id `id`: its id, kind, name, span and body scope.
pub open spec fn symbol_line(id: nat, s: Symbol) -> Seq<char> {
    "#"@ + decimal(id) + " "@ + upper_text(s.kind.as_str_spec()) + " \""@ + s.name@ + "\" span="@ + decimal(
        s.def_span.start as nat,
    ) + ".."@ + decimal(s.def_span.end as nat) + match s.body_scope {
        Some(b) => " body_scope=#"@ + decimal(b.0 as nat),
        None => Seq::empty(),
    }
}

/// The smallest scope id above `lower` among the scopes of the first `n` symbols.
pub open spec fn min_scope_above(syms: Seq<Symbol>, n: nat, lower: int) -> Option<u32>
    decreases n,
{
    if n == 0 || n > syms.len() {
        None
    } else {
        let s = syms[n - 1].scope.0;
        let rest = min_scope_above(syms, (n - 1) as nat, lower);
        if s > lower {
            match rest {
                Some(m) => Some(if s < m { s } else { m }),
                None => Some(s),
            }
        } else {
            rest
        }
    }
}

/// The smallest scope id above `lower` is above `lower`.
pub proof fn lemma_min_scope_above(syms: Seq<Symbol>, n: nat, lower: int)
    ensures
        min_scope_above(syms, n, lower) matches Some(m) ==> m > lower,
    decreases n,
{
    if n > 0 && n <= syms.len() {
        lemma_min_scope_above(syms, (n - 1) as nat, lower);
    }
}

/// ` (name)` for a scope with a name, nothing otherwise.
pub open spec fn scope_name_part(scopes: Seq<Scope>, id: nat) -> Seq<char> {
    if id < scopes.len() {
        match scopes[id as int].name {
            Some(n) => " ("@ + n@ + ")"@,
            None => Seq::empty(),
        }
    } else {
        Seq::empty()
    }
}

/// The lines of the symbols, among the first `k`, that belong to the scope
/// `id`, each looked up by its id.
pub open spec fn scope_members_text(syms: Seq<Symbol>, k: nat, id: u32, level: nat) -> Seq<char>
    decreases k,
{
    if 0 < k <= syms.len() {
        let s = syms[k - 1];
        scope_members_text(syms, (k - 1) as nat, id, level) + if s.scope.0 == id && (s.id.0 as int) < syms.len() {
            dump_line(level, symbol_line(s.id.0 as nat, syms[s.id.0 as int]))
        } else {
            Seq::empty()
        }
    } else {
        Seq::empty()
    }
}

/// The group of the scope `id`: a header, then its symbols one level deeper.
pub open spec fn scope_group_text(scopes: Seq<Scope>, syms: Seq<Symbol>, id: u32, level: nat) -> Seq<char> {
    dump_line(level, "IN SCOPE #"@ + decimal(id as nat) + scope_name_part(scopes, id as nat)) + scope_members_text(
        syms,
        syms.len(),
        id,
        deeper(level),
    )
}

/// The groups of the scopes above `lower` that hold symbols, in increasing order.
pub open spec fn scope_groups_text(scopes: Seq<Scope>, syms: Seq<Symbol>, lower: int, level: nat) -> Seq<char>
    decreases u32::MAX - lower,
{
    match min_scope_above(syms, syms.len(), lower) {
        Some(id) => {
            proof {
                lemma_min_scope_above(syms, syms.len(), lower);
            }
            scope_group_text(scopes, syms, id, level) + scope_groups_text(scopes, syms, id as int, level)
        },
        None => Seq::empty(),
    }
}

/// `kind "Name"` for a declared type whose symbol exists, `kind#id` otherwise.
pub open spec fn composite_text(syms: Seq<Symbol>, kind: Seq<char>, id: nat) -> Seq<char> {
    if id < syms.len() {
        kind + " \""@ + syms[id as int].name@ + "\""@
    } else {
        kind + "#"@ + decimal(id)
    }
}

/// The text of a type in the dump: declared types by their names, the others
/// as their `Display` text shows them.
pub open spec fn type_dump_text(syms: Seq<Symbol>, t: Type) -> Seq<char>
    decreases t, 0nat,
{
    match t {
        Type::Scheme(id) => composite_text(syms, "scheme"@, id.0 as nat),
        Type::Backend(id) => composite_text(syms, "backend"@, id.0 as nat),
        Type::Blueprint(id) => composite_text(syms, "blueprint"@, id.0 as nat),
        Type::Contract(id) => composite_text(syms, "contract"@, id.0 as nat),
        Type::Theme(id) => composite_text(syms, "theme"@, id.0 as nat),
        Type::Enum(id) => composite_text(syms, "enum"@, id.0 as nat),
        Type::Nullable(inner) => type_dump_text(syms, *inner) + "?"@,
        Type::Ref(inner) => "ref "@ + type_dump_text(syms, *inner),
        Type::Draft(inner) => "draft "@ + type_dump_text(syms, *inner),
        Type::Asset(inner) => "asset "@ + type_dump_text(syms, *inner),
        Type::List(elem) => "["@ + type_dump_text(syms, *elem) + "]"@,
        Type::SetOf(elem) => "set<"@ + type_dump_text(syms, *elem) + ">"@,
        Type::MapOf(k, v) => "map<"@ + type_dump_text(syms, *k) + ", "@ + type_dump_text(syms, *v) + ">"@,
        Type::Tree(elem) => "tree<"@ + type_dump_text(syms, *elem) + ">"@,
        Type::Function { params, ret } => "fn("@ + types_dump_text(syms, params@, params@.len()) + ") -> "@
            + type_dump_text(syms, *ret),
        Type::BlueprintInstance { blueprint, params } => composite_text(syms, "blueprint"@, blueprint.0 as nat)
            + "("@ + types_dump_text(syms, params@, params@.len()) + ")"@,
        Type::Accessor(inner) => "accessor<"@ + type_dump_text(syms, *inner) + ">"@,
        _ => t.text_spec(),
    }
}

/// The texts of the first `n` types, separated by `", "`.
pub open spec fn types_dump_text(syms: Seq<Symbol>, ts: Seq<Type>, n: nat) -> Seq<char>
    decreases ts, n,
{
    if n == 0 || n > ts.len() {
        Seq::empty()
    } else if n == 1 {
        type_dump_text(syms, ts[0])
    } else {
        types_dump_text(syms, ts, (n - 1) as nat) + ", "@ + type_dump_text(syms, ts[n - 1])
    }
}

/// Whether entry `j` comes before entry `b` when entries are taken by span start,
/// and in the order they were recorded where starts are equal.
pub open spec fn entry_key_after(entries: Seq<(Span, Type)>, j: int, ps: int, pi: int) -> bool {
    entries[j].0.start > ps || (entries[j].0.start == ps && j > pi)
}

/// Among the first `n` entries, the first one after position `(ps, pi)`
/// when entries are taken by span start, then by their order.
pub open spec fn next_entry(entries: Seq<(Span, Type)>, n: nat, ps: int, pi: int) -> Option<int>
    decreases n,
{
    if n == 0 || n > entries.len() {
        None
    } else {
        let j = n - 1;
        let rest = next_entry(entries, (n - 1) as nat, ps, pi);
        if entry_key_after(entries, j, ps, pi) {
            match rest {
                Some(b) => if entries[j].0.start < entries[b].0.start {
                    Some(j)
                } else {
                    Some(b)
                },
                None => Some(j),
            }
        } else {
            rest
        }
    }
}

/// The next entry lies after the position, among the first `n`.
pub proof fn lemma_next_entry(entries: Seq<(Span, Type)>, n: nat, ps: int, pi: int)
    ensures
        next_entry(entries, n, ps, pi) matches Some(j) ==> 0 <= j < n && j < entries.len() && entry_key_after(
            entries,
            j,
            ps,
            pi,
        ),
    decreases n,
{
    if n > 0 && n <= entries.len() {
        lemma_next_entry(entries, (n - 1) as nat, ps, pi);
    }
}

/// The line of a recorded type: the span, then the type.
pub open spec fn span_type_line(syms: Seq<Symbol>, e: (Span, Type)) -> Seq<char> {
    decimal(e.0.start as nat) + ".."@ + decimal(e.0.end as nat) + " -> "@ + type_dump_text(syms, e.1)
}

/// The lines of the entries after position `(ps, pi)`, by span start, then
/// in the order they were recorded.
pub open spec fn span_types_text(syms: Seq<Symbol>, entries: Seq<(Span, Type)>, ps: int, pi: int, level: nat) -> Seq<
    char,
>
    decreases u32::MAX - ps, entries.len() - pi,
{
    match next_entry(entries, entries.len(), ps, pi) {
        Some(j) => if ps <= u32::MAX && pi < entries.len() {
            proof {
                lemma_next_entry(entries, entries.len(), ps, pi);
            }
            dump_line(level, span_type_line(syms, entries[j])) + span_types_text(
                syms,
                entries,
                entries[j].0.start as int,
                j,
                level,
            )
        } else {
            Seq::empty()
        },
        None => Seq::empty(),
    }
}

/// The line of a diagnostic: its code, message and span.
pub open spec fn diagnostic_line(d: Diagnostic) -> Seq<char> {
    "["@ + match d.code {
        Some(c) => c@,
        None => "E????"@,
    } + "] "@ + d.message@ + " at "@ + decimal(d.span.start as nat) + ".."@ + decimal(d.span.end as nat)
}

/// The lines of the first `k` diagnostics.
pub open spec fn diagnostics_text(ds: Seq<Diagnostic>, k: nat, level: nat) -> Seq<char>
    decreases k,
{
    if 0 < k <= ds.len() {
        diagnostics_text(ds, (k - 1) as nat, level) + dump_line(level, diagnostic_line(ds[k - 1]))
    } else {
        Seq::empty()
    }
}

/// A section: an empty line, its title, then its lines one level deeper.
pub open spec fn section(title: Seq<char>, body: Seq<char>) -> Seq<char> {
    dump_line(0, Seq::empty()) + dump_line(0, title) + body
}

/// The DUMP text of a semantic analysis result. The sections of recorded
/// types and of diagnostics appear only when they have entries.
pub open spec fn semantic_dump_text(
    scopes: Seq<Scope>,
    syms: Seq<Symbol>,
    ds: Seq<Diagnostic>,
    type_resolutions: Seq<(Span, Type)>,
    expr_types: Seq<(Span, Type)>,
) -> Seq<char> {
    dump_line(
        0,
        "SEMANTIC_RESULT scopes="@ + decimal(scopes.len()) + " symbols="@ + decimal(syms.len()) + " errors="@
            + decimal(count_severity(ds, Severity::Error)),
    ) + section("SCOPES"@, scope_tree_text(scopes, 0, 1)) + section("SYMBOLS"@, scope_groups_text(scopes, syms, -1, 1))
        + if type_resolutions.len() > 0 {
        section("TYPE_RESOLUTIONS"@, span_types_text(syms, type_resolutions, -1, -1, 1))
    } else {
        Seq::empty()
    } + if expr_types.len() > 0 {
        section("EXPR_TYPES"@, span_types_text(syms, expr_types, -1, -1, 1))
    } else {
        Seq::empty()
    } + if ds.len() > 0 {
        section("DIAGNOSTICS"@, diagnostics_text(ds, ds.len(), 1))
    } else {
        Seq::empty()
    }
}

// =========================================================================
// Writing the dump
// =========================================================================

/// Dump a semantic analysis result to its DUMP text.
pub fn dump(result: &SemanticResult) -> (r: String)
    requires
        children_follow(result.scopes@),
    ensures
        r@ == semantic_dump_text(
            result.scopes@,
            result.symbols.symbols(),
            result.diagnostics@,
            result.type_resolutions@,
            result.expr_types@,
        ),
{
    let dumper = SemanticDumper::new(result);
    dumper.dump()
}

/// The level of the children of a line at `level`.
fn child_level(level: usize) -> (r: usize)
    ensures
        r == deeper(level as nat),
{
    if level < usize::MAX {
        level + 1
    } else {
        level
    }
}

/// The upper-case form of an ASCII letter; other characters unchanged.
fn to_ascii_upper(c: char) -> (r: char)
    ensures
        r == ascii_upper(c),
{
    if 'a' <= c && c <= 'z' {
        ((c as u8) - 32) as char
    } else {
        c
    }
}

/// Appends `s` in upper case.
fn push_upper(out: &mut String, s: &str)
    ensures
        final(out)@ == old(out)@ + upper_text(s@),
{
    let chars = chars_of(s);
    let ghost start = out@;
    let mut i: usize = 0;
    while i < chars.len()
        invariant
            i <= chars@.len(),
            chars@ == s@,
            out@ == start + upper_text(s@.take(i as int)),
        decreases chars@.len() - i,
    {
        push_char(out, to_ascii_upper(chars[i]));
        proof {
            assert(upper_text(s@.take(i + 1)) =~= upper_text(s@.take(i as int)).push(ascii_upper(s@[i as int])));
        }
        i = i + 1;
    }
    proof {
        assert(s@.take(chars@.len() as int) =~= s@);
    }
}

/// Writes a semantic analysis result in DUMP format.
struct SemanticDumper<'a> {
    result: &'a SemanticResult,
    output: String,
}

impl<'a> SemanticDumper<'a> {
    fn new(result: &'a SemanticResult) -> (r: Self)
        ensures
            r.result == result,
            r.output@ == Seq::<char>::empty(),
    {
        SemanticDumper { result, output: String::new() }
    }

    fn dump(self) -> (r: String)
        requires
            children_follow(self.result.scopes@),
            self.output@ == Seq::<char>::empty(),
        ensures
            r@ == semantic_dump_text(
                self.result.scopes@,
                self.result.symbols.symbols(),
                self.result.diagnostics@,
                self.result.type_resolutions@,
                self.result.expr_types@,
            ),
    {
        let mut this = self;
        let result = this.result;
        // Header with statistics
        let mut header = String::new();
        push_str(&mut header, "SEMANTIC_RESULT scopes=");
        push_decimal_u64(&mut header, result.scopes.len() as u64);
        push_str(&mut header, " symbols=");
        push_decimal_u64(&mut header, result.symbols.len() as u64);
        push_str(&mut header, " errors=");
        push_decimal_u64(&mut header, result.diagnostics.error_count() as u64);
        this.write(0, header.as_str());
        let ghost s0 = this.output@;

        // Scopes section
        this.write_section_title("SCOPES");
        this.dump_scopes(1);
        let ghost s1 = this.output@;

        // Symbols section
        this.write_section_title("SYMBOLS");
        this.dump_symbols(1);
        let ghost s2 = this.output@;

        // Type resolutions section (only if there are any)
        if result.type_resolutions.len() > 0 {
            this.write_section_title("TYPE_RESOLUTIONS");
            this.dump_type_resolutions(1);
        }
        let ghost s3 = this.output@;

        // Expression types section (only if there are any)
        if result.expr_types.len() > 0 {
            this.write_section_title("EXPR_TYPES");
            this.dump_expr_types(1);
        }
        let ghost s4 = this.output@;

        // Diagnostics section (only if there are any)
        if !result.diagnostics.is_empty() {
            this.write_section_title("DIAGNOSTICS");
            this.dump_diagnostics(1);
        }
        proof {
            let scopes = result.scopes@;
            let syms = result.symbols.symbols();
            let trs = result.type_resolutions@;
            let ets = result.expr_types@;
            let ds = result.diagnostics@;
            let t1 = section("SCOPES"@, scope_tree_text(scopes, 0, 1));
            let t2 = section("SYMBOLS"@, scope_groups_text(scopes, syms, -1, 1));
            let t3 = if trs.len() > 0 {
                section("TYPE_RESOLUTIONS"@, span_types_text(syms, trs, -1, -1, 1))
            } else {
                Seq::empty()
            };
            let t4 = if ets.len() > 0 {
                section("EXPR_TYPES"@, span_types_text(syms, ets, -1, -1, 1))
            } else {
                Seq::empty()
            };
            let t5 = if ds.len() > 0 {
                section("DIAGNOSTICS"@, diagnostics_text(ds, ds.len(), 1))
            } else {
                Seq::empty()
            };
            assert(s1 == s0 + t1);
            assert(s2 == s1 + t2);
            assert(s3 =~= s2 + t3);
            assert(s4 =~= s3 + t4);
            assert(this.output@ =~= s4 + t5);
            assert(this.output@ =~= s0 + t1 + t2 + t3 + t4 + t5);
        }
        this.output
    }

    /// Writes an empty line, then a section's title.
    fn write_section_title(&mut self, title: &str)
        ensures
            final(self).result == old(self).result,
            final(self).output@ == old(self).output@ + section(title@, Seq::empty()),
    {
        let ghost start = self.output@;
        self.write(0, "");
        self.write(0, title);
        proof {
            reveal_strlit("");
            assert(self.output@ =~= start + section(title@, Seq::empty()));
        }
    }

    /// Writes one line at a level.
    fn write(&mut self, level: usize, text: &str)
        ensures
            final(self).result == old(self).result,
            final(self).output@ == old(self).output@ + dump_line(level as nat, text@),
    {
        let ghost start = self.output@;
        let mut i: usize = 0;
        while i < level
            invariant
                self.result == old(self).result,
                i <= level,
                self.output@ == start + indentation(i as nat),
            decreases level - i,
        {
            push_str(&mut self.output, "    ");
            proof {
                assert(self.output@ =~= start + indentation((i + 1) as nat));
            }
            i = i + 1;
        }
        push_str(&mut self.output, text);
        push_str(&mut self.output, "\n");
        proof {
            assert(self.output@ =~= start + dump_line(level as nat, text@));
        }
    }

    /// Writes the scope tree, from the root
    fn dump_scopes(&mut self, level: usize)
        requires
            children_follow(old(self).result.scopes@),
        ensures
            final(self).result == old(self).result,
            final(self).output@ == old(self).output@ + scope_tree_text(old(self).result.scopes@, 0, level as nat),
    {
        if self.result.scopes.len() > 0 {
            self.dump_scope_tree(ScopeId::ROOT(), level);
        }
    }

    /// Writes the scope `scope_id` and, one level deeper, the trees of its children
    fn dump_scope_tree(&mut self, scope_id: ScopeId, level: usize)
        requires
            children_follow(old(self).result.scopes@),
            (scope_id.0 as int) < old(self).result.scopes@.len(),
        ensures
            final(self).result == old(self).result,
            final(self).output@ == old(self).output@ + scope_tree_text(
                old(self).result.scopes@,
                scope_id.0 as nat,
                level as nat,
            ),
        decreases old(self).result.scopes@.len() - scope_id.0,
    {
        let result = self.result;
        let ghost scopes = result.scopes@;
        let ghost start = self.output@;
        let scope = match result.scopes.get(scope_id) {
            Some(s) => s,
            None => return ,
        };
        let mut line = String::new();
        push_str(&mut line, "SCOPE #");
        push_decimal_u64(&mut line, scope_id.0 as u64);
        push_str(&mut line, " kind=");
        push_str(&mut line, scope.kind.as_str());
        let ghost before_name = line@;
        match &scope.name {
            Some(n) => {
                push_str(&mut line, " name=");
                push_str(&mut line, n.as_str());
            },
            None => {},
        }
        proof {
            assert(line@ =~= before_name + match scope.name {
                Some(n) => " name="@ + n@,
                None => Seq::<char>::empty(),
            });
        }
        push_str(&mut line, " span=");
        push_decimal_u64(&mut line, scope.span.start as u64);
        push_str(&mut line, "..");
        push_decimal_u64(&mut line, scope.span.end as u64);
        proof {
            assert(line@ =~= scope_line(scope_id.0 as nat, *scope));
        }
        self.write(level, line.as_str());
        let ghost after_line = self.output@;
        let child = child_level(level);
        let n = scope.children.len();
        let mut k: usize = 0;
        while k < n
            invariant
                self.result == result,
                old(self).result == result,
                scopes == result.scopes@,
                children_follow(scopes),
                (scope_id.0 as int) < scopes.len(),
                *scope == scopes[scope_id.0 as int],
                n == scope.children@.len(),
                k <= n,
                child == deeper(level as nat),
                self.output@ == after_line + scope_children_text(scopes, scope_id.0 as nat, k as nat, child as nat),
            decreases n - k,
        {
            let c = scope.children[k];
            let ghost before = self.output@;
            proof {
                assert(scopes[scope_id.0 as int].children@[k as int].0 > scope_id.0);
            }
            if (c.0 as usize) < result.scopes.len() {
                self.dump_scope_tree(c, child);
            }
            proof {
                assert(self.output@ =~= after_line + scope_children_text(
                    scopes,
                    scope_id.0 as nat,
                    (k + 1) as nat,
                    child as nat,
                ));
            }
            k = k + 1;
        }
        proof {
            assert(self.output@ =~= start + scope_tree_text(scopes, scope_id.0 as nat, level as nat));
        }
    }

    /// Writes the symbols, grouped by scope in increasing order of scope ids
    fn dump_symbols(&mut self, level: usize)
        ensures
            final(self).result == old(self).result,
            final(self).output@ == old(self).output@ + scope_groups_text(
                old(self).result.scopes@,
                old(self).result.symbols.symbols(),
                -1,
                level as nat,
            ),
    {
        let result = self.result;
        let ghost scopes = result.scopes@;
        let ghost syms = result.symbols.symbols();
        let ghost start = self.output@;
        let symbols = result.symbols.as_slice();
        let mut lower: i64 = -1;
        loop
            invariant
                self.result == result,
                scopes == result.scopes@,
                syms == result.symbols.symbols(),
                symbols@ == syms,
                -1 <= lower <= u32::MAX,
                start + scope_groups_text(scopes, syms, -1, level as nat) == self.output@ + scope_groups_text(
                    scopes,
                    syms,
                    lower as int,
                    level as nat,
                ),
            ensures
                self.result == result,
                self.output@ == start + scope_groups_text(scopes, syms, -1, level as nat),
            decreases u32::MAX - lower,
        {
            let ghost before = self.output@;
            let next = min_scope_id_above(symbols, lower);
            proof {
                lemma_min_scope_above(syms, syms.len(), lower as int);
            }
            match next {
                Some(id) => {
                    self.dump_scope_group(id, level);
                    proof {
                        assert(before + scope_groups_text(scopes, syms, lower as int, level as nat) =~= self.output@
                            + scope_groups_text(scopes, syms, id as int, level as nat));
                    }
                    lower = id as i64;
                },
                None => {
                    proof {
                        assert(self.output@ + Seq::<char>::empty() =~= self.output@);
                    }
                    break;
                },
            }
        }
    }

    /// Writes the group of the scope `id`: a header, then its symbols one level deeper
    fn dump_scope_group(&mut self, id: u32, level: usize)
        ensures
            final(self).result == old(self).result,
            final(self).output@ == old(self).output@ + scope_group_text(
                old(self).result.scopes@,
                old(self).result.symbols.symbols(),
                id,
                level as nat,
            ),
    {
        let result = self.result;
        let ghost scopes = result.scopes@;
        let ghost syms = result.symbols.symbols();
        let ghost start = self.output@;
        let mut header = String::new();
        push_str(&mut header, "IN SCOPE #");
        push_decimal_u64(&mut header, id as u64);
        let ghost before_name = header@;
        match result.scopes.get(ScopeId(id)) {
            Some(scope) => match &scope.name {
                Some(n) => {
                    push_str(&mut header, " (");
                    push_str(&mut header, n.as_str());
                    push_str(&mut header, ")");
                },
                None => {},
            },
            None => {},
        }
        proof {
            assert(header@ =~= "IN SCOPE #"@ + decimal(id as nat) + scope_name_part(scopes, id as nat));
        }
        self.write(level, header.as_str());
        let ghost after_header = self.output@;
        let child = child_level(level);
        let symbols = result.symbols.as_slice();
        let mut k: usize = 0;
        while k < symbols.len()
            invariant
                self.result == result,
                scopes == result.scopes@,
                syms == result.symbols.symbols(),
                symbols@ == syms,
                k <= syms.len(),
                child == deeper(level as nat),
                self.output@ == after_header + scope_members_text(syms, k as nat, id, child as nat),
            decreases syms.len() - k,
        {
            let s = &symbols[k];
            if s.scope.0 == id {
                match result.symbols.get(s.id) {
                    Some(symbol) => {
                        let line = symbol_line_text(s.id.0, symbol);
                        self.write(child, line.as_str());
                    },
                    None => {},
                }
            }
            proof {
                assert(self.output@ =~= after_header + scope_members_text(syms, (k + 1) as nat, id, child as nat));
            }
            k = k + 1;
        }
        proof {
            assert(self.output@ =~= start + scope_group_text(scopes, syms, id, level as nat));
        }
    }

    /// Writes the resolved type expressions, by span start
    fn dump_type_resolutions(&mut self, level: usize)
        ensures
            final(self).result == old(self).result,
            final(self).output@ == old(self).output@ + span_types_text(
                old(self).result.symbols.symbols(),
                old(self).result.type_resolutions@,
                -1,
                -1,
                level as nat,
            ),
    {
        let result = self.result;
        self.dump_span_types(&result.type_resolutions, level);
    }

    /// Writes the expression types, by span start
    fn dump_expr_types(&mut self, level: usize)
        ensures
            final(self).result == old(self).result,
            final(self).output@ == old(self).output@ + span_types_text(
                old(self).result.symbols.symbols(),
                old(self).result.expr_types@,
                -1,
                -1,
                level as nat,
            ),
    {
        let result = self.result;
        self.dump_span_types(&result.expr_types, level);
    }

    /// Writes recorded types by span start, and in the order they were
    /// recorded where starts are equal
    fn dump_span_types(&mut self, entries: &Vec<(Span, Type)>, level: usize)
        ensures
            final(self).result == old(self).result,
            final(self).output@ == old(self).output@ + span_types_text(
                old(self).result.symbols.symbols(),
                entries@,
                -1,
                -1,
                level as nat,
            ),
    {
        let result = self.result;
        let ghost syms = result.symbols.symbols();
        let ghost start = self.output@;
        let mut prev: Option<(u32, usize)> = None;
        loop
            invariant
                self.result == result,
                syms == result.symbols.symbols(),
                prev matches Some(p) ==> (p.1 as int) < entries@.len(),
                start + span_types_text(syms, entries@, -1, -1, level as nat) == self.output@ + span_types_text(
                    syms,
                    entries@,
                    prev_start(prev),
                    prev_index(prev),
                    level as nat,
                ),
            ensures
                self.result == result,
                self.output@ == start + span_types_text(syms, entries@, -1, -1, level as nat),
            decreases u32::MAX - prev_start(prev), entries@.len() - prev_index(prev),
        {
            let ghost before = self.output@;
            let ghost ps = prev_start(prev);
            let ghost pi = prev_index(prev);
            let next = next_entry_index(entries, prev);
            proof {
                lemma_next_entry(entries@, entries@.len(), ps, pi);
            }
            match next {
                Some(j) => {
                    let e = &entries[j];
                    let mut line = String::new();
                    push_decimal_u64(&mut line, e.0.start as u64);
                    push_str(&mut line, "..");
                    push_decimal_u64(&mut line, e.0.end as u64);
                    push_str(&mut line, " -> ");
                    self.push_type(&mut line, &e.1);
                    proof {
                        assert(line@ =~= span_type_line(syms, entries@[j as int]));
                    }
                    self.write(level, line.as_str());
                    proof {
                        assert(before + span_types_text(syms, entries@, ps, pi, level as nat) =~= self.output@
                            + span_types_text(syms, entries@, entries@[j as int].0.start as int, j as int, level as nat));
                    }
                    prev = Some((e.0.start, j));
                },
                None => {
                    proof {
                        assert(self.output@ + Seq::<char>::empty() =~= self.output@);
                    }
                    break;
                },
            }
        }
    }

    /// Writes the diagnostics, in order
    fn dump_diagnostics(&mut self, level: usize)
        ensures
            final(self).result == old(self).result,
            final(self).output@ == old(self).output@ + diagnostics_text(
                old(self).result.diagnostics@,
                old(self).result.diagnostics@.len(),
                level as nat,
            ),
    {
        let result = self.result;
        let ghost ds = result.diagnostics@;
        let ghost start = self.output@;
        let diags = result.diagnostics.as_slice();
        let mut k: usize = 0;
        while k < diags.len()
            invariant
                self.result == result,
                ds == result.diagnostics@,
                diags@ == ds,
                k <= ds.len(),
                self.output@ == start + diagnostics_text(ds, k as nat, level as nat),
            decreases ds.len() - k,
        {
            let d = &diags[k];
            let mut line = String::new();
            push_str(&mut line, "[");
            match &d.code {
                Some(c) => push_str(&mut line, c.as_str()),
                None => push_str(&mut line, "E????"),
            }
            push_str(&mut line, "] ");
            push_str(&mut line, d.message.as_str());
            push_str(&mut line, " at ");
            push_decimal_u64(&mut line, d.span.start as u64);
            push_str(&mut line, "..");
            push_decimal_u64(&mut line, d.span.end as u64);
            proof {
                assert(line@ =~= diagnostic_line(ds[k as int]));
            }
            self.write(level, line.as_str());
            proof {
                assert(self.output@ =~= start + diagnostics_text(ds, (k + 1) as nat, level as nat));
            }
            k = k + 1;
        }
    }

    /// The text of a type in the dump
    fn format_type(&self, ty: &Type) -> (r: String)
        ensures
            r@ == type_dump_text(self.result.symbols.symbols(), *ty),
    {
        let mut out = String::new();
        self.push_type(&mut out, ty);
        out
    }

    /// Appends the text of a type in the dump
    fn push_type(&self, out: &mut String, ty: &Type)
        ensures
            final(out)@ == old(out)@ + type_dump_text(self.result.symbols.symbols(), *ty),
        decreases *ty, 0nat,
    {
        let ghost start = out@;
        let ghost syms = self.result.symbols.symbols();
        match ty {
            Type::Scheme(id) => self.push_composite_type(out, "scheme", *id),
            Type::Backend(id) => self.push_composite_type(out, "backend", *id),
            Type::Blueprint(id) => self.push_composite_type(out, "blueprint", *id),
            Type::Contract(id) => self.push_composite_type(out, "contract", *id),
            Type::Theme(id) => self.push_composite_type(out, "theme", *id),
            Type::Enum(id) => self.push_composite_type(out, "enum", *id),
            Type::Nullable(inner) => {
                self.push_type(out, inner);
                push_str(out, "?");
            },
            Type::Ref(inner) => {
                push_str(out, "ref ");
                self.push_type(out, inner);
            },
            Type::Draft(inner) => {
                push_str(out, "draft ");
                self.push_type(out, inner);
            },
            Type::Asset(inner) => {
                push_str(out, "asset ");
                self.push_type(out, inner);
            },
            Type::List(elem) => {
                push_str(out, "[");
                self.push_type(out, elem);
                push_str(out, "]");
            },
            Type::SetOf(elem) => {
                push_str(out, "set<");
                self.push_type(out, elem);
                push_str(out, ">");
            },
            Type::MapOf(k, v) => {
                push_str(out, "map<");
                self.push_type(out, k);
                push_str(out, ", ");
                self.push_type(out, v);
                push_str(out, ">");
            },
            Type::Tree(elem) => {
                push_str(out, "tree<");
                self.push_type(out, elem);
                push_str(out, ">");
            },
            Type::Function { params, ret } => {
                push_str(out, "fn(");
                self.push_types(out, params);
                push_str(out, ") -> ");
                self.push_type(out, ret);
            },
            Type::BlueprintInstance { blueprint, params } => {
                self.push_composite_type(out, "blueprint", *blueprint);
                push_str(out, "(");
                self.push_types(out, params);
                push_str(out, ")");
            },
            Type::Accessor(inner) => {
                push_str(out, "accessor<");
                self.push_type(out, inner);
                push_str(out, ">");
            },
            _ => ty.push_text(out),
        }
        proof {
            assert(out@ =~= start + type_dump_text(syms, *ty));
        }
    }

    /// Appends the texts of types, separated by `", "`
    fn push_types(&self, out: &mut String, params: &Vec<Type>)
        ensures
            final(out)@ == old(out)@ + types_dump_text(self.result.symbols.symbols(), params@, params@.len()),
        decreases params@, 1nat,
    {
        let ghost start = out@;
        let ghost syms = self.result.symbols.symbols();
        let mut i: usize = 0;
        while i < params.len()
            invariant
                i <= params@.len(),
                syms == self.result.symbols.symbols(),
                out@ == start + types_dump_text(syms, params@, i as nat),
            decreases params.len() - i,
        {
            if i > 0 {
                push_str(out, ", ");
            }
            self.push_type(out, &params[i]);
            i = i + 1;
            proof {
                assert(out@ =~= start + types_dump_text(syms, params@, i as nat));
            }
        }
    }

    /// The text of a declared type: `kind "Name"` where its symbol exists, `kind#id` otherwise
    fn format_composite_type(&self, kind: &str, id: SymbolId) -> (r: String)
        ensures
            r@ == composite_text(self.result.symbols.symbols(), kind@, id.0 as nat),
    {
        let mut out = String::new();
        self.push_composite_type(&mut out, kind, id);
        out
    }

    /// Appends the text of a declared type
    fn push_composite_type(&self, out: &mut String, kind: &str, id: SymbolId)
        ensures
            final(out)@ == old(out)@ + composite_text(self.result.symbols.symbols(), kind@, id.0 as nat),
    {
        let ghost start = out@;
        push_str(out, kind);
        match self.result.symbols.get(id) {
            Some(symbol) => {
                push_str(out, " \"");
                push_str(out, symbol.name.as_str());
                push_str(out, "\"");
            },
            None => {
                push_str(out, "#");
                push_decimal_u64(out, id.0 as u64);
            },
        }
        proof {
            assert(out@ =~= start + composite_text(self.result.symbols.symbols(), kind@, id.0 as nat));
        }
    }
}

/// The line of a symbol with the given id.
fn symbol_line_text(id: u32, s: &Symbol) -> (r: String)
    ensures
        r@ == symbol_line(id as nat, *s),
{
    let mut line = String::new();
    push_str(&mut line, "#");
    push_decimal_u64(&mut line, id as u64);
    push_str(&mut line, " ");
    push_upper(&mut line, s.kind.as_str());
    push_str(&mut line, " \"");
    push_str(&mut line, s.name.as_str());
    push_str(&mut line, "\" span=");
    push_decimal_u64(&mut line, s.def_span.start as u64);
    push_str(&mut line, "..");
    push_decimal_u64(&mut line, s.def_span.end as u64);
    let ghost before_body = line@;
    match s.body_scope {
        Some(b) => {
            push_str(&mut line, " body_scope=#");
            push_decimal_u64(&mut line, b.0 as u64);
        },
        None => {},
    }
    proof {
        assert(line@ =~= symbol_line(id as nat, *s));
    }
    line
}

/// The smallest scope id above `lower` among the symbols' scopes.
fn min_scope_id_above(symbols: &[Symbol], lower: i64) -> (r: Option<u32>)
    ensures
        r == min_scope_above(symbols@, symbols@.len(), lower as int),
{
    let mut best: Option<u32> = None;
    let mut i: usize = 0;
    while i < symbols.len()
        invariant
            i <= symbols@.len(),
            best == min_scope_above(symbols@, i as nat, lower as int),
        decreases symbols@.len() - i,
    {
        let s = symbols[i].scope.0;
        if (s as i64) > lower {
            best = match best {
                Some(m) => Some(if s < m { s } else { m }),
                None => Some(s),
            };
        }
        i = i + 1;
    }
    best
}

/// The span start of a position among recorded types (-1 before the first).
pub open spec fn prev_start(prev: Option<(u32, usize)>) -> int {
    match prev {
        Some(p) => p.0 as int,
        None => -1,
    }
}

/// The index of a position among recorded types (-1 before the first).
pub open spec fn prev_index(prev: Option<(u32, usize)>) -> int {
    match prev {
        Some(p) => p.1 as int,
        None => -1,
    }
}

/// The index of the entry after a position when entries are taken by span
/// start, then by their order.
fn next_entry_index(entries: &Vec<(Span, Type)>, prev: Option<(u32, usize)>) -> (r: Option<usize>)
    ensures
        r is None ==> next_entry(entries@, entries@.len(), prev_start(prev), prev_index(prev)) is None,
        r matches Some(j) ==> next_entry(entries@, entries@.len(), prev_start(prev), prev_index(prev)) == Some(
            j as int,
        ),
{
    let ghost ps = prev_start(prev);
    let ghost pi = prev_index(prev);
    let mut best: Option<usize> = None;
    let mut i: usize = 0;
    while i < entries.len()
        invariant
            i <= entries@.len(),
            ps == prev_start(prev),
            pi == prev_index(prev),
            best is None ==> next_entry(entries@, i as nat, ps, pi) is None,
            best matches Some(b) ==> next_entry(entries@, i as nat, ps, pi) == Some(b as int) && b < i,
        decreases entries@.len() - i,
    {
        let st = entries[i].0.start;
        let after = match prev {
            Some(p) => st > p.0 || (st == p.0 && i > p.1),
            None => true,
        };
        if after {
            best = match best {
                Some(b) => if st < entries[b].0.start {
                    Some(i)
                } else {
                    Some(b)
                },
                None => Some(i),
            };
        }
        i = i + 1;
    }
    best
}

} // verus!
