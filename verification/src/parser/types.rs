//! Type expression parser: named types (`String`, `i32`, `UserType`), nullable
//! types (`T?`), `ref`/`draft`/`asset` types, collections (`List<T>`,
//! `Set<T>`, `Map<K, V>`, `Tree<T>`), accessors and blueprint types.
//!
//! The grammar is stated over the token stream: `type_expr_end` says where a
//! type expression that starts at a token ends (or that none does), and
//! `reads_type_expr` which tree it reads.

use vstd::prelude::*;
use vstd::string::*;
use crate::ast::TypeExpr;
use crate::lexer::{Token, TokenKind};
use crate::source::span_chars;
use crate::text::{str_eq, to_string};
use super::{after_token, lemma_skip_line_breaks, Parser};

verus! {

/// The text of token `i`.
pub open spec fn token_text(src: &str, ts: Seq<Token>, i: int) -> Seq<char> {
    span_chars(src, ts[i].span)
}

/// Whether token `i` exists and is of the kind.
pub open spec fn kind_at(ts: Seq<Token>, i: int, k: TokenKind) -> bool {
    0 <= i < ts.len() && ts[i].kind == k
}

/// Consuming a token that is not the end of input moves forward.
pub proof fn lemma_after_token(ts: Seq<Token>, i: int)
    requires
        0 <= i < ts.len(),
        !(ts[i].kind is Eof),
    ensures
        after_token(ts, i) > i,
        after_token(ts, i) <= ts.len(),
{
    lemma_skip_line_breaks(ts, i + 1);
}

/// Where a type expression (a base type, then an optional `?`) that starts at
/// token `i` ends; `None` if there is none.
pub open spec fn type_expr_end(src: &str, ts: Seq<Token>, i: int) -> Option<int>
    decreases ts.len() - i, 1nat,
{
    match type_base_end(src, ts, i) {
        Some(j) => if kind_at(ts, j, TokenKind::Question) {
            Some(after_token(ts, j))
        } else {
            Some(j)
        },
        None => None,
    }
}

/// Where a type argument `<T>` that starts at token `i` ends.
pub open spec fn type_argument_end(src: &str, ts: Seq<Token>, i: int) -> Option<int>
    decreases ts.len() - i, 2nat,
{
    if kind_at(ts, i, TokenKind::Lt) {
        proof {
            lemma_after_token(ts, i);
        }
        match type_expr_end(src, ts, after_token(ts, i)) {
            Some(m) => if kind_at(ts, m, TokenKind::Gt) {
                Some(after_token(ts, m))
            } else {
                None
            },
            None => None,
        }
    } else {
        None
    }
}

/// Where a comma-separated list of types that starts at token `i` ends.
pub open spec fn type_list_end(src: &str, ts: Seq<Token>, i: int) -> Option<int>
    decreases ts.len() - i, 2nat,
{
    match type_expr_end(src, ts, i) {
        Some(j) => if j >= i && kind_at(ts, j, TokenKind::Comma) {
            proof {
                lemma_after_token(ts, j);
            }
            type_list_end(src, ts, after_token(ts, j))
        } else if j >= i {
            Some(j)
        } else {
            None
        },
        None => None,
    }
}

/// Where the arguments of `Blueprint` that start at token `k` end: none, or
/// `<` types `>`.
pub open spec fn blueprint_arguments_end(src: &str, ts: Seq<Token>, k: int) -> Option<int>
    decreases ts.len() - k, 3nat,
{
    if kind_at(ts, k, TokenKind::Lt) {
        proof {
            lemma_after_token(ts, k);
        }
        match type_list_end(src, ts, after_token(ts, k)) {
            Some(m) => if kind_at(ts, m, TokenKind::Gt) {
                Some(after_token(ts, m))
            } else {
                None
            },
            None => None,
        }
    } else {
        Some(k)
    }
}

/// Where the arguments of `Map` that start at token `k` end: `<` type `,` type `>`.
pub open spec fn map_arguments_end(src: &str, ts: Seq<Token>, k: int) -> Option<int>
    decreases ts.len() - k, 3nat,
{
    if kind_at(ts, k, TokenKind::Lt) {
        proof {
            lemma_after_token(ts, k);
        }
        match type_expr_end(src, ts, after_token(ts, k)) {
            Some(m1) => if m1 >= k && kind_at(ts, m1, TokenKind::Comma) {
                proof {
                    lemma_after_token(ts, m1);
                }
                match type_expr_end(src, ts, after_token(ts, m1)) {
                    Some(m2) => if kind_at(ts, m2, TokenKind::Gt) {
                        Some(after_token(ts, m2))
                    } else {
                        None
                    },
                    None => None,
                }
            } else {
                None
            },
            None => None,
        }
    } else {
        None
    }
}

/// Where a base type that starts at token `i` ends: `ref`, `draft` or `asset`
/// and a base type; or a name, which for `Blueprint`, `List`, `Set`, `Map`,
/// `Tree` and `Accessor` takes type arguments (`Blueprint` and `Set` may go
/// without).
pub open spec fn type_base_end(src: &str, ts: Seq<Token>, i: int) -> Option<int>
    decreases ts.len() - i, 0nat,
{
    if !(0 <= i < ts.len()) {
        None
    } else if ts[i].kind is Ref || ts[i].kind is Draft || ts[i].kind is Asset {
        proof {
            lemma_after_token(ts, i);
        }
        type_base_end(src, ts, after_token(ts, i))
    } else if ts[i].kind is Identifier {
        proof {
            lemma_after_token(ts, i);
        }
        let name = token_text(src, ts, i);
        let k = after_token(ts, i);
        if name == "Blueprint"@ {
            blueprint_arguments_end(src, ts, k)
        } else if name == "List"@ || name == "Tree"@ || name == "Accessor"@ {
            type_argument_end(src, ts, k)
        } else if name == "Set"@ {
            if kind_at(ts, k, TokenKind::Lt) {
                type_argument_end(src, ts, k)
            } else {
                Some(k)
            }
        } else if name == "Map"@ {
            map_arguments_end(src, ts, k)
        } else {
            Some(k)
        }
    } else {
        None
    }
}

/// Whether `t` is what the type expression at token `i` reads.
pub open spec fn reads_type_expr(t: TypeExpr, src: &str, ts: Seq<Token>, i: int) -> bool
    decreases t, 1nat,
{
    match type_base_end(src, ts, i) {
        Some(j) => if kind_at(ts, j, TokenKind::Question) {
            t matches TypeExpr::Nullable(inner) && reads_type_base(*inner, src, ts, i)
        } else {
            reads_type_base(t, src, ts, i)
        },
        None => false,
    }
}

/// Whether `vals` are what the comma-separated types at token `i` read.
pub open spec fn reads_type_list(vals: Seq<TypeExpr>, src: &str, ts: Seq<Token>, i: int) -> bool
    decreases vals, 0nat,
{
    if vals.len() == 0 {
        false
    } else {
        &&& reads_type_expr(vals[0], src, ts, i)
        &&& match type_expr_end(src, ts, i) {
            Some(j) => if vals.len() == 1 {
                !kind_at(ts, j, TokenKind::Comma)
            } else {
                kind_at(ts, j, TokenKind::Comma) && reads_type_list(vals.drop_first(), src, ts, after_token(ts, j))
            },
            None => false,
        }
    }
}

/// Whether `t` is what the base type at token `i` reads.
pub open spec fn reads_type_base(t: TypeExpr, src: &str, ts: Seq<Token>, i: int) -> bool
    decreases t, 0nat,
{
    if !(0 <= i < ts.len()) {
        false
    } else if ts[i].kind is Ref {
        t matches TypeExpr::Ref(inner) && reads_type_base(*inner, src, ts, after_token(ts, i))
    } else if ts[i].kind is Draft {
        t matches TypeExpr::Draft(inner) && reads_type_base(*inner, src, ts, after_token(ts, i))
    } else if ts[i].kind is Asset {
        t matches TypeExpr::Asset(inner) && reads_type_base(*inner, src, ts, after_token(ts, i))
    } else if ts[i].kind is Identifier {
        let name = token_text(src, ts, i);
        let k = after_token(ts, i);
        if name == "Blueprint"@ {
            t matches TypeExpr::Blueprint(params) && if kind_at(ts, k, TokenKind::Lt) {
                reads_type_list(params@, src, ts, after_token(ts, k))
            } else {
                params@.len() == 0
            }
        } else if name == "List"@ {
            t matches TypeExpr::List(e) && reads_type_expr(*e, src, ts, after_token(ts, k))
        } else if name == "Tree"@ {
            t matches TypeExpr::Tree(e) && reads_type_expr(*e, src, ts, after_token(ts, k))
        } else if name == "Accessor"@ {
            t matches TypeExpr::Accessor(e) && reads_type_expr(*e, src, ts, after_token(ts, k))
        } else if name == "Set"@ && kind_at(ts, k, TokenKind::Lt) {
            t matches TypeExpr::SetOf(e) && reads_type_expr(*e, src, ts, after_token(ts, k))
        } else if name == "Map"@ {
            &&& t matches TypeExpr::MapOf(key, value)
            &&& reads_type_expr(*key, src, ts, after_token(ts, k))
            &&& match type_expr_end(src, ts, after_token(ts, k)) {
                Some(m1) => reads_type_expr(*value, src, ts, after_token(ts, m1)),
                None => false,
            }
        } else {
            t matches TypeExpr::Named(n) && n@ == name
        }
    } else {
        false
    }
}

/// The names of the built-in generic types are distinct.
proof fn lemma_type_names_distinct()
    ensures
        "Blueprint"@ != "List"@,
        "Blueprint"@ != "Tree"@,
        "Blueprint"@ != "Accessor"@,
        "Blueprint"@ != "Set"@,
        "Blueprint"@ != "Map"@,
        "List"@ != "Tree"@,
        "List"@ != "Accessor"@,
        "List"@ != "Set"@,
        "List"@ != "Map"@,
        "Tree"@ != "Accessor"@,
        "Tree"@ != "Set"@,
        "Tree"@ != "Map"@,
        "Accessor"@ != "Set"@,
        "Accessor"@ != "Map"@,
        "Set"@ != "Map"@,
{
    reveal_strlit("Blueprint");
    reveal_strlit("List");
    reveal_strlit("Tree");
    reveal_strlit("Accessor");
    reveal_strlit("Set");
    reveal_strlit("Map");
    assert("Blueprint"@.len() == 9);
    assert("List"@.len() == 4);
    assert("Tree"@.len() == 4);
    assert("Accessor"@.len() == 8);
    assert("Set"@.len() == 3);
    assert("Map"@.len() == 3);
    assert("List"@[0] != "Tree"@[0]);
    assert("Set"@[0] != "Map"@[0]);
}

impl<'a> Parser<'a> {
    /// Parse a type expression
    pub(super) fn parse_type_expr(&mut self) -> (r: Option<TypeExpr>)
        requires
            old(self).wf(),
        ensures
            final(self).progress(old(self)),
            r.is_some() ==> final(self).moved(old(self)),
            r.is_none() ==> final(self).reported(old(self)),
            r.is_some() == type_expr_end(old(self).source, old(self).tokens@, old(self).cursor as int).is_some(),
            r matches Some(t) ==> {
                &&& type_expr_end(old(self).source, old(self).tokens@, old(self).cursor as int) == Some(
                    final(self).cursor as int,
                )
                &&& reads_type_expr(t, old(self).source, old(self).tokens@, old(self).cursor as int)
            },
        decreases old(self).remaining(), 2nat,
    {
        let base = self.parse_type_base()?;
        // Check for nullable suffix
        let ghost j = self.cursor as int;
        if self.consume(TokenKind::Question).is_some() {
            Some(TypeExpr::Nullable(Box::new(base)))
        } else {
            Some(base)
        }
    }

    /// `<T>` after a generic type's name
    fn parse_type_argument(&mut self) -> (r: Option<TypeExpr>)
        requires
            old(self).wf(),
        ensures
            final(self).progress(old(self)),
            r.is_some() ==> final(self).moved(old(self)),
            r.is_none() ==> final(self).reported(old(self)),
            r.is_some() == type_argument_end(old(self).source, old(self).tokens@, old(self).cursor as int).is_some(),
            r matches Some(t) ==> {
                &&& type_argument_end(old(self).source, old(self).tokens@, old(self).cursor as int) == Some(
                    final(self).cursor as int,
                )
                &&& old(self).cursor < old(self).tokens@.len()
                &&& reads_type_expr(
                    t,
                    old(self).source,
                    old(self).tokens@,
                    after_token(old(self).tokens@, old(self).cursor as int),
                )
            },
        decreases old(self).remaining(), 3nat,
    {
        proof {
            if self.cur().kind is Lt {
                lemma_after_token(self.tokens@, self.cursor as int);
            }
        }
        self.expect(TokenKind::Lt)?;
        let elem = self.parse_type_expr()?;
        self.expect(TokenKind::Gt)?;
        Some(elem)
    }

    /// Parse the base type (before nullable modifier)
    fn parse_type_base(&mut self) -> (r: Option<TypeExpr>)
        requires
            old(self).wf(),
        ensures
            final(self).progress(old(self)),
            r.is_some() ==> final(self).moved(old(self)),
            r.is_none() ==> final(self).reported(old(self)),
            r.is_some() == type_base_end(old(self).source, old(self).tokens@, old(self).cursor as int).is_some(),
            r matches Some(t) ==> {
                &&& type_base_end(old(self).source, old(self).tokens@, old(self).cursor as int) == Some(
                    final(self).cursor as int,
                )
                &&& reads_type_base(t, old(self).source, old(self).tokens@, old(self).cursor as int)
            },
        decreases old(self).remaining(), 1nat,
    {
        let ghost i = self.cursor as int;
        let ghost ts = self.tokens@;
        proof {
            if !(self.cur().kind is Eof) {
                lemma_after_token(ts, i);
            }
        }
        match self.current_kind() {
            TokenKind::Ref => {
                self.advance();
                let inner = self.parse_type_base()?;
                Some(TypeExpr::Ref(Box::new(inner)))
            },
            TokenKind::Draft => {
                self.advance();
                let inner = self.parse_type_base()?;
                Some(TypeExpr::Draft(Box::new(inner)))
            },
            TokenKind::Asset => {
                self.advance();
                let inner = self.parse_type_base()?;
                Some(TypeExpr::Asset(Box::new(inner)))
            },
            TokenKind::Identifier => self.parse_named_type(),
            _ => {
                self.error_expected("type");
                None
            },
        }
    }

    /// A named type, with the type arguments that its name takes
    fn parse_named_type(&mut self) -> (r: Option<TypeExpr>)
        requires
            old(self).wf(),
            old(self).cur().kind is Identifier,
        ensures
            final(self).progress(old(self)),
            r.is_some() ==> final(self).moved(old(self)),
            r.is_none() ==> final(self).reported(old(self)),
            r.is_some() == type_base_end(old(self).source, old(self).tokens@, old(self).cursor as int).is_some(),
            r matches Some(t) ==> {
                &&& type_base_end(old(self).source, old(self).tokens@, old(self).cursor as int) == Some(
                    final(self).cursor as int,
                )
                &&& reads_type_base(t, old(self).source, old(self).tokens@, old(self).cursor as int)
            },
        decreases old(self).remaining(), 0nat,
    {
        let ghost i = self.cursor as int;
        let ghost ts = self.tokens@;
        proof {
            lemma_after_token(ts, i);
            lemma_type_names_distinct();
        }
        let name = to_string(self.current_text());
        self.advance();
        // Built-in generic types, by name
        if str_eq(name.as_str(), "Blueprint") {
            let params = self.parse_blueprint_arguments()?;
            Some(TypeExpr::Blueprint(params))
        } else if str_eq(name.as_str(), "List") {
            let elem = self.parse_type_argument()?;
            Some(TypeExpr::List(Box::new(elem)))
        } else if str_eq(name.as_str(), "Set") {
            if self.check(TokenKind::Lt) {
                let elem = self.parse_type_argument()?;
                Some(TypeExpr::SetOf(Box::new(elem)))
            } else {
                // 'Set' without <> is just a named type
                Some(TypeExpr::Named(name))
            }
        } else if str_eq(name.as_str(), "Map") {
            proof {
                    assert(ts[i].kind is Identifier);
                assert(self.cursor as int == after_token(ts, i));
                assert(type_base_end(self.source, ts, i) == map_arguments_end(self.source, ts, self.cursor as int));
            }
            let (key, value) = self.parse_map_arguments()?;
            Some(TypeExpr::MapOf(Box::new(key), Box::new(value)))
        } else if str_eq(name.as_str(), "Tree") {
            let elem = self.parse_type_argument()?;
            Some(TypeExpr::Tree(Box::new(elem)))
        } else if str_eq(name.as_str(), "Accessor") {
            let elem = self.parse_type_argument()?;
            Some(TypeExpr::Accessor(Box::new(elem)))
        } else {
            Some(TypeExpr::Named(name))
        }
    }

    /// The arguments of `Blueprint`: none, or `<` types `>`
    fn parse_blueprint_arguments(&mut self) -> (r: Option<Vec<TypeExpr>>)
        requires
            old(self).wf(),
        ensures
            final(self).progress(old(self)),
            r.is_none() ==> final(self).reported(old(self)),
            r.is_some() == blueprint_arguments_end(old(self).source, old(self).tokens@, old(self).cursor as int).is_some(),
            r matches Some(v) ==> {
                &&& blueprint_arguments_end(old(self).source, old(self).tokens@, old(self).cursor as int) == Some(
                    final(self).cursor as int,
                )
                &&& if kind_at(old(self).tokens@, old(self).cursor as int, TokenKind::Lt) {
                    reads_type_list(
                        v@,
                        old(self).source,
                        old(self).tokens@,
                        after_token(old(self).tokens@, old(self).cursor as int),
                    )
                } else {
                    v@.len() == 0
                }
            },
        decreases old(self).remaining(), 3nat,
    {
        proof {
            if self.cur().kind is Lt {
                lemma_after_token(self.tokens@, self.cursor as int);
            }
        }
        if self.consume(TokenKind::Lt).is_some() {
            let params = self.parse_type_list()?;
            self.expect(TokenKind::Gt)?;
            Some(params)
        } else {
            Some(Vec::new())
        }
    }

    /// The arguments of `Map`: `<` type `,` type `>`
    fn parse_map_arguments(&mut self) -> (r: Option<(TypeExpr, TypeExpr)>)
        requires
            old(self).wf(),
        ensures
            final(self).progress(old(self)),
            r.is_none() ==> final(self).reported(old(self)),
            r.is_some() == map_arguments_end(old(self).source, old(self).tokens@, old(self).cursor as int).is_some(),
            r matches Some(kv) ==> {
                let k = old(self).cursor as int;
                let ts = old(self).tokens@;
                &&& map_arguments_end(old(self).source, ts, k) == Some(final(self).cursor as int)
                &&& reads_type_expr(kv.0, old(self).source, ts, after_token(ts, k))
                &&& match type_expr_end(old(self).source, ts, after_token(ts, k)) {
                    Some(m1) => reads_type_expr(kv.1, old(self).source, ts, after_token(ts, m1)),
                    None => false,
                }
            },
        decreases old(self).remaining(), 3nat,
    {
        let ghost k = self.cursor as int;
        let ghost ts = self.tokens@;
        proof {
            if self.cur().kind is Lt {
                lemma_after_token(ts, k);
            }
        }
        self.expect(TokenKind::Lt)?;
        let key = self.parse_type_expr()?;
        let ghost m1 = self.cursor as int;
        proof {
            if kind_at(ts, m1, TokenKind::Comma) {
                lemma_after_token(ts, m1);
            }
        }
        self.expect(TokenKind::Comma)?;
        let value = self.parse_type_expr()?;
        self.expect(TokenKind::Gt)?;
        Some((key, value))
    }

    /// Parse a comma-separated list of types
    fn parse_type_list(&mut self) -> (r: Option<Vec<TypeExpr>>)
        requires
            old(self).wf(),
        ensures
            final(self).progress(old(self)),
            r.is_none() ==> final(self).reported(old(self)),
            r.is_some() == type_list_end(old(self).source, old(self).tokens@, old(self).cursor as int).is_some(),
            r matches Some(v) ==> {
                &&& type_list_end(old(self).source, old(self).tokens@, old(self).cursor as int) == Some(
                    final(self).cursor as int,
                )
                &&& reads_type_list(v@, old(self).source, old(self).tokens@, old(self).cursor as int)
            },
        decreases old(self).remaining(), 3nat,
    {
        let ghost i = self.cursor as int;
        let ghost ts = self.tokens@;
        let first = self.parse_type_expr()?;
        let ghost j = self.cursor as int;
        proof {
            if kind_at(ts, j, TokenKind::Comma) {
                lemma_after_token(ts, j);
            }
        }
        if self.consume(TokenKind::Comma).is_some() {
            let mut rest = self.parse_type_list()?;
            let ghost rest_view = rest@;
            rest.insert(0, first);
            proof {
                assert(rest@.drop_first() =~= rest_view);
                assert(rest@[0] == first);
            }
            Some(rest)
        } else {
            let mut types: Vec<TypeExpr> = Vec::new();
            types.push(first);
            proof {
                assert(types@[0] == first);
                assert(types@.len() == 1);
            }
            Some(types)
        }
    }
}

} // verus!
