//! Parser pieces shared by several declarations: parameter lists,
//! instructions and instruction expressions.

use vstd::prelude::*;
use vstd::string::*;
use crate::ast::{Expr, Instruction, InstructionExpr, Parameter};
use crate::lexer::{Token, TokenKind};
use crate::source::Span;
use crate::text::to_string;
use super::expr::{expr_end, reads_expr};
use super::types::{kind_at, lemma_after_token, reads_type_expr, token_text, type_expr_end};
use super::{after_token, Parser};

verus! {

/// What the instruction expression at token `c` reads, as far as the
/// tokens show it: a `when` gives a conditional; otherwise an expression
/// comes first (stopping before `?`), followed by `?` for a ternary, by `{`
/// and the parameters for a simple instruction (whose name the expression
/// is), or by neither for a reference.
#[verifier::opaque]
pub open spec fn instruction_expr_read(src: &str, ts: Seq<Token>, c: int, r: Option<InstructionExpr>) -> bool {
    if kind_at(ts, c, TokenKind::When) {
        r matches Some(x) ==> x is When
    } else {
        &&& expr_end(src, ts, c, 1) is None ==> r is None
        &&& r matches Some(x) ==> match x {
            InstructionExpr::Ternary { condition, .. } => {
                &&& reads_expr(condition, src, ts, c, 1)
                &&& expr_end(src, ts, c, 1) matches Some(j) && kind_at(ts, j, TokenKind::Question)
            },
            InstructionExpr::Simple(i) => {
                &&& reads_expr(Expr::Identifier(i.name), src, ts, c, 1)
                &&& expr_end(src, ts, c, 1) matches Some(j) && {
                    &&& kind_at(ts, j, TokenKind::LBrace)
                    &&& reads_instruction_params(i.params@, src, ts, after_token(ts, j))
                    &&& instruction_params_end(src, ts, after_token(ts, j)) matches Some(k) && kind_at(
                        ts,
                        k,
                        TokenKind::RBrace,
                    )
                }
            },
            InstructionExpr::Reference(e) => {
                &&& reads_expr(e, src, ts, c, 1)
                &&& expr_end(src, ts, c, 1) matches Some(j) && !kind_at(ts, j, TokenKind::Question) && !kind_at(
                    ts,
                    j,
                    TokenKind::LBrace,
                )
            },
            InstructionExpr::When { .. } => false,
        }
    }
}

/// Whether named instruction parameters start at token `i`: an identifier
/// directly followed by a colon.
pub open spec fn named_params_start(ts: Seq<Token>, i: int) -> bool {
    kind_at(ts, i, TokenKind::Identifier) && kind_at(ts, i + 1, TokenKind::Colon)
}

/// Where the named parameters `name: value ...` from token `k` end: they
/// go on while an identifier follows a value.
pub open spec fn named_params_end(src: &str, ts: Seq<Token>, k: int) -> Option<int>
    decreases ts.len() - k,
{
    if kind_at(ts, k, TokenKind::Identifier) && kind_at(ts, after_token(ts, k), TokenKind::Colon) {
        match expr_end(src, ts, after_token(ts, after_token(ts, k)), 0) {
            Some(m) => if k < m <= ts.len() {
                if kind_at(ts, m, TokenKind::Identifier) {
                    named_params_end(src, ts, m)
                } else {
                    Some(m)
                }
            } else {
                None
            },
            None => None,
        }
    } else {
        None
    }
}

/// Whether `v` are what the named parameters from token `k` read.
pub open spec fn reads_named_params(v: Seq<(String, Expr)>, src: &str, ts: Seq<Token>, k: int) -> bool
    decreases ts.len() - k,
{
    &&& v.len() >= 1
    &&& v[0].0@ == token_text(src, ts, k)
    &&& reads_expr(v[0].1, src, ts, after_token(ts, after_token(ts, k)), 0)
    &&& match expr_end(src, ts, after_token(ts, after_token(ts, k)), 0) {
        Some(m) => k < m <= ts.len() && if kind_at(ts, m, TokenKind::Identifier) {
            reads_named_params(v.drop_first(), src, ts, m)
        } else {
            v.len() == 1
        },
        None => false,
    }
}

/// Where the instruction parameters from token `i` end: none before `}`,
/// named parameters, or a single value.
pub open spec fn instruction_params_end(src: &str, ts: Seq<Token>, i: int) -> Option<int> {
    if kind_at(ts, i, TokenKind::RBrace) {
        Some(i)
    } else if named_params_start(ts, i) {
        named_params_end(src, ts, i)
    } else {
        expr_end(src, ts, i, 0)
    }
}

/// Whether `v` are what the instruction parameters from token `i` read; a
/// single value is named `value`.
pub open spec fn reads_instruction_params(v: Seq<(String, Expr)>, src: &str, ts: Seq<Token>, i: int) -> bool {
    if kind_at(ts, i, TokenKind::RBrace) {
        v.len() == 0
    } else if named_params_start(ts, i) {
        reads_named_params(v, src, ts, i)
    } else {
        v.len() == 1 && v[0].0@ == "value"@ && reads_expr(v[0].1, src, ts, i, 0)
    }
}

/// Where the type of the parameter at token `i` starts (after `name :`).
pub open spec fn param_type_start(ts: Seq<Token>, i: int) -> int {
    after_token(ts, after_token(ts, i))
}

/// Where the parameter `name: type [= default]` at token `i` ends.
pub open spec fn param_end(src: &str, ts: Seq<Token>, i: int) -> Option<int> {
    if kind_at(ts, i, TokenKind::Identifier) && kind_at(ts, after_token(ts, i), TokenKind::Colon) {
        match type_expr_end(src, ts, param_type_start(ts, i)) {
            Some(t) => if kind_at(ts, t, TokenKind::Eq) {
                expr_end(src, ts, after_token(ts, t), 0)
            } else {
                Some(t)
            },
            None => None,
        }
    } else {
        None
    }
}

/// Whether `p` is what the parameter at token `i` reads.
pub open spec fn reads_param(p: Parameter, src: &str, ts: Seq<Token>, i: int) -> bool {
    &&& p.name@ == token_text(src, ts, i)
    &&& reads_type_expr(p.type_expr, src, ts, param_type_start(ts, i))
    &&& match type_expr_end(src, ts, param_type_start(ts, i)) {
        Some(t) => if kind_at(ts, t, TokenKind::Eq) {
            p.default matches Some(e) && reads_expr(e, src, ts, after_token(ts, t), 0)
        } else {
            p.default is None
        },
        None => false,
    }
}

/// Where the further `, param` items from token `j` end (before `)`; a
/// trailing comma is allowed).
pub open spec fn params_more_end(src: &str, ts: Seq<Token>, j: int) -> Option<int>
    decreases ts.len() - j,
{
    if kind_at(ts, j, TokenKind::Comma) {
        let k = after_token(ts, j);
        if kind_at(ts, k, TokenKind::RParen) {
            Some(k)
        } else {
            match param_end(src, ts, k) {
                Some(m) => if j < m <= ts.len() {
                    params_more_end(src, ts, m)
                } else {
                    None
                },
                None => None,
            }
        }
    } else {
        Some(j)
    }
}

/// Whether `rest` are what the further `, param` items from token `j` read.
pub open spec fn reads_params_more(rest: Seq<Parameter>, src: &str, ts: Seq<Token>, j: int) -> bool
    decreases ts.len() - j,
{
    if kind_at(ts, j, TokenKind::Comma) {
        let k = after_token(ts, j);
        if kind_at(ts, k, TokenKind::RParen) {
            rest.len() == 0
        } else {
            &&& rest.len() >= 1
            &&& reads_param(rest[0], src, ts, k)
            &&& match param_end(src, ts, k) {
                Some(m) => j < m <= ts.len() && reads_params_more(rest.drop_first(), src, ts, m),
                None => false,
            }
        }
    } else {
        rest.len() == 0
    }
}

/// Where the parameters before `)` from token `i` end.
pub open spec fn params_end(src: &str, ts: Seq<Token>, i: int) -> Option<int> {
    if kind_at(ts, i, TokenKind::RParen) {
        Some(i)
    } else {
        match param_end(src, ts, i) {
            Some(j) => if i < j <= ts.len() {
                params_more_end(src, ts, j)
            } else {
                None
            },
            None => None,
        }
    }
}

/// Whether `params` are what the parameters from token `i` read.
pub open spec fn reads_params(params: Seq<Parameter>, src: &str, ts: Seq<Token>, i: int) -> bool {
    if kind_at(ts, i, TokenKind::RParen) {
        params.len() == 0
    } else {
        &&& params.len() >= 1
        &&& reads_param(params[0], src, ts, i)
        &&& match param_end(src, ts, i) {
            Some(j) => i < j <= ts.len() && reads_params_more(params.drop_first(), src, ts, j),
            None => false,
        }
    }
}

/// Where the parameter list `( params )` at token `i` ends.
pub open spec fn param_list_end(src: &str, ts: Seq<Token>, i: int) -> Option<int> {
    if kind_at(ts, i, TokenKind::LParen) {
        match params_end(src, ts, after_token(ts, i)) {
            Some(j) => if kind_at(ts, j, TokenKind::RParen) {
                Some(after_token(ts, j))
            } else {
                None
            },
            None => None,
        }
    } else {
        None
    }
}

impl<'a> Parser<'a> {
    /// Parse optional parameter list (may be absent)
    pub(super) fn parse_param_list_opt(&mut self) -> (r: Option<Vec<Parameter>>)
        requires
            old(self).wf(),
        ensures
            final(self).progress(old(self)),
            r.is_none() ==> final(self).reported(old(self)),
            old(self).cur().kind is LParen ==> {
                &&& r.is_some() == param_list_end(old(self).source, old(self).tokens@, old(self).cursor as int).is_some()
                &&& r matches Some(v) ==> {
                    &&& param_list_end(old(self).source, old(self).tokens@, old(self).cursor as int) == Some(
                        final(self).cursor as int,
                    )
                    &&& reads_params(
                        v@,
                        old(self).source,
                        old(self).tokens@,
                        after_token(old(self).tokens@, old(self).cursor as int),
                    )
                }
            },
            !(old(self).cur().kind is LParen) ==> (r matches Some(v) && v@.len() == 0) && final(self).cursor
                == old(self).cursor,
    {
        let ghost i0 = self.cursor as int;
        if self.check(TokenKind::LParen) {
            self.parse_param_list()
        } else {
            Some(Vec::new())
        }
    }

    /// Parse required parameter list
    pub(super) fn parse_param_list(&mut self) -> (r: Option<Vec<Parameter>>)
        requires
            old(self).wf(),
        ensures
            final(self).progress(old(self)),
            r.is_none() ==> final(self).reported(old(self)),
            r.is_some() == param_list_end(old(self).source, old(self).tokens@, old(self).cursor as int).is_some(),
            r matches Some(v) ==> {
                &&& param_list_end(old(self).source, old(self).tokens@, old(self).cursor as int) == Some(
                    final(self).cursor as int,
                )
                &&& reads_params(v@, old(self).source, old(self).tokens@, after_token(old(self).tokens@, old(self).cursor as int))
            },
    {
        self.expect(TokenKind::LParen)?;
        let params = self.parse_params()?;
        self.expect(TokenKind::RParen)?;
        Some(params)
    }

    /// Parse parameter list contents
    #[verifier::rlimit(40)]
    fn parse_params(&mut self) -> (r: Option<Vec<Parameter>>)
        requires
            old(self).wf(),
        ensures
            final(self).progress(old(self)),
            r.is_none() ==> final(self).reported(old(self)),
            r.is_some() == params_end(old(self).source, old(self).tokens@, old(self).cursor as int).is_some(),
            r matches Some(v) ==> {
                &&& params_end(old(self).source, old(self).tokens@, old(self).cursor as int) == Some(
                    final(self).cursor as int,
                )
                &&& reads_params(v@, old(self).source, old(self).tokens@, old(self).cursor as int)
            },
    {
        let ghost src = self.source;
        let ghost ts = self.tokens@;
        let ghost i0 = self.cursor as int;
        if self.check(TokenKind::RParen) {
            return Some(Vec::new());
        }
        let mut params: Vec<Parameter> = Vec::new();
        let first = match self.parse_param() {
            Some(p) => p,
            None => {
                proof {
                    assert(params_end(src, ts, i0).is_none());
                }
                return None;
            },
        };
        params.push(first);
        proof {
            assert(params@ =~= seq![first]);
            assert forall|tail: Seq<Parameter>| reads_params_more(tail, src, ts, self.cursor as int) implies reads_params(
                params@ + tail,
                src,
                ts,
                i0,
            ) by {
                assert((params@ + tail).drop_first() =~= tail);
            }
        }
        loop
            invariant
                self.progress(old(self)),
                src == self.source,
                ts == self.tokens@,
                src == old(self).source,
                ts == old(self).tokens@,
                i0 == old(self).cursor,
                params_end(src, ts, i0) == params_more_end(src, ts, self.cursor as int),
                forall|tail: Seq<Parameter>| reads_params_more(tail, src, ts, self.cursor as int) ==> reads_params(
                    #[trigger] (params@ + tail),
                    src,
                    ts,
                    i0,
                ),
            ensures
                self.progress(old(self)),
                src == old(self).source,
                ts == old(self).tokens@,
                i0 == old(self).cursor,
                params_end(src, ts, i0) == params_more_end(src, ts, self.cursor as int),
                forall|tail: Seq<Parameter>| reads_params_more(tail, src, ts, self.cursor as int) ==> reads_params(
                    #[trigger] (params@ + tail),
                    src,
                    ts,
                    i0,
                ),
                !kind_at(ts, self.cursor as int, TokenKind::Comma),
            decreases self.remaining(),
        {
            let ghost p = self.cursor as int;
            if self.consume(TokenKind::Comma).is_none() {
                break;
            }
            proof {
                lemma_after_token(ts, p);
            }
            if self.check(TokenKind::RParen) {
                // Trailing comma
                break;
            }
            let param = match self.parse_param() {
                Some(x) => x,
                None => {
                    proof {
                        assert(params_more_end(src, ts, p).is_none());
                    }
                    return None;
                },
            };
            proof {
                assert forall|tail: Seq<Parameter>| reads_params_more(tail, src, ts, self.cursor as int) implies reads_params(
                    params@.push(param) + tail,
                    src,
                    ts,
                    i0,
                ) by {
                    assert((seq![param] + tail).drop_first() =~= tail);
                    assert(reads_params_more(seq![param] + tail, src, ts, p));
                    assert(params@.push(param) + tail =~= params@ + (seq![param] + tail));
                }
            }
            params.push(param);
        }
        proof {
            assert(reads_params_more(Seq::empty(), src, ts, self.cursor as int));
            assert(params@ + Seq::<Parameter>::empty() =~= params@);
        }
        Some(params)
    }

    /// Parse a single parameter: `name: type [= default]`
    fn parse_param(&mut self) -> (r: Option<Parameter>)
        requires
            old(self).wf(),
        ensures
            final(self).progress(old(self)),
            r.is_some() ==> final(self).moved(old(self)),
            r.is_none() ==> final(self).reported(old(self)),
            r.is_some() == param_end(old(self).source, old(self).tokens@, old(self).cursor as int).is_some(),
            r matches Some(p) ==> {
                &&& param_end(old(self).source, old(self).tokens@, old(self).cursor as int) == Some(
                    final(self).cursor as int,
                )
                &&& reads_param(p, old(self).source, old(self).tokens@, old(self).cursor as int)
            },
    {
        let name = self.expect_identifier()?;
        self.expect(TokenKind::Colon)?;
        let type_expr = self.parse_type_expr()?;
        let default = if self.consume(TokenKind::Eq).is_some() {
            Some(self.parse_expr()?)
        } else {
            None
        };
        Some(Parameter { name, type_expr, default })
    }

    /// Parse a simple instruction: `name [{ params }]` (used in themes and postfix items)
    pub(super) fn parse_instruction(&mut self) -> (r: Option<Instruction>)
        requires
            old(self).wf(),
        ensures
            final(self).progress(old(self)),
            r.is_some() ==> final(self).moved(old(self)),
            r.is_none() ==> final(self).reported(old(self)),
    {
        let start = self.current_span().start;
        let name = self.expect_identifier()?;
        let params = if self.consume(TokenKind::LBrace).is_some() {
            let params = self.parse_instruction_params()?;
            self.expect(TokenKind::RBrace)?;
            params
        } else {
            Vec::new()
        };
        let end = self.previous_span().end;
        Some(Instruction { name, params, span: Span::new(start, end) })
    }

    /// Parse an instruction expression (used in blueprints):
    /// - simple: `width { 30 }`
    /// - conditional: `when <condition> { inst } [else { inst }]`
    /// - ternary: `<condition> ? <inst> else <inst>`
    /// - reference: `theme.status_badge` (field access or identifier)
    pub(super) fn parse_instruction_expr(&mut self) -> (r: Option<InstructionExpr>)
        requires
            old(self).wf(),
        ensures
            final(self).progress(old(self)),
            r.is_none() ==> final(self).reported(old(self)),
            instruction_expr_read(old(self).source, old(self).tokens@, old(self).cursor as int, r),
            old(self).cur().kind is When ==> (r matches Some(x) ==> x is When),
            !(old(self).cur().kind is When) ==> {
                let (src, ts, c) = (old(self).source, old(self).tokens@, old(self).cursor as int);
                &&& expr_end(src, ts, c, 1) is None ==> r is None
                &&& r matches Some(x) ==> match x {
                    InstructionExpr::Ternary { condition, .. } => {
                        &&& reads_expr(condition, src, ts, c, 1)
                        &&& expr_end(src, ts, c, 1) matches Some(j) && kind_at(ts, j, TokenKind::Question)
                    },
                    InstructionExpr::Simple(i) => {
                        &&& reads_expr(Expr::Identifier(i.name), src, ts, c, 1)
                        &&& expr_end(src, ts, c, 1) matches Some(j) && {
                            &&& kind_at(ts, j, TokenKind::LBrace)
                            &&& reads_instruction_params(i.params@, src, ts, after_token(ts, j))
                            &&& instruction_params_end(src, ts, after_token(ts, j)) matches Some(k)
                                && kind_at(ts, k, TokenKind::RBrace) && final(self).cursor == after_token(ts, k)
                        }
                    },
                    InstructionExpr::Reference(e) => {
                        &&& reads_expr(e, src, ts, c, 1)
                        &&& expr_end(src, ts, c, 1) == Some(final(self).cursor as int)
                        &&& !kind_at(ts, final(self).cursor as int, TokenKind::Question)
                        &&& !kind_at(ts, final(self).cursor as int, TokenKind::LBrace)
                    },
                    InstructionExpr::When { .. } => false,
                }
            },
        decreases old(self).remaining(), 1nat,
    {
        proof {
            reveal(instruction_expr_read);
        }
        // Check for `when` conditional
        if self.consume(TokenKind::When).is_some() {
            return self.parse_when_instruction_expr();
        }

        let start = self.current_span().start;

        // Parse an expression, but stop before `?` so the instruction ternary
        // (`? ... else`) can be told from the expression ternary (`? ... :`)
        let expr = self.parse_expr_before_question()?;

        if self.consume(TokenKind::Question).is_some() {
            // Ternary: <condition> ? <inst> else <inst>
            let then_instr = Box::new(self.parse_instruction_expr()?);
            self.expect(TokenKind::Else)?;
            let else_instr = Box::new(self.parse_instruction_expr()?);
            return Some(InstructionExpr::Ternary { condition: expr, then_instr, else_instr });
        }

        if self.check(TokenKind::LBrace) {
            // Simple instruction: `name { params }`, whose name must be an identifier
            let name = match expr {
                Expr::Identifier(name) => name,
                _ => {
                    self.error_expected("identifier for instruction name");
                    return None;
                },
            };
            self.advance(); // consume '{'
            let params = self.parse_instruction_params()?;
            self.expect(TokenKind::RBrace)?;
            let end = self.previous_span().end;
            return Some(InstructionExpr::Simple(Instruction { name, params, span: Span::new(start, end) }));
        }

        // Reference: field access or identifier
        Some(InstructionExpr::Reference(expr))
    }

    /// Parse when instruction expression: when <condition> { inst } [else { inst }]
    fn parse_when_instruction_expr(&mut self) -> (r: Option<InstructionExpr>)
        requires
            old(self).wf(),
        ensures
            final(self).progress(old(self)),
            r.is_none() ==> final(self).reported(old(self)),
            expr_end(old(self).source, old(self).tokens@, old(self).cursor as int, 0) is None ==> r is None,
            r matches Some(x) ==> (x matches InstructionExpr::When { condition, .. } && {
                let (src, ts, c) = (old(self).source, old(self).tokens@, old(self).cursor as int);
                &&& reads_expr(condition, src, ts, c, 0)
                &&& expr_end(src, ts, c, 0) matches Some(j) && kind_at(ts, j, TokenKind::LBrace)
            }),
        decreases old(self).remaining(), 0nat,
    {
        let condition = self.parse_expr()?;
        self.expect(TokenKind::LBrace)?;
        let then_instr = Box::new(self.parse_instruction_expr()?);
        self.expect(TokenKind::RBrace)?;
        let else_instr = if self.consume(TokenKind::Else).is_some() {
            self.expect(TokenKind::LBrace)?;
            let instr = Box::new(self.parse_instruction_expr()?);
            self.expect(TokenKind::RBrace)?;
            Some(instr)
        } else {
            None
        };
        Some(InstructionExpr::When { condition, then_instr, else_instr })
    }

    /// Parse instruction parameters: `name: value` pairs, or a single value
    /// (named `value`)
    #[verifier::rlimit(40)]
    pub(super) fn parse_instruction_params(&mut self) -> (r: Option<Vec<(String, Expr)>>)
        requires
            old(self).wf(),
        ensures
            final(self).progress(old(self)),
            r.is_none() ==> final(self).reported(old(self)),
            r.is_some() == instruction_params_end(old(self).source, old(self).tokens@, old(self).cursor as int).is_some(),
            r matches Some(v) ==> {
                &&& instruction_params_end(old(self).source, old(self).tokens@, old(self).cursor as int) == Some(
                    final(self).cursor as int,
                )
                &&& reads_instruction_params(v@, old(self).source, old(self).tokens@, old(self).cursor as int)
            },
    {
        let ghost src = self.source;
        let ghost ts = self.tokens@;
        let ghost i0 = self.cursor as int;
        if self.check(TokenKind::RBrace) {
            return Some(Vec::new());
        }
        let mut params: Vec<(String, Expr)> = Vec::new();

        // Named parameters start with an identifier and a colon
        let named = self.check(TokenKind::Identifier) && match self.peek() {
            Some(next) => matches!(next.kind, TokenKind::Colon),
            None => false,
        };
        if named {
            proof {
                assert forall|tail: Seq<(String, Expr)>| reads_named_params(tail, src, ts, self.cursor as int) implies reads_instruction_params(
                    params@ + tail,
                    src,
                    ts,
                    i0,
                ) by {
                    assert(params@ + tail =~= tail);
                }
            }
            loop
                invariant_except_break
                    instruction_params_end(src, ts, i0) == named_params_end(src, ts, self.cursor as int),
                    forall|tail: Seq<(String, Expr)>| reads_named_params(tail, src, ts, self.cursor as int) ==> reads_instruction_params(
                        #[trigger] (params@ + tail),
                        src,
                        ts,
                        i0,
                    ),
                invariant
                    self.progress(old(self)),
                    src == self.source,
                    ts == self.tokens@,
                    src == old(self).source,
                    ts == old(self).tokens@,
                    i0 == old(self).cursor,
                    named_params_start(ts, i0),
                ensures
                    self.progress(old(self)),
                    src == old(self).source,
                    ts == old(self).tokens@,
                    i0 == old(self).cursor,
                    instruction_params_end(src, ts, i0) == Some(self.cursor as int),
                    reads_instruction_params(params@, src, ts, i0),
                decreases self.remaining(),
            {
                let ghost k = self.cursor as int;
                let name = match self.expect_identifier() {
                    Some(n) => n,
                    None => {
                        proof {
                            assert(named_params_end(src, ts, k).is_none());
                        }
                        return None;
                    },
                };
                if self.expect(TokenKind::Colon).is_none() {
                    proof {
                        assert(named_params_end(src, ts, k).is_none());
                    }
                    return None;
                }
                let value = match self.parse_expr() {
                    Some(e) => e,
                    None => {
                        proof {
                            assert(named_params_end(src, ts, k).is_none());
                        }
                        return None;
                    },
                };
                let ghost m = self.cursor as int;
                let ghost item = (name, value);
                let ghost before = params@;
                params.push((name, value));
                if !self.check(TokenKind::Identifier) || self.check(TokenKind::RBrace) {
                    proof {
                        assert(reads_named_params(seq![item], src, ts, k));
                        assert(params@ =~= before + seq![item]);
                    }
                    break;
                }
                proof {
                    assert forall|tail: Seq<(String, Expr)>| reads_named_params(tail, src, ts, m) implies reads_instruction_params(
                        params@ + tail,
                        src,
                        ts,
                        i0,
                    ) by {
                        assert((seq![item] + tail).drop_first() =~= tail);
                        assert(reads_named_params(seq![item] + tail, src, ts, k));
                        assert(params@ + tail =~= before + (seq![item] + tail));
                    }
                }
            }
            return Some(params);
        }

        // Single value (shorthand)
        let value = self.parse_expr()?;
        params.push((to_string("value"), value));
        Some(params)
    }
}

} // verus!
