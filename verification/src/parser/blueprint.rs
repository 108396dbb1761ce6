//! Blueprint parser: blueprint declarations and statements (with, local
//! declarations, fragment creation with slots, control statements, postfix
//! instructions and event handlers).
//!
//! Instructions are told apart syntactically by the `..` prefix:
//! `.. width { 300 }` is an instruction, `text { "hello" }` creates a fragment.

use vstd::prelude::*;
use vstd::string::*;
use crate::ast::{
    FaArg, FaBlueprint, FaBlueprintStmt, FaBlueprintValue, FaControlStmt, FaEventHandler, FaEventParam,
    FaExpr, FaFragmentBody, FaFragmentCreation, FaHandlerStmt, FaLocalDecl, FaPostfixItem, FaSelectBranch,
    FaSlotBinding,
};
use crate::lexer::contextual::BLUEPRINT;
use crate::lexer::TokenKind;
use crate::lexer::Token;
use crate::source::Span;
use crate::text::to_string;
use super::expr::{expr_end, reads_expr};
use super::types::{kind_at, lemma_after_token, reads_type_expr, token_text, type_expr_end};
use super::{after_token, Parser};

verus! {

/// Whether the argument at token `i` is named: `name = value`.
pub open spec fn arg_named(ts: Seq<Token>, i: int) -> bool {
    kind_at(ts, i, TokenKind::Identifier) && kind_at(ts, i + 1, TokenKind::Eq)
}

/// Where the value of the argument at token `i` starts.
pub open spec fn arg_value_start(ts: Seq<Token>, i: int) -> int {
    if arg_named(ts, i) {
        after_token(ts, i + 1)
    } else {
        i
    }
}

/// Where the argument at token `i` ends.
pub open spec fn arg_end(src: &str, ts: Seq<Token>, i: int) -> Option<int> {
    expr_end(src, ts, arg_value_start(ts, i), 0)
}

/// Whether `a` is what the argument at token `i` reads.
pub open spec fn reads_arg(a: FaArg, src: &str, ts: Seq<Token>, i: int) -> bool {
    &&& reads_expr(a.value, src, ts, arg_value_start(ts, i), 0)
    &&& if arg_named(ts, i) {
        a.name matches Some(n) && n@ == token_text(src, ts, i)
    } else {
        a.name is None
    }
}

/// Where the further `, arg` items and the closing `)` from token `j` end.
pub open spec fn args_more_end(src: &str, ts: Seq<Token>, j: int) -> Option<int>
    decreases ts.len() - j,
{
    if kind_at(ts, j, TokenKind::Comma) {
        let k = after_token(ts, j);
        if kind_at(ts, k, TokenKind::RParen) {
            Some(after_token(ts, k))
        } else {
            match arg_end(src, ts, k) {
                Some(m) => if j < m <= ts.len() {
                    args_more_end(src, ts, m)
                } else {
                    None
                },
                None => None,
            }
        }
    } else if kind_at(ts, j, TokenKind::RParen) {
        Some(after_token(ts, j))
    } else {
        None
    }
}

/// Whether `rest` are what the further `, arg` items from token `j` read.
pub open spec fn reads_args_more(rest: Seq<FaArg>, src: &str, ts: Seq<Token>, j: int) -> bool
    decreases ts.len() - j,
{
    if kind_at(ts, j, TokenKind::Comma) {
        let k = after_token(ts, j);
        if kind_at(ts, k, TokenKind::RParen) {
            rest.len() == 0
        } else {
            &&& rest.len() >= 1
            &&& reads_arg(rest[0], src, ts, k)
            &&& match arg_end(src, ts, k) {
                Some(m) => j < m <= ts.len() && reads_args_more(rest.drop_first(), src, ts, m),
                None => false,
            }
        }
    } else {
        rest.len() == 0
    }
}

/// Where the argument list `( arg, ... )` at token `i` ends (a trailing
/// comma is allowed).
pub open spec fn args_end(src: &str, ts: Seq<Token>, i: int) -> Option<int> {
    if kind_at(ts, i, TokenKind::LParen) {
        let k = after_token(ts, i);
        if kind_at(ts, k, TokenKind::RParen) {
            Some(after_token(ts, k))
        } else {
            match arg_end(src, ts, k) {
                Some(j) => if k < j <= ts.len() {
                    args_more_end(src, ts, j)
                } else {
                    None
                },
                None => None,
            }
        }
    } else {
        None
    }
}

/// Whether `args` are what the argument list at token `i` reads.
pub open spec fn reads_args(args: Seq<FaArg>, src: &str, ts: Seq<Token>, i: int) -> bool {
    let k = after_token(ts, i);
    if kind_at(ts, k, TokenKind::RParen) {
        args.len() == 0
    } else {
        &&& args.len() >= 1
        &&& reads_arg(args[0], src, ts, k)
        &&& match arg_end(src, ts, k) {
            Some(j) => k < j <= ts.len() && reads_args_more(args.drop_first(), src, ts, j),
            None => false,
        }
    }
}

/// Where the further `, name` parameters of an inline blueprint and its
/// closing `->` from token `j` end.
pub open spec fn inline_params_more_end(ts: Seq<Token>, j: int) -> Option<int>
    decreases ts.len() - j,
{
    if kind_at(ts, j, TokenKind::Comma) {
        proof {
            lemma_after_token(ts, j);
        }
        let k = after_token(ts, j);
        if kind_at(ts, k, TokenKind::Identifier) {
            proof {
                lemma_after_token(ts, k);
            }
            inline_params_more_end(ts, after_token(ts, k))
        } else {
            None
        }
    } else if kind_at(ts, j, TokenKind::Arrow) {
        Some(after_token(ts, j))
    } else {
        None
    }
}

/// Whether `names` are the further parameter names from token `j`.
pub open spec fn reads_inline_params_more(names: Seq<String>, src: &str, ts: Seq<Token>, j: int) -> bool
    decreases ts.len() - j,
{
    if kind_at(ts, j, TokenKind::Comma) {
        proof {
            lemma_after_token(ts, j);
        }
        let k = after_token(ts, j);
        if kind_at(ts, k, TokenKind::Identifier) {
            proof {
                lemma_after_token(ts, k);
            }
            &&& names.len() >= 1
            &&& names[0]@ == token_text(src, ts, k)
            &&& reads_inline_params_more(names.drop_first(), src, ts, after_token(ts, k))
        } else {
            names.len() == 0
        }
    } else {
        names.len() == 0
    }
}

/// Where the parameters `p1, p2, ... ->` of an inline blueprint at token `i` end.
pub open spec fn inline_params_end(ts: Seq<Token>, i: int) -> Option<int> {
    if kind_at(ts, i, TokenKind::Identifier) {
        inline_params_more_end(ts, after_token(ts, i))
    } else {
        None
    }
}

/// Whether `names` are the parameter names of the inline blueprint at token `i`.
pub open spec fn reads_inline_params(names: Seq<String>, src: &str, ts: Seq<Token>, i: int) -> bool {
    &&& names.len() >= 1
    &&& names[0]@ == token_text(src, ts, i)
    &&& reads_inline_params_more(names.drop_first(), src, ts, after_token(ts, i))
}

/// Whether the text of token `c` begins with `on_`: it names an event.
pub open spec fn event_at(src: &str, ts: Seq<Token>, c: int) -> bool {
    event_name_bytes(src.spec_bytes().subrange(ts[c].span.start as int, ts[c].span.end as int))
}

/// Whether token `c` starts a plain content expression: a literal, a list
/// or a parenthesized expression.
pub open spec fn content_start(k: TokenKind) -> bool {
    k is StringLiteral || k is StringTemplateStart || k is IntLiteral || k is FloatLiteral || k is ColorLiteral
        || k is True || k is False || k is Null || k is LBracket || k is LParen
}

/// What a blueprint statement at token `c` reads, as its first tokens
/// decide: `with` a backend name; a control statement; after an identifier
/// an event handler (an `on_` name), a local declaration (`name :`), a
/// fragment creation (a name followed by `(`, `{` or `..`) or else a content
/// expression; after `..` an event handler or an instruction; a content
/// expression after a literal; an anonymous fragment after `{`; nothing
/// after any other token.
pub open spec fn stmt_read(src: &str, ts: Seq<Token>, c: int, r: Option<FaBlueprintStmt>) -> bool {
    let k = ts[c].kind;
    if k is With {
        r matches Some(st) ==> (st matches FaBlueprintStmt::With(n) && n@ == token_text(src, ts, after_token(ts, c)))
    } else if k is When || k is Repeat || k is Select {
        r matches Some(st) ==> st is Control
    } else if k is Identifier {
        if event_at(src, ts, c) {
            r matches Some(st) ==> (st matches FaBlueprintStmt::EventHandler(h) && h.event_name@ == token_text(src, ts, c))
        } else if kind_at(ts, c + 1, TokenKind::Colon) {
            r matches Some(st) ==> (st matches FaBlueprintStmt::LocalDecl(d) && {
                &&& d.name@ == token_text(src, ts, c)
                &&& reads_type_expr(d.type_expr, src, ts, after_token(ts, c + 1))
                &&& type_expr_end(src, ts, after_token(ts, c + 1)) matches Some(t) && kind_at(ts, t, TokenKind::Eq)
                    && reads_expr(d.init, src, ts, after_token(ts, t), 0)
            })
        } else if kind_at(ts, c + 1, TokenKind::LParen) || kind_at(ts, c + 1, TokenKind::LBrace) || kind_at(
            ts,
            c + 1,
            TokenKind::DotDot,
        ) {
            r matches Some(st) ==> (st matches FaBlueprintStmt::FragmentCreation(f) && f.name@ == token_text(src, ts, c))
        } else {
            &&& r.is_some() == expr_end(src, ts, c, 0).is_some()
            &&& r matches Some(st) ==> (st matches FaBlueprintStmt::ContentExpr(e) && reads_expr(e, src, ts, c, 0))
        }
    } else if k is DotDot {
        r matches Some(st) ==> (if event_at(src, ts, after_token(ts, c)) {
            st matches FaBlueprintStmt::EventHandler(h) && h.event_name@ == token_text(src, ts, after_token(ts, c))
        } else {
            st is Instruction
        })
    } else if content_start(k) {
        &&& r.is_some() == expr_end(src, ts, c, 0).is_some()
        &&& r matches Some(st) ==> (st matches FaBlueprintStmt::ContentExpr(e) && reads_expr(e, src, ts, c, 0))
    } else if k is LBrace {
        r matches Some(st) ==> (st matches FaBlueprintStmt::FragmentCreation(f) && f.name@.len() == 0 && f.body matches Some(
            FaFragmentBody::Default(_),
        ))
    } else {
        r is None
    }
}

/// Whether the bytes of a token's text begin with `on_`, the mark of an
/// event name.
pub open spec fn event_name_bytes(b: Seq<u8>) -> bool {
    b.len() >= 3 && b[0] == 0x6f && b[1] == 0x6e && b[2] == 0x5f
}

/// Whether an arrow follows at token `j`, after any further `, identifier`
/// pairs: the parameters of an inline blueprint end there.
pub open spec fn arrow_after(ts: Seq<Token>, j: int) -> bool
    decreases ts.len() - j,
{
    if j < 0 || j >= ts.len() {
        false
    } else if ts[j].kind is Arrow {
        true
    } else if !(ts[j].kind is Comma) || !kind_at(ts, j + 1, TokenKind::Identifier) {
        false
    } else {
        arrow_after(ts, j + 2)
    }
}

impl<'a> Parser<'a> {
    /// Parse blueprint declaration
    pub(super) fn parse_blueprint(&mut self) -> (r: Option<FaBlueprint>)
        requires
            old(self).wf(),
            old(self).at_word(BLUEPRINT@),
        ensures
            r matches Some(d) ==> d.name@ == super::types::token_text(old(self).source, old(self).tokens@, super::after_token(old(self).tokens@, old(self).cursor as int)),
            final(self).progress(old(self)),
            final(self).moved(old(self)),
            r.is_none() ==> final(self).reported(old(self)),
    {
        self.expect_contextual(BLUEPRINT)?;
        let name = self.expect_identifier()?;
        let params = self.parse_param_list_opt()?;
        self.expect(TokenKind::LBrace)?;
        let body = self.parse_blueprint_body()?;
        self.expect(TokenKind::RBrace)?;
        Some(FaBlueprint { name, params, body })
    }

    /// Parse blueprint body (list of statements)
    fn parse_blueprint_body(&mut self) -> (r: Option<Vec<FaBlueprintStmt>>)
        requires
            old(self).wf(),
        ensures
            final(self).progress(old(self)),
            r.is_some(),
            final(self).cur().kind is RBrace || final(self).cur().kind is Eof,
            (old(self).cur().kind is RBrace || old(self).cur().kind is Eof) ==> (r matches Some(v) && v@.len() == 0)
                && final(self).cursor == old(self).cursor,
        decreases old(self).remaining(), 2nat,
    {
        let mut stmts: Vec<FaBlueprintStmt> = Vec::new();
        while !self.check(TokenKind::RBrace) && !self.at_end()
            invariant
                self.progress(old(self)),
                (old(self).cur().kind is RBrace || old(self).cur().kind is Eof) ==> self.cursor == old(self).cursor
                    && stmts@.len() == 0,
            decreases self.remaining(),
        {
            let ghost before = self.cursor;
            if let Some(stmt) = self.parse_blueprint_stmt() {
                stmts.push(stmt);
            } else {
                // Error recovery: skip to next statement
                self.advance();
            }
            proof {
                assert(self.cursor > before);
            }
        }
        Some(stmts)
    }

    /// Parse a single blueprint statement
    fn parse_blueprint_stmt(&mut self) -> (r: Option<FaBlueprintStmt>)
        requires
            old(self).wf(),
        ensures
            final(self).progress(old(self)),
            r.is_some() ==> final(self).moved(old(self)),
            r.is_none() ==> final(self).reported(old(self)),
            stmt_read(old(self).source, old(self).tokens@, old(self).cursor as int, r),
        decreases old(self).remaining(), 1nat,
    {
        match self.current_kind() {
            // With statement: with BackendName
            TokenKind::With => {
                self.advance();
                let name = self.expect_identifier()?;
                // Optional constructor args
                if self.check(TokenKind::LParen) {
                    self.parse_arg_list()?;
                }
                Some(FaBlueprintStmt::With(name))
            },
            // Control statements
            TokenKind::When => self.parse_when_stmt(),
            TokenKind::Repeat => self.parse_repeat_stmt(),
            TokenKind::Select => self.parse_select_stmt(),
            TokenKind::Identifier => {
                if self.is_event_handler_start() {
                    // Event handlers: on_click, on_input, etc.
                    self.parse_event_handler()
                } else if self.is_local_decl_start() {
                    // Local declaration: name : type = expr
                    let name = self.expect_identifier()?;
                    self.expect(TokenKind::Colon)?;
                    let type_expr = self.parse_type_expr()?;
                    self.expect(TokenKind::Eq)?;
                    let init = self.parse_expr()?;
                    Some(FaBlueprintStmt::LocalDecl(FaLocalDecl { name, type_expr, init }))
                } else if self.is_fragment_creation_start() {
                    // Fragment creation: followed by (, { or ..
                    self.parse_fragment_creation()
                } else {
                    // Anything else, bare identifiers included, is an expression
                    let expr = self.parse_expr()?;
                    Some(FaBlueprintStmt::ContentExpr(expr))
                }
            },
            // Postfix item: .. instruction or .. on_click { ... }
            TokenKind::DotDot => {
                self.advance();
                if self.is_event_handler_start() {
                    let handler = self.parse_postfix_event_handler()?;
                    Some(FaBlueprintStmt::EventHandler(handler))
                } else {
                    let instr = self.parse_instruction()?;
                    Some(FaBlueprintStmt::Instruction(instr))
                }
            },
            // Content expressions: string literals, numbers, colors, etc.
            TokenKind::StringLiteral | TokenKind::StringTemplateStart | TokenKind::IntLiteral
            | TokenKind::FloatLiteral | TokenKind::ColorLiteral | TokenKind::True | TokenKind::False
            | TokenKind::Null | TokenKind::LBracket | TokenKind::LParen => {
                let expr = self.parse_expr()?;
                Some(FaBlueprintStmt::ContentExpr(expr))
            },
            // Block statement: { ... }, an anonymous fragment holding its statements
            TokenKind::LBrace => {
                self.advance();
                let body = self.parse_blueprint_body()?;
                self.expect(TokenKind::RBrace)?;
                Some(
                    FaBlueprintStmt::FragmentCreation(
                        FaFragmentCreation {
                            name: String::new(),
                            args: Vec::new(),
                            body: Some(FaFragmentBody::Default(body)),
                            postfix: Vec::new(),
                        },
                    ),
                )
            },
            _ => {
                self.error_expected("blueprint statement");
                None
            },
        }
    }

    /// Check if current position is start of a local declaration: an identifier and a colon
    fn is_local_decl_start(&self) -> (r: bool)
        requires
            self.wf(),
        ensures
            r == (self.cur().kind is Identifier && kind_at(self.tokens@, self.cursor + 1, TokenKind::Colon)),
    {
        if !self.check(TokenKind::Identifier) {
            return false;
        }
        match self.peek() {
            Some(next) => matches!(next.kind, TokenKind::Colon),
            None => false,
        }
    }

    /// Check if current position is start of an event handler: its text starts with `on_`
    fn is_event_handler_start(&self) -> (r: bool)
        requires
            self.wf(),
        ensures
            r == event_name_bytes(
                self.source.spec_bytes().subrange(self.cur().span.start as int, self.cur().span.end as int),
            ),
    {
        let text = self.current_text().as_bytes();
        text.len() >= 3 && text[0] == 'o' as u8 && text[1] == 'n' as u8 && text[2] == '_' as u8
    }

    /// Check if current identifier starts a fragment creation: it is followed
    /// by (, { or .. (bare identifiers are expressions)
    fn is_fragment_creation_start(&self) -> (r: bool)
        requires
            self.wf(),
        ensures
            r == (kind_at(self.tokens@, self.cursor + 1, TokenKind::LParen) || kind_at(
                self.tokens@,
                self.cursor + 1,
                TokenKind::LBrace,
            ) || kind_at(self.tokens@, self.cursor + 1, TokenKind::DotDot)),
    {
        match self.peek() {
            Some(next) => matches!(next.kind, TokenKind::LParen | TokenKind::LBrace | TokenKind::DotDot),
            None => false,
        }
    }

    /// Parse fragment creation; it has at least one of: args (), body {}, or postfix ..
    fn parse_fragment_creation(&mut self) -> (r: Option<FaBlueprintStmt>)
        requires
            old(self).wf(),
        ensures
            final(self).progress(old(self)),
            r.is_some() ==> final(self).moved(old(self)),
            r.is_none() ==> final(self).reported(old(self)),
            r matches Some(st) ==> match st {
                FaBlueprintStmt::FragmentCreation(f) => f.name@ == token_text(
                    old(self).source,
                    old(self).tokens@,
                    old(self).cursor as int,
                ),
                FaBlueprintStmt::ContentExpr(e) => e matches FaExpr::Identifier(n) && n@ == token_text(
                    old(self).source,
                    old(self).tokens@,
                    old(self).cursor as int,
                ),
                _ => false,
            },
            r matches Some(st) ==> (st is FragmentCreation) == (kind_at(
                old(self).tokens@,
                after_token(old(self).tokens@, old(self).cursor as int),
                TokenKind::LParen,
            ) || kind_at(old(self).tokens@, after_token(old(self).tokens@, old(self).cursor as int), TokenKind::LBrace)
                || kind_at(old(self).tokens@, after_token(old(self).tokens@, old(self).cursor as int), TokenKind::DotDot)),
        decreases old(self).remaining(), 0nat,
    {
        let name = self.expect_identifier()?;
        match self.current_kind() {
            // Fragment with args and/or body: foo(args) { body }
            TokenKind::LParen | TokenKind::LBrace => {
                let args = if self.check(TokenKind::LParen) {
                    self.parse_arg_list()?
                } else {
                    Vec::new()
                };
                let body = if self.check(TokenKind::LBrace) {
                    Some(self.parse_fragment_body()?)
                } else {
                    None
                };
                // Parse postfix items (instructions or event handlers)
                let postfix = self.parse_postfix_items()?;
                Some(FaBlueprintStmt::FragmentCreation(FaFragmentCreation { name, args, body, postfix }))
            },
            // Fragment with just postfix items: foo .. width { 100 } .. on_click { ... }
            TokenKind::DotDot => {
                let postfix = self.parse_postfix_items()?;
                Some(
                    FaBlueprintStmt::FragmentCreation(
                        FaFragmentCreation { name, args: Vec::new(), body: None, postfix },
                    ),
                )
            },
            // Anything else: the name is an expression
            _ => Some(FaBlueprintStmt::ContentExpr(FaExpr::Identifier(name))),
        }
    }

    /// `p1, p2, ... ->` of an inline blueprint
    fn parse_inline_params(&mut self) -> (r: Option<Vec<String>>)
        requires
            old(self).wf(),
        ensures
            final(self).progress(old(self)),
            r.is_none() ==> final(self).reported(old(self)),
            r.is_some() == inline_params_end(old(self).tokens@, old(self).cursor as int).is_some(),
            r matches Some(v) ==> {
                &&& inline_params_end(old(self).tokens@, old(self).cursor as int) == Some(final(self).cursor as int)
                &&& reads_inline_params(v@, old(self).source, old(self).tokens@, old(self).cursor as int)
            },
    {
        let ghost src = self.source;
        let ghost ts = self.tokens@;
        let ghost i0 = self.cursor as int;
        let mut params: Vec<String> = Vec::new();
        let first = self.expect_identifier()?;
        params.push(first);
        proof {
            assert forall|tail: Seq<String>| reads_inline_params_more(tail, src, ts, self.cursor as int) implies reads_inline_params(
                params@ + tail,
                src,
                ts,
                i0,
            ) by {
                assert((params@ + tail).drop_first() =~= tail);
            }
        }
        loop
            invariant
                self.progress(old(self)),
                src == self.source,
                ts == self.tokens@,
                src == old(self).source,
                ts == old(self).tokens@,
                i0 == old(self).cursor,
                inline_params_end(ts, i0) == inline_params_more_end(ts, self.cursor as int),
                forall|tail: Seq<String>| reads_inline_params_more(tail, src, ts, self.cursor as int) ==> reads_inline_params(
                    #[trigger] (params@ + tail),
                    src,
                    ts,
                    i0,
                ),
            ensures
                self.progress(old(self)),
                src == old(self).source,
                ts == old(self).tokens@,
                i0 == old(self).cursor,
                inline_params_end(ts, i0) == inline_params_more_end(ts, self.cursor as int),
                forall|tail: Seq<String>| reads_inline_params_more(tail, src, ts, self.cursor as int) ==> reads_inline_params(
                    #[trigger] (params@ + tail),
                    src,
                    ts,
                    i0,
                ),
                !kind_at(ts, self.cursor as int, TokenKind::Comma),
            decreases self.remaining(),
        {
            let ghost p = self.cursor as int;
            if self.consume(TokenKind::Comma).is_none() {
                break;
            }
            let name = match self.expect_identifier() {
                Some(n) => n,
                None => {
                    proof {
                        assert(inline_params_more_end(ts, p).is_none());
                    }
                    return None;
                },
            };
            let ghost before = params@;
            proof {
                assert forall|tail: Seq<String>| reads_inline_params_more(tail, src, ts, self.cursor as int) implies reads_inline_params(
                    before.push(name) + tail,
                    src,
                    ts,
                    i0,
                ) by {
                    assert((seq![name] + tail).drop_first() =~= tail);
                    assert(reads_inline_params_more(seq![name] + tail, src, ts, p));
                    assert(before.push(name) + tail =~= before + (seq![name] + tail));
                }
            }
            params.push(name);
        }
        let ghost q = self.cursor as int;
        self.expect(TokenKind::Arrow)?;
        proof {
            assert(reads_inline_params_more(Seq::empty(), src, ts, q));
            assert(params@ + Seq::<String>::empty() =~= params@);
        }
        Some(params)
    }

    /// Parse fragment body (default, slot-based, or inline blueprint with params)
    fn parse_fragment_body(&mut self) -> (r: Option<FaFragmentBody>)
        requires
            old(self).wf(),
        ensures
            final(self).progress(old(self)),
            r.is_none() ==> final(self).reported(old(self)),
            !(old(self).cur().kind is LBrace) ==> r is None,
            r matches Some(b) ==> {
                let (src, ts) = (old(self).source, old(self).tokens@);
                let k = after_token(ts, old(self).cursor as int);
                &&& (b is Slots) == kind_at(ts, k, TokenKind::At)
                &&& (b is InlineBlueprint) == (!kind_at(ts, k, TokenKind::At) && kind_at(ts, k, TokenKind::Identifier)
                    && arrow_after(ts, k + 1))
                &&& b matches FaFragmentBody::InlineBlueprint { params, .. } ==> reads_inline_params(params@, src, ts, k)
            },
        decreases old(self).remaining(), 0nat,
    {
        self.expect(TokenKind::LBrace)?;
        if self.check(TokenKind::At) {
            // Slot-based body: { at slotName: ... }
            let slots = self.parse_slot_bindings()?;
            self.expect(TokenKind::RBrace)?;
            Some(FaFragmentBody::Slots(slots))
        } else if self.check(TokenKind::Identifier) && self.has_arrow_after_params() {
            // Inline blueprint with parameters: { param -> body } or { p1, p2 -> body }
            let params = self.parse_inline_params()?;
            let body = self.parse_blueprint_body()?;
            self.expect(TokenKind::RBrace)?;
            Some(FaFragmentBody::InlineBlueprint { params, body })
        } else {
            // Default body: regular blueprint statements
            let body = self.parse_blueprint_body()?;
            self.expect(TokenKind::RBrace)?;
            Some(FaFragmentBody::Default(body))
        }
    }

    /// Parse slot bindings: at slot1: value, at slot2: value
    fn parse_slot_bindings(&mut self) -> (r: Option<Vec<FaSlotBinding>>)
        requires
            old(self).wf(),
        ensures
            final(self).progress(old(self)),
            r.is_none() ==> final(self).reported(old(self)),
            r is Some ==> !(final(self).cur().kind is At),
            !(old(self).cur().kind is At) ==> (r matches Some(v) && v@.len() == 0) && final(self).cursor
                == old(self).cursor,
        decreases old(self).remaining(), 0nat,
    {
        let mut bindings: Vec<FaSlotBinding> = Vec::new();
        while self.check(TokenKind::At)
            invariant
                self.progress(old(self)),
                !(old(self).cur().kind is At) ==> self.cursor == old(self).cursor && bindings@.len() == 0,
            decreases self.remaining(),
        {
            self.advance();
            let slot_name = self.expect_identifier()?;
            self.expect(TokenKind::Colon)?;
            let blueprint = self.parse_blueprint_value()?;
            bindings.push(FaSlotBinding { slot_name, blueprint });
            // Slots are separated by a comma or a newline
            self.consume(TokenKind::Comma);
        }
        Some(bindings)
    }

    /// Parse blueprint value (inline blueprint or reference)
    fn parse_blueprint_value(&mut self) -> (r: Option<FaBlueprintValue>)
        requires
            old(self).wf(),
        ensures
            final(self).progress(old(self)),
            r.is_none() ==> final(self).reported(old(self)),
            old(self).cur().kind is LBrace ==> (r matches Some(x) ==> (x matches FaBlueprintValue::Inline { params, .. } && {
                let (src, ts) = (old(self).source, old(self).tokens@);
                let k = after_token(ts, old(self).cursor as int);
                &&& (params@.len() > 0) == (kind_at(ts, k, TokenKind::Identifier) && arrow_after(ts, k + 1))
                &&& params@.len() > 0 ==> reads_inline_params(params@, src, ts, k)
            })),
            old(self).cur().kind is Identifier ==> (r matches Some(FaBlueprintValue::Reference(n)) && n@ == token_text(
                old(self).source,
                old(self).tokens@,
                old(self).cursor as int,
            )) && final(self).cursor == after_token(old(self).tokens@, old(self).cursor as int),
            !(old(self).cur().kind is LBrace) && !(old(self).cur().kind is Identifier) ==> r is None,
        decreases old(self).remaining(), 0nat,
    {
        if self.check(TokenKind::LBrace) {
            // Inline blueprint: { [params ->] body }
            self.advance();
            if self.check(TokenKind::Identifier) && self.has_arrow_after_params() {
                let params = self.parse_inline_params()?;
                let body = self.parse_blueprint_body()?;
                self.expect(TokenKind::RBrace)?;
                Some(FaBlueprintValue::Inline { params, body })
            } else {
                let body = self.parse_blueprint_body()?;
                self.expect(TokenKind::RBrace)?;
                Some(FaBlueprintValue::Inline { params: Vec::new(), body })
            }
        } else if self.check(TokenKind::Identifier) {
            // Blueprint reference
            let name = self.expect_identifier()?;
            Some(FaBlueprintValue::Reference(name))
        } else {
            self.error_expected("blueprint value");
            None
        }
    }

    /// Whether an arrow follows the current identifier and any further
    /// `, identifier` pairs: tells `{ param -> body }` from `{ identifier ... }`
    fn has_arrow_after_params(&self) -> (r: bool)
        requires
            self.wf(),
        ensures
            r == arrow_after(self.tokens@, self.cursor + 1),
    {
        let n = self.tokens.len();
        let mut offset: usize = 1;
        loop
            invariant
                self.wf(),
                n == self.tokens@.len(),
                1 <= offset <= self.tokens@.len() - self.cursor,
                arrow_after(self.tokens@, self.cursor + 1) == arrow_after(self.tokens@, self.cursor + offset),
            decreases self.tokens@.len() - self.cursor - offset,
        {
            match self.peek_n(offset) {
                Some(t) => {
                    if matches!(t.kind, TokenKind::Arrow) {
                        return true;
                    }
                    if !matches!(t.kind, TokenKind::Comma) {
                        return false;
                    }
                },
                None => return false,
            }
            // An identifier must follow the comma
            match self.peek_n(offset + 1) {
                Some(t) => {
                    if !matches!(t.kind, TokenKind::Identifier) {
                        return false;
                    }
                },
                None => return false,
            }
            offset = offset + 2;
        }
    }

    /// Parse postfix items (instructions or event handlers): .. instr1 .. on_click { ... }
    fn parse_postfix_items(&mut self) -> (r: Option<Vec<FaPostfixItem>>)
        requires
            old(self).wf(),
        ensures
            final(self).progress(old(self)),
            r.is_none() ==> final(self).reported(old(self)),
            r is Some ==> !(final(self).cur().kind is DotDot),
            !(old(self).cur().kind is DotDot) ==> (r matches Some(v) && v@.len() == 0) && final(self).cursor
                == old(self).cursor,
    {
        let mut items: Vec<FaPostfixItem> = Vec::new();
        while self.consume(TokenKind::DotDot).is_some()
            invariant
                self.progress(old(self)),
                !(old(self).cur().kind is DotDot) ==> self.cursor == old(self).cursor && items@.len() == 0,
            decreases self.remaining(),
        {
            if self.is_event_handler_start() {
                let handler = self.parse_postfix_event_handler()?;
                items.push(FaPostfixItem::EventHandler(handler));
            } else {
                let instr = self.parse_instruction()?;
                items.push(FaPostfixItem::Instruction(instr));
            }
        }
        Some(items)
    }

    /// `{ handler statements }`: statements that fail are skipped
    fn parse_handler_body(&mut self) -> (r: Option<Vec<FaHandlerStmt>>)
        requires
            old(self).wf(),
        ensures
            final(self).progress(old(self)),
            r.is_none() ==> final(self).reported(old(self)),
            !(old(self).cur().kind is LBrace) ==> r is None,
            r is Some ==> exists|k: int|
                old(self).cursor < k && #[trigger] kind_at(old(self).tokens@, k, TokenKind::RBrace) && final(self).cursor
                    == after_token(old(self).tokens@, k),
            old(self).cur().kind is LBrace && kind_at(
                old(self).tokens@,
                after_token(old(self).tokens@, old(self).cursor as int),
                TokenKind::RBrace,
            ) ==> (r matches Some(v) && v@.len() == 0) && final(self).cursor == after_token(
                old(self).tokens@,
                after_token(old(self).tokens@, old(self).cursor as int),
            ),
    {
        let ghost c0 = self.cursor as int;
        self.expect(TokenKind::LBrace)?;
        let ghost k0 = self.cursor as int;
        proof {
            lemma_after_token(self.tokens@, c0);
        }
        let mut body: Vec<FaHandlerStmt> = Vec::new();
        while !self.check(TokenKind::RBrace) && !self.at_end()
            invariant
                self.progress(old(self)),
                c0 == old(self).cursor,
                c0 < k0 <= self.cursor,
                kind_at(self.tokens@, k0, TokenKind::RBrace) ==> self.cursor == k0 && body@.len() == 0,
            decreases self.remaining(),
        {
            let ghost before = self.cursor;
            if let Some(stmt) = self.parse_handler_stmt() {
                body.push(stmt);
            } else {
                self.advance();
            }
            proof {
                assert(self.cursor > before);
            }
        }
        let ghost k = self.cursor as int;
        self.expect(TokenKind::RBrace)?;
        proof {
            assert(kind_at(old(self).tokens@, k, TokenKind::RBrace));
        }
        Some(body)
    }

    /// Parse event handler in postfix position: on_click { ... }
    fn parse_postfix_event_handler(&mut self) -> (r: Option<FaEventHandler>)
        requires
            old(self).wf(),
        ensures
            final(self).progress(old(self)),
            r.is_none() ==> final(self).reported(old(self)),
            !(old(self).cur().kind is Identifier) ==> r is None,
            r matches Some(h) ==> {
                let ts = old(self).tokens@;
                let k = after_token(ts, old(self).cursor as int);
                &&& h.event_name@ == token_text(old(self).source, ts, old(self).cursor as int)
                &&& h.param is None
                &&& kind_at(ts, k, TokenKind::LBrace)
                &&& kind_at(ts, after_token(ts, k), TokenKind::RBrace) ==> h.body@.len() == 0
            },
    {
        let event_name = self.expect_identifier()?;
        let body = self.parse_handler_body()?;
        // Postfix event handlers don't have params
        Some(FaEventHandler { event_name, param: None, body })
    }

    /// Parse argument list
    #[verifier::rlimit(40)]
    fn parse_arg_list(&mut self) -> (r: Option<Vec<FaArg>>)
        requires
            old(self).wf(),
        ensures
            final(self).progress(old(self)),
            r.is_none() ==> final(self).reported(old(self)),
            r.is_some() == args_end(old(self).source, old(self).tokens@, old(self).cursor as int).is_some(),
            r matches Some(v) ==> {
                &&& args_end(old(self).source, old(self).tokens@, old(self).cursor as int) == Some(
                    final(self).cursor as int,
                )
                &&& reads_args(v@, old(self).source, old(self).tokens@, old(self).cursor as int)
            },
    {
        let ghost src = self.source;
        let ghost ts = self.tokens@;
        let ghost i0 = self.cursor as int;
        self.expect(TokenKind::LParen)?;
        let ghost k = self.cursor as int;
        proof {
            lemma_after_token(ts, i0);
        }
        if self.check(TokenKind::RParen) {
            self.advance();
            return Some(Vec::new());
        }
        let mut args: Vec<FaArg> = Vec::new();
        let first = match self.parse_arg() {
            Some(a) => a,
            None => {
                proof {
                    assert(args_end(src, ts, i0).is_none());
                }
                return None;
            },
        };
        args.push(first);
        proof {
            assert(args@ =~= seq![first]);
            assert forall|tail: Seq<FaArg>| reads_args_more(tail, src, ts, self.cursor as int) implies reads_args(
                args@ + tail,
                src,
                ts,
                i0,
            ) by {
                assert((args@ + tail).drop_first() =~= tail);
            }
        }
        loop
            invariant
                self.progress(old(self)),
                src == self.source,
                ts == self.tokens@,
                src == old(self).source,
                ts == old(self).tokens@,
                i0 == old(self).cursor,
                i0 < self.cursor,
                args_end(src, ts, i0) == args_more_end(src, ts, self.cursor as int),
                forall|tail: Seq<FaArg>| reads_args_more(tail, src, ts, self.cursor as int) ==> reads_args(
                    #[trigger] (args@ + tail),
                    src,
                    ts,
                    i0,
                ),
            ensures
                self.progress(old(self)),
                src == self.source,
                ts == self.tokens@,
                src == old(self).source,
                ts == old(self).tokens@,
                i0 == old(self).cursor,
                args_end(src, ts, i0) == args_more_end(src, ts, self.cursor as int),
                forall|tail: Seq<FaArg>| reads_args_more(tail, src, ts, self.cursor as int) ==> reads_args(
                    #[trigger] (args@ + tail),
                    src,
                    ts,
                    i0,
                ),
                !kind_at(ts, self.cursor as int, TokenKind::Comma),
            decreases self.remaining(),
        {
            let ghost p = self.cursor as int;
            if self.consume(TokenKind::Comma).is_none() {
                break;
            }
            proof {
                lemma_after_token(ts, p);
            }
            if self.check(TokenKind::RParen) {
                proof {
                    assert(reads_args_more(Seq::empty(), src, ts, p));
                    assert(args@ + Seq::<FaArg>::empty() =~= args@);
                }
                break;
            }
            let ghost k2 = self.cursor as int;
            let a = match self.parse_arg() {
                Some(a) => a,
                None => {
                    proof {
                        assert(args_more_end(src, ts, p).is_none());
                    }
                    return None;
                },
            };
            proof {
                assert forall|tail: Seq<FaArg>| reads_args_more(tail, src, ts, self.cursor as int) implies reads_args(
                    args@.push(a) + tail,
                    src,
                    ts,
                    i0,
                ) by {
                    assert((seq![a] + tail).drop_first() =~= tail);
                    assert(reads_args_more(seq![a] + tail, src, ts, p));
                    assert(args@.push(a) + tail =~= args@ + (seq![a] + tail));
                }
            }
            args.push(a);
        }
        let ghost q = self.cursor as int;
        self.expect(TokenKind::RParen)?;
        proof {
            assert(reads_args_more(Seq::empty(), src, ts, q));
            assert(args@ + Seq::<FaArg>::empty() =~= args@);
        }
        Some(args)
    }

    /// Parse a single argument (named `name = value`, or positional)
    fn parse_arg(&mut self) -> (r: Option<FaArg>)
        requires
            old(self).wf(),
        ensures
            final(self).progress(old(self)),
            r.is_some() ==> final(self).moved(old(self)),
            r.is_none() ==> final(self).reported(old(self)),
            r.is_some() == arg_end(old(self).source, old(self).tokens@, old(self).cursor as int).is_some(),
            r matches Some(a) ==> {
                &&& arg_end(old(self).source, old(self).tokens@, old(self).cursor as int) == Some(
                    final(self).cursor as int,
                )
                &&& reads_arg(a, old(self).source, old(self).tokens@, old(self).cursor as int)
            },
    {
        let named = self.check(TokenKind::Identifier) && match self.peek() {
            Some(next) => matches!(next.kind, TokenKind::Eq),
            None => false,
        };
        if named {
            let name = self.expect_identifier()?;
            self.advance(); // consume '='
            let value = self.parse_expr()?;
            return Some(FaArg { name: Some(name), value });
        }
        // Positional argument
        let value = self.parse_expr()?;
        Some(FaArg { name: None, value })
    }

    // =========================================================================
    // Control statements
    // =========================================================================

    /// Parse when statement: when condition stmt [else stmt]
    fn parse_when_stmt(&mut self) -> (r: Option<FaBlueprintStmt>)
        requires
            old(self).wf(),
            old(self).cur().kind is When,
        ensures
            final(self).progress(old(self)),
            final(self).moved(old(self)),
            r.is_none() ==> final(self).reported(old(self)),
            r matches Some(st) ==> st is Control,
        decreases old(self).remaining(), 0nat,
    {
        self.expect(TokenKind::When)?;
        let condition = self.parse_expr()?;
        let then_stmt = Box::new(self.parse_blueprint_stmt()?);
        let else_stmt = if self.consume(TokenKind::Else).is_some() {
            Some(Box::new(self.parse_blueprint_stmt()?))
        } else {
            None
        };
        Some(FaBlueprintStmt::Control(FaControlStmt::When { condition, then_stmt, else_stmt }))
    }

    /// Parse repeat statement: repeat on expr [as name] [by keyExpr] stmt
    fn parse_repeat_stmt(&mut self) -> (r: Option<FaBlueprintStmt>)
        requires
            old(self).wf(),
            old(self).cur().kind is Repeat,
        ensures
            final(self).progress(old(self)),
            final(self).moved(old(self)),
            r.is_none() ==> final(self).reported(old(self)),
            r matches Some(st) ==> st is Control,
        decreases old(self).remaining(), 0nat,
    {
        self.expect(TokenKind::Repeat)?;
        self.expect(TokenKind::On)?;
        let iterable = self.parse_expr()?;
        let item_name = if self.consume(TokenKind::As).is_some() {
            Some(self.expect_identifier()?)
        } else {
            None
        };
        let key_expr = if self.consume(TokenKind::By).is_some() {
            Some(self.parse_expr()?)
        } else {
            None
        };
        let body = Box::new(self.parse_blueprint_stmt()?);
        Some(FaBlueprintStmt::Control(FaControlStmt::Repeat { iterable, item_name, key_expr, body }))
    }

    /// Parse select statement: select [on expr] { branches }
    fn parse_select_stmt(&mut self) -> (r: Option<FaBlueprintStmt>)
        requires
            old(self).wf(),
            old(self).cur().kind is Select,
        ensures
            final(self).progress(old(self)),
            final(self).moved(old(self)),
            r.is_none() ==> final(self).reported(old(self)),
            r matches Some(st) ==> st is Control,
        decreases old(self).remaining(), 0nat,
    {
        self.expect(TokenKind::Select)?;
        let discriminant = if self.consume(TokenKind::On).is_some() {
            Some(self.parse_expr()?)
        } else {
            None
        };
        self.expect(TokenKind::LBrace)?;

        let mut branches: Vec<FaSelectBranch> = Vec::new();
        let mut else_branch: Option<Box<FaBlueprintStmt>> = None;
        while !self.check(TokenKind::RBrace) && !self.at_end()
            invariant
                self.progress(old(self)),
                self.moved(old(self)),
            decreases self.remaining(),
        {
            if self.consume(TokenKind::Else).is_some() {
                self.expect(TokenKind::FatArrow)?;
                else_branch = Some(Box::new(self.parse_blueprint_stmt()?));
                break;
            }
            let condition = self.parse_expr()?;
            self.expect(TokenKind::FatArrow)?;
            let body = Box::new(self.parse_blueprint_stmt()?);
            branches.push(FaSelectBranch { condition, body });
        }
        self.expect(TokenKind::RBrace)?;
        Some(FaBlueprintStmt::Control(FaControlStmt::Select { discriminant, branches, else_branch }))
    }

    // =========================================================================
    // Event handlers
    // =========================================================================

    /// Parse event handler: on_click [param [: Type] ->] { body }
    fn parse_event_handler(&mut self) -> (r: Option<FaBlueprintStmt>)
        requires
            old(self).wf(),
        ensures
            final(self).progress(old(self)),
            r.is_some() ==> final(self).moved(old(self)),
            r.is_none() ==> final(self).reported(old(self)),
            r matches Some(st) ==> (st matches FaBlueprintStmt::EventHandler(h) && h.event_name@ == token_text(
                old(self).source,
                old(self).tokens@,
                old(self).cursor as int,
            )),
        decreases old(self).remaining(), 0nat,
    {
        let event_name = self.expect_identifier()?;
        let param = if self.check(TokenKind::Identifier) {
            let name = self.expect_identifier()?;
            let type_expr = if self.consume(TokenKind::Colon).is_some() {
                Some(self.parse_type_expr()?)
            } else {
                None
            };
            self.expect(TokenKind::Arrow)?;
            Some(FaEventParam { name, type_expr })
        } else {
            None
        };
        let body = self.parse_handler_body()?;
        Some(FaBlueprintStmt::EventHandler(FaEventHandler { event_name, param, body }))
    }

    /// Parse a handler statement: an assignment or a command call
    fn parse_handler_stmt(&mut self) -> (r: Option<FaHandlerStmt>)
        requires
            old(self).wf(),
        ensures
            final(self).progress(old(self)),
            r.is_some() ==> final(self).moved(old(self)),
            r.is_none() ==> final(self).reported(old(self)),
    {
        let name = self.expect_identifier()?;
        match self.current_kind() {
            TokenKind::Eq => {
                self.advance();
                let value = self.parse_expr()?;
                Some(FaHandlerStmt::Assignment { name, value })
            },
            TokenKind::LParen => {
                self.advance();
                let mut args: Vec<FaExpr> = Vec::new();
                if !self.check(TokenKind::RParen) {
                    args.push(self.parse_expr()?);
                    while self.consume(TokenKind::Comma).is_some()
                        invariant
                            self.progress(old(self)),
                            self.moved(old(self)),
                        decreases self.remaining(),
                    {
                        args.push(self.parse_expr()?);
                    }
                }
                self.expect(TokenKind::RParen)?;
                Some(FaHandlerStmt::CommandCall { name, args })
            },
            // Bare identifier - a command call with no args
            _ => Some(FaHandlerStmt::CommandCall { name, args: Vec::new() }),
        }
    }
}

} // verus!
