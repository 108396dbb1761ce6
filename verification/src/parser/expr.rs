//! Expression parser using Pratt parsing, with these precedences from loosest
//! to tightest: ternary (`? :`), elvis (`?:`), `||`, `&&`, equality, comparison,
//! additive, multiplicative, exponential (`**`, right-associative), unary, and
//! postfix (`.`, `?.`, calls).

use vstd::prelude::*;
use vstd::string::*;
use crate::ast::{BinaryOp, Expr, TemplateElement, UnaryOp};
use crate::lexer::{Token, TokenKind};
use crate::source::{span_chars, Span};
use vstd::utf8::decode_utf8;
use crate::text::{chars_of, parse_integer, parsed_integer, push_char, to_string, trim_ascii_ends};
use super::types::{kind_at, lemma_after_token, token_text};
use super::{after_token, Parser};

verus! {

/// Precedence levels for Pratt parsing
#[derive(Debug, Clone, Copy, PartialEq, Eq, Structural)]
pub enum Precedence {
    /// below every operator
    Lowest,
    /// `? :`
    Ternary,
    /// `?:`
    Elvis,
    /// `||`
    Or,
    /// `&&`
    And,
    /// `== !=`
    Equality,
    /// `< <= > >=`
    Comparison,
    /// `+ -`
    Additive,
    /// `* / %`
    Multiplicative,
    /// `**`
    Exponential,
    /// `! - +`
    Unary,
    /// `. ?. ()`
    Postfix,
}

impl Precedence {
    /// The level's place in the order, loosest first.
    pub open spec fn level(self) -> nat {
        match self {
            Precedence::Lowest => 0,
            Precedence::Ternary => 1,
            Precedence::Elvis => 2,
            Precedence::Or => 3,
            Precedence::And => 4,
            Precedence::Equality => 5,
            Precedence::Comparison => 6,
            Precedence::Additive => 7,
            Precedence::Multiplicative => 8,
            Precedence::Exponential => 9,
            Precedence::Unary => 10,
            Precedence::Postfix => 11,
        }
    }

    fn rank(self) -> (r: u8)
        ensures
            r == self.level(),
    {
        match self {
            Precedence::Lowest => 0,
            Precedence::Ternary => 1,
            Precedence::Elvis => 2,
            Precedence::Or => 3,
            Precedence::And => 4,
            Precedence::Equality => 5,
            Precedence::Comparison => 6,
            Precedence::Additive => 7,
            Precedence::Multiplicative => 8,
            Precedence::Exponential => 9,
            Precedence::Unary => 10,
            Precedence::Postfix => 11,
        }
    }

    /// The next tighter level (the tightest stays where it is)
    pub fn next(self) -> (r: Self)
        ensures
            r.level() == if self.level() < 11 { self.level() + 1 } else { 11 },
    {
        match self {
            Precedence::Lowest => Precedence::Ternary,
            Precedence::Ternary => Precedence::Elvis,
            Precedence::Elvis => Precedence::Or,
            Precedence::Or => Precedence::And,
            Precedence::And => Precedence::Equality,
            Precedence::Equality => Precedence::Comparison,
            Precedence::Comparison => Precedence::Additive,
            Precedence::Additive => Precedence::Multiplicative,
            Precedence::Multiplicative => Precedence::Exponential,
            Precedence::Exponential => Precedence::Unary,
            Precedence::Unary => Precedence::Postfix,
            Precedence::Postfix => Precedence::Postfix,
        }
    }
}

/// The precedence of a token used as an infix or postfix operator.
pub open spec fn infix_level(kind: TokenKind) -> Option<Precedence> {
    match kind {
        TokenKind::Question => Some(Precedence::Ternary),
        TokenKind::QuestionColon => Some(Precedence::Elvis),
        TokenKind::PipePipe => Some(Precedence::Or),
        TokenKind::AmpAmp => Some(Precedence::And),
        TokenKind::EqEq | TokenKind::BangEq => Some(Precedence::Equality),
        TokenKind::Lt | TokenKind::LtEq | TokenKind::Gt | TokenKind::GtEq => Some(Precedence::Comparison),
        TokenKind::Plus | TokenKind::Minus => Some(Precedence::Additive),
        TokenKind::Star | TokenKind::Slash | TokenKind::Percent => Some(Precedence::Multiplicative),
        TokenKind::StarStar => Some(Precedence::Exponential),
        TokenKind::Dot | TokenKind::QuestionDot | TokenKind::LParen => Some(Precedence::Postfix),
        _ => None,
    }
}

pub fn infix_precedence(kind: TokenKind) -> (r: Option<Precedence>)
    ensures
        r == infix_level(kind),
{
    match kind {
        TokenKind::Question => Some(Precedence::Ternary),
        TokenKind::QuestionColon => Some(Precedence::Elvis),
        TokenKind::PipePipe => Some(Precedence::Or),
        TokenKind::AmpAmp => Some(Precedence::And),
        TokenKind::EqEq | TokenKind::BangEq => Some(Precedence::Equality),
        TokenKind::Lt | TokenKind::LtEq | TokenKind::Gt | TokenKind::GtEq => Some(Precedence::Comparison),
        TokenKind::Plus | TokenKind::Minus => Some(Precedence::Additive),
        TokenKind::Star | TokenKind::Slash | TokenKind::Percent => Some(Precedence::Multiplicative),
        TokenKind::StarStar => Some(Precedence::Exponential),
        TokenKind::Dot | TokenKind::QuestionDot | TokenKind::LParen => Some(Precedence::Postfix),
        _ => None,
    }
}

/// The binary operator a token stands for.
pub open spec fn binary_op_of(kind: TokenKind) -> Option<BinaryOp> {
    match kind {
        TokenKind::Plus => Some(BinaryOp::Add),
        TokenKind::Minus => Some(BinaryOp::Sub),
        TokenKind::Star => Some(BinaryOp::Mul),
        TokenKind::Slash => Some(BinaryOp::Div),
        TokenKind::Percent => Some(BinaryOp::Mod),
        TokenKind::StarStar => Some(BinaryOp::Pow),
        TokenKind::EqEq => Some(BinaryOp::Eq),
        TokenKind::BangEq => Some(BinaryOp::Ne),
        TokenKind::Lt => Some(BinaryOp::Lt),
        TokenKind::LtEq => Some(BinaryOp::Le),
        TokenKind::Gt => Some(BinaryOp::Gt),
        TokenKind::GtEq => Some(BinaryOp::Ge),
        TokenKind::AmpAmp => Some(BinaryOp::And),
        TokenKind::PipePipe => Some(BinaryOp::Or),
        TokenKind::QuestionColon => Some(BinaryOp::Elvis),
        _ => None,
    }
}

pub fn binary_op(kind: TokenKind) -> (r: Option<BinaryOp>)
    ensures
        r == binary_op_of(kind),
{
    match kind {
        TokenKind::Plus => Some(BinaryOp::Add),
        TokenKind::Minus => Some(BinaryOp::Sub),
        TokenKind::Star => Some(BinaryOp::Mul),
        TokenKind::Slash => Some(BinaryOp::Div),
        TokenKind::Percent => Some(BinaryOp::Mod),
        TokenKind::StarStar => Some(BinaryOp::Pow),
        TokenKind::EqEq => Some(BinaryOp::Eq),
        TokenKind::BangEq => Some(BinaryOp::Ne),
        TokenKind::Lt => Some(BinaryOp::Lt),
        TokenKind::LtEq => Some(BinaryOp::Le),
        TokenKind::Gt => Some(BinaryOp::Gt),
        TokenKind::GtEq => Some(BinaryOp::Ge),
        TokenKind::AmpAmp => Some(BinaryOp::And),
        TokenKind::PipePipe => Some(BinaryOp::Or),
        TokenKind::QuestionColon => Some(BinaryOp::Elvis),
        _ => None,
    }
}

/// `bytes` are the ASCII spelling of `text`, character for character.
pub open spec fn spells(bytes: Seq<u8>, text: Seq<char>) -> bool {
    &&& bytes.len() == text.len()
    &&& forall|i: int| 0 <= i < text.len() ==> bytes[i] == #[trigger] text[i] as u8
}

/// An operator token stands for the binary operator it spells: the text of
/// the token is the operator's symbol (`<=` for `Le`, `<` for `Lt`, `?:` for
/// `Elvis`, ...).
pub proof fn law_binary_op_spelling(kind: TokenKind)
    ensures
        binary_op_of(kind) matches Some(op) ==> (crate::lexer::spec::fixed_text(kind) matches Some(t) && spells(
            t,
            crate::ast::dump::binary_op_text(op),
        )),
{
    match kind {
        TokenKind::Plus => { reveal_strlit("+"); },
        TokenKind::Minus => { reveal_strlit("-"); },
        TokenKind::Star => { reveal_strlit("*"); },
        TokenKind::Slash => { reveal_strlit("/"); },
        TokenKind::Percent => { reveal_strlit("%"); },
        TokenKind::StarStar => { reveal_strlit("**"); },
        TokenKind::EqEq => { reveal_strlit("=="); },
        TokenKind::BangEq => { reveal_strlit("!="); },
        TokenKind::Lt => { reveal_strlit("<"); },
        TokenKind::LtEq => { reveal_strlit("<="); },
        TokenKind::Gt => { reveal_strlit(">"); },
        TokenKind::GtEq => { reveal_strlit(">="); },
        TokenKind::AmpAmp => { reveal_strlit("&&"); },
        TokenKind::PipePipe => { reveal_strlit("||"); },
        TokenKind::QuestionColon => { reveal_strlit("?:"); },
        _ => {},
    }
}

/// Distinct operator tokens stand for distinct operators.
pub proof fn law_binary_op_injective(a: TokenKind, b: TokenKind)
    ensures
        binary_op_of(a) is Some && binary_op_of(a) == binary_op_of(b) ==> a == b,
{
}

/// The text an escape sequence `\c` stands for: the usual escapes, and the
/// backslash kept where `c` is not one of them.
pub open spec fn escaped(c: char) -> Seq<char> {
    if c == 'n' {
        seq!['\n']
    } else if c == 'r' {
        seq!['\r']
    } else if c == 't' {
        seq!['\t']
    } else if c == '\\' {
        seq!['\\']
    } else if c == '"' {
        seq!['"']
    } else if c == '\'' {
        seq!['\'']
    } else if c == '$' {
        seq!['$']
    } else {
        seq!['\\', c]
    }
}

/// `s` with its escape sequences replaced; a backslash at the very end stays.
pub open spec fn unescaped(s: Seq<char>) -> Seq<char>
    decreases s.len(),
{
    if s.len() == 0 {
        Seq::empty()
    } else if s[0] == '\\' {
        if s.len() == 1 {
            seq!['\\']
        } else {
            escaped(s[1]) + unescaped(s.subrange(2, s.len() as int))
        }
    } else {
        seq![s[0]] + unescaped(s.drop_first())
    }
}

/// The characters of `s` but for the underscores.
pub open spec fn without_underscores(s: Seq<char>) -> Seq<char> {
    s.filter(|c: char| c != '_')
}

/// The value of an integer literal: hexadecimal, binary or octal after a
/// `0x`, `0b` or `0o` prefix (either case), decimal otherwise; underscores
/// are ignored, and anything that does not parse as an `i64` counts as 0.
pub open spec fn int_literal_value(text: Seq<char>) -> i64 {
    let s = without_underscores(text);
    let prefixed = s.len() >= 2 && s[0] == '0';
    let radix: nat = if prefixed && (s[1] == 'x' || s[1] == 'X') {
        16
    } else if prefixed && (s[1] == 'b' || s[1] == 'B') {
        2
    } else if prefixed && (s[1] == 'o' || s[1] == 'O') {
        8
    } else {
        10
    };
    let digits = if radix == 10 { s } else { s.subrange(2, s.len() as int) };
    match parsed_integer(digits, radix, i64::MIN as int, i64::MAX as int) {
        Some(v) => v as i64,
        None => 0,
    }
}

// =========================================================================
// The expression grammar over the token stream
// =========================================================================

/// The unary operator a token stands for before an operand.
pub open spec fn prefix_op_of(kind: TokenKind) -> Option<UnaryOp> {
    match kind {
        TokenKind::Bang => Some(UnaryOp::Not),
        TokenKind::Minus => Some(UnaryOp::Neg),
        TokenKind::Plus => Some(UnaryOp::Pos),
        _ => None,
    }
}

/// The level at which the right operand of a binary operator is read: `**`
/// takes another `**` on its right, the others are left-associative.
pub open spec fn right_level(kind: TokenKind, level: nat) -> nat {
    if kind is StarStar {
        8
    } else {
        level
    }
}

/// Whether an infix or postfix operator at token `j` binds tighter than `m`.
pub open spec fn infix_above(ts: Seq<Token>, j: int, m: nat) -> bool {
    &&& 0 <= j < ts.len()
    &&& infix_level(ts[j].kind) is Some
    &&& infix_level(ts[j].kind)->0.level() > m
}

/// The characters between the quotes of a string literal token.
pub open spec fn string_inner(src: &str, span: Span) -> Seq<char> {
    span_chars(src, Span { start: (span.start + 1) as u32, end: (span.end - 1) as u32 })
}

/// Whether an object field starts at token `k`: a name, then a colon right after it.
pub open spec fn object_field_start(ts: Seq<Token>, k: int) -> bool {
    kind_at(ts, k, TokenKind::Identifier) && kind_at(ts, k + 1, TokenKind::Colon)
}

/// The text of a template piece token: its bytes without the first `front`
/// and the last `back` (its quote, brace or `${`, which are ASCII), with
/// escapes replaced; `None` where the token is too short or those bytes are
/// not ASCII.
pub open spec fn piece_text(src: &str, t: Token, front: int, back: int) -> Option<Seq<char>> {
    let b = src.spec_bytes().subrange(t.span.start as int, t.span.end as int);
    if b.len() < front + back || (exists|j: int| 0 <= j < front && #[trigger] b[j] >= 0x80) || (exists|j: int|
        b.len() - back <= j < b.len() && #[trigger] b[j] >= 0x80) {
        None
    } else {
        Some(unescaped(decode_utf8(b.subrange(front, b.len() - back))))
    }
}

/// How many elements a piece of template text adds: one, unless it is empty or missing.
pub open spec fn piece_count(p: Option<Seq<char>>) -> int {
    match p {
        Some(t) => if t.len() > 0 { 1 } else { 0 },
        None => 0,
    }
}

/// Whether `es` is what a piece of template text adds.
pub open spec fn reads_piece(es: Seq<TemplateElement>, p: Option<Seq<char>>) -> bool {
    &&& es.len() == piece_count(p)
    &&& es.len() == 1 ==> (es[0] matches TemplateElement::Text(s) && Some(s@) == p)
}

/// The text an optional string holds.
pub open spec fn opt_text(p: Option<String>) -> Option<Seq<char>> {
    match p {
        Some(s) => Some(s@),
        None => None,
    }
}

/// Where an expression that starts at token `i` ends when it takes only the
/// operators that bind tighter than level `m`; `None` if there is none.
pub open spec fn expr_end(src: &str, ts: Seq<Token>, i: int, m: nat) -> Option<int>
    decreases ts.len() - i, 6nat,
{
    match prefix_end(src, ts, i) {
        Some(j) => if i < j <= ts.len() {
            chain_end(src, ts, j, m)
        } else {
            None
        },
        None => None,
    }
}

/// Where a chain of operators that bind tighter than `m`, from token `j` on, ends.
pub open spec fn chain_end(src: &str, ts: Seq<Token>, j: int, m: nat) -> Option<int>
    decreases ts.len() - j, 1nat,
{
    if infix_above(ts, j, m) {
        match infix_end(src, ts, j) {
            Some(k) => if j < k <= ts.len() {
                chain_end(src, ts, k, m)
            } else {
                None
            },
            None => None,
        }
    } else {
        Some(j)
    }
}

/// Where an infix or postfix operator at token `j`, with what it takes on its right, ends.
pub open spec fn infix_end(src: &str, ts: Seq<Token>, j: int) -> Option<int>
    decreases ts.len() - j, 0nat,
{
    if !(0 <= j < ts.len()) || ts[j].kind is Eof {
        None
    } else {
        proof {
            lemma_after_token(ts, j);
        }
        let kind = ts[j].kind;
        let a = after_token(ts, j);
        if kind is Question {
            match expr_end(src, ts, a, 0) {
                Some(c) => if a <= c && kind_at(ts, c, TokenKind::Colon) {
                    proof {
                        lemma_after_token(ts, c);
                    }
                    expr_end(src, ts, after_token(ts, c), 1)
                } else {
                    None
                },
                None => None,
            }
        } else if kind is Dot || kind is QuestionDot {
            if kind_at(ts, a, TokenKind::Identifier) {
                Some(after_token(ts, a))
            } else {
                None
            }
        } else if kind is LParen {
            match elems_end(src, ts, a, TokenKind::RParen) {
                Some(c) => if kind_at(ts, c, TokenKind::RParen) {
                    Some(after_token(ts, c))
                } else {
                    None
                },
                None => None,
            }
        } else if binary_op_of(kind) is Some && infix_level(kind) is Some {
            expr_end(src, ts, a, right_level(kind, infix_level(kind)->0.level()))
        } else {
            None
        }
    }
}

/// Where a prefix expression (a unary operator and its operand, or a primary) ends.
pub open spec fn prefix_end(src: &str, ts: Seq<Token>, i: int) -> Option<int>
    decreases ts.len() - i, 5nat,
{
    if 0 <= i < ts.len() && prefix_op_of(ts[i].kind) is Some {
        proof {
            lemma_after_token(ts, i);
        }
        expr_end(src, ts, after_token(ts, i), 10)
    } else {
        primary_end(src, ts, i)
    }
}

/// Where a primary expression ends: a literal, a name, a string template, a
/// list, an object or a parenthesized expression.
pub open spec fn primary_end(src: &str, ts: Seq<Token>, i: int) -> Option<int>
    decreases ts.len() - i, 4nat,
{
    if !(0 <= i < ts.len()) || ts[i].kind is Eof {
        None
    } else {
        proof {
            lemma_after_token(ts, i);
        }
        let kind = ts[i].kind;
        let a = after_token(ts, i);
        if kind is Null || kind is True || kind is False || kind is IntLiteral || kind is FloatLiteral
            || kind is StringLiteral || kind is Identifier {
            Some(a)
        } else if kind is StringTemplateStart {
            template_end(src, ts, a)
        } else if kind is LBracket {
            match elems_end(src, ts, a, TokenKind::RBracket) {
                Some(c) => if kind_at(ts, c, TokenKind::RBracket) {
                    Some(after_token(ts, c))
                } else {
                    None
                },
                None => None,
            }
        } else if kind is LBrace {
            if kind_at(ts, a, TokenKind::RBrace) {
                Some(after_token(ts, a))
            } else if object_field_start(ts, a) {
                match fields_end(src, ts, a) {
                    Some(c) => if kind_at(ts, c, TokenKind::RBrace) {
                        Some(after_token(ts, c))
                    } else {
                        None
                    },
                    None => None,
                }
            } else {
                None
            }
        } else if kind is LParen {
            match expr_end(src, ts, a, 0) {
                Some(c) => if kind_at(ts, c, TokenKind::RParen) {
                    Some(after_token(ts, c))
                } else {
                    None
                },
                None => None,
            }
        } else {
            None
        }
    }
}

/// Where the rest of a string template from token `k` ends: an expression,
/// then a middle piece and more, or the end piece (a template cut short ends
/// after its last expression).
pub open spec fn template_end(src: &str, ts: Seq<Token>, k: int) -> Option<int>
    decreases ts.len() - k, 7nat,
{
    match expr_end(src, ts, k, 0) {
        Some(m) => if k <= m && kind_at(ts, m, TokenKind::StringTemplateMiddle) {
            proof {
                lemma_after_token(ts, m);
            }
            template_end(src, ts, after_token(ts, m))
        } else if kind_at(ts, m, TokenKind::StringTemplateEnd) {
            Some(after_token(ts, m))
        } else {
            Some(m)
        },
        None => None,
    }
}

/// Where the comma-separated expressions before `closer`, from token `i`, end
/// (a trailing comma is allowed).
pub open spec fn elems_end(src: &str, ts: Seq<Token>, i: int, closer: TokenKind) -> Option<int>
    decreases ts.len() - i, 7nat,
{
    if kind_at(ts, i, closer) {
        Some(i)
    } else {
        match expr_end(src, ts, i, 0) {
            Some(j) => if i < j <= ts.len() {
                elems_more_end(src, ts, j, closer)
            } else {
                None
            },
            None => None,
        }
    }
}

/// Where the further `, expr` items from token `j` end.
pub open spec fn elems_more_end(src: &str, ts: Seq<Token>, j: int, closer: TokenKind) -> Option<int>
    decreases ts.len() - j, 7nat,
{
    if kind_at(ts, j, TokenKind::Comma) {
        proof {
            lemma_after_token(ts, j);
        }
        let k = after_token(ts, j);
        if kind_at(ts, k, closer) {
            Some(k)
        } else {
            match expr_end(src, ts, k, 0) {
                Some(m) => if j < m <= ts.len() {
                    elems_more_end(src, ts, m, closer)
                } else {
                    None
                },
                None => None,
            }
        }
    } else {
        Some(j)
    }
}

/// Where an object field `name: expr` at token `k` ends.
pub open spec fn field_end(src: &str, ts: Seq<Token>, k: int) -> Option<int>
    decreases ts.len() - k, 7nat,
{
    if kind_at(ts, k, TokenKind::Identifier) {
        proof {
            lemma_after_token(ts, k);
        }
        let c = after_token(ts, k);
        if kind_at(ts, c, TokenKind::Colon) {
            proof {
                lemma_after_token(ts, c);
            }
            expr_end(src, ts, after_token(ts, c), 0)
        } else {
            None
        }
    } else {
        None
    }
}

/// Where the comma-separated object fields from token `k` end (a trailing
/// comma is allowed).
pub open spec fn fields_end(src: &str, ts: Seq<Token>, k: int) -> Option<int>
    decreases ts.len() - k, 8nat,
{
    match field_end(src, ts, k) {
        Some(j) => if k < j <= ts.len() {
            fields_more_end(src, ts, j)
        } else {
            None
        },
        None => None,
    }
}

/// Where the further `, field` items from token `j` end.
pub open spec fn fields_more_end(src: &str, ts: Seq<Token>, j: int) -> Option<int>
    decreases ts.len() - j, 8nat,
{
    if kind_at(ts, j, TokenKind::Comma) {
        proof {
            lemma_after_token(ts, j);
        }
        let k = after_token(ts, j);
        if kind_at(ts, k, TokenKind::RBrace) {
            Some(k)
        } else {
            match field_end(src, ts, k) {
                Some(m) => if j < m <= ts.len() {
                    fields_more_end(src, ts, m)
                } else {
                    None
                },
                None => None,
            }
        }
    } else {
        Some(j)
    }
}

/// Every expression can stand as an operand; this names the intermediate
/// results that the grammar below quantifies over.
pub open spec fn is_operand(e: Expr) -> bool {
    true
}

/// Whether `e` is what the expression at token `i` reads, at level `m`.
pub open spec fn reads_expr(e: Expr, src: &str, ts: Seq<Token>, i: int, m: nat) -> bool
    decreases ts.len() - i, 6nat,
{
    match prefix_end(src, ts, i) {
        Some(j) => i < j <= ts.len() && exists|l: Expr| #[trigger] is_operand(l) && reads_prefix(l, src, ts, i) && reads_chain(e, l, src, ts, j, m),
        None => false,
    }
}

/// Whether `e` is what the operators from token `j` on make of `left`.
pub open spec fn reads_chain(e: Expr, left: Expr, src: &str, ts: Seq<Token>, j: int, m: nat) -> bool
    decreases ts.len() - j, 1nat,
{
    if infix_above(ts, j, m) {
        match infix_end(src, ts, j) {
            Some(k) => j < k <= ts.len() && exists|x: Expr| #[trigger] is_operand(x) && reads_infix(x, left, src, ts, j) && reads_chain(e, x, src, ts, k, m),
            None => false,
        }
    } else {
        e == left
    }
}

/// Whether `x` is what the operator at token `j` makes of `left`.
pub open spec fn reads_infix(x: Expr, left: Expr, src: &str, ts: Seq<Token>, j: int) -> bool
    decreases ts.len() - j, 0nat,
{
    if !(0 <= j < ts.len()) || ts[j].kind is Eof {
        false
    } else {
        proof {
            lemma_after_token(ts, j);
        }
        let kind = ts[j].kind;
        let a = after_token(ts, j);
        if kind is Question {
            &&& x matches Expr::Ternary { condition, then_expr, else_expr }
            &&& *condition == left
            &&& reads_expr(*then_expr, src, ts, a, 0)
            &&& match expr_end(src, ts, a, 0) {
                Some(c) => a <= c && kind_at(ts, c, TokenKind::Colon) && {
                    proof {
                        lemma_after_token(ts, c);
                    }
                    reads_expr(*else_expr, src, ts, after_token(ts, c), 1)
                },
                None => false,
            }
        } else if kind is Dot {
            x matches Expr::FieldAccess { base, field } && *base == left && field@ == token_text(src, ts, a)
        } else if kind is QuestionDot {
            x matches Expr::OptionalChain { base, field } && *base == left && field@ == token_text(src, ts, a)
        } else if kind is LParen {
            x matches Expr::Call { callee, args } && *callee == left && reads_elems(args@, src, ts, a, TokenKind::RParen)
        } else if binary_op_of(kind) is Some && infix_level(kind) is Some {
            &&& x matches Expr::Binary { op, left: l, right: r }
            &&& Some(op) == binary_op_of(kind)
            &&& *l == left
            &&& reads_expr(*r, src, ts, a, right_level(kind, infix_level(kind)->0.level()))
        } else {
            false
        }
    }
}

/// Whether `e` is what the prefix expression at token `i` reads.
pub open spec fn reads_prefix(e: Expr, src: &str, ts: Seq<Token>, i: int) -> bool
    decreases ts.len() - i, 5nat,
{
    if 0 <= i < ts.len() && prefix_op_of(ts[i].kind) is Some {
        proof {
            lemma_after_token(ts, i);
        }
        e matches Expr::Unary { op, expr } && Some(op) == prefix_op_of(ts[i].kind) && reads_expr(
            *expr,
            src,
            ts,
            after_token(ts, i),
            10,
        )
    } else {
        reads_primary(e, src, ts, i)
    }
}

/// Whether `e` is what the primary expression at token `i` reads.
pub open spec fn reads_primary(e: Expr, src: &str, ts: Seq<Token>, i: int) -> bool
    decreases ts.len() - i, 4nat,
{
    if !(0 <= i < ts.len()) || ts[i].kind is Eof {
        false
    } else {
        proof {
            lemma_after_token(ts, i);
        }
        let kind = ts[i].kind;
        let a = after_token(ts, i);
        if kind is Null {
            e matches Expr::Null
        } else if kind is True {
            e matches Expr::Bool(b) && b
        } else if kind is False {
            e matches Expr::Bool(b) && !b
        } else if kind is IntLiteral {
            e matches Expr::Int(n) && n == int_literal_value(token_text(src, ts, i))
        } else if kind is FloatLiteral {
            e matches Expr::Float(t) && t@ == without_underscores(token_text(src, ts, i))
        } else if kind is StringLiteral {
            e matches Expr::String(v) && v@ == unescaped(string_inner(src, ts[i].span))
        } else if kind is Identifier {
            e matches Expr::Identifier(name) && name@ == token_text(src, ts, i)
        } else if kind is StringTemplateStart {
            let p = piece_text(src, ts[i], 1, 2);
            let c = piece_count(p);
            &&& e matches Expr::StringTemplate(es)
            &&& es@.len() >= c
            &&& reads_piece(es@.subrange(0, c), p)
            &&& reads_template(es@.subrange(c, es@.len() as int), src, ts, a)
        } else if kind is LBracket {
            e matches Expr::List(items) && reads_elems(items@, src, ts, a, TokenKind::RBracket)
        } else if kind is LBrace {
            if kind_at(ts, a, TokenKind::RBrace) {
                e matches Expr::Object(fields) && fields@.len() == 0
            } else {
                e matches Expr::Object(fields) && reads_fields(fields@, src, ts, a)
            }
        } else if kind is LParen {
            reads_expr(e, src, ts, a, 0)
        } else {
            false
        }
    }
}

/// Whether `vals` are what the comma-separated expressions before `closer` at token `i` read.
pub open spec fn reads_elems(vals: Seq<Expr>, src: &str, ts: Seq<Token>, i: int, closer: TokenKind) -> bool
    decreases ts.len() - i, 7nat,
{
    if kind_at(ts, i, closer) {
        vals.len() == 0
    } else {
        &&& vals.len() >= 1
        &&& reads_expr(vals[0], src, ts, i, 0)
        &&& match expr_end(src, ts, i, 0) {
            Some(j) => i < j <= ts.len() && reads_elems_more(vals.drop_first(), src, ts, j, closer),
            None => false,
        }
    }
}

/// Whether `rest` are what the further `, expr` items from token `j` read.
pub open spec fn reads_elems_more(rest: Seq<Expr>, src: &str, ts: Seq<Token>, j: int, closer: TokenKind) -> bool
    decreases ts.len() - j, 7nat,
{
    if kind_at(ts, j, TokenKind::Comma) {
        proof {
            lemma_after_token(ts, j);
        }
        let k = after_token(ts, j);
        if kind_at(ts, k, closer) {
            rest.len() == 0
        } else {
            &&& rest.len() >= 1
            &&& reads_expr(rest[0], src, ts, k, 0)
            &&& match expr_end(src, ts, k, 0) {
                Some(m) => j < m <= ts.len() && reads_elems_more(rest.drop_first(), src, ts, m, closer),
                None => false,
            }
        }
    } else {
        rest.len() == 0
    }
}

/// Whether `f` is what the object field at token `k` reads.
pub open spec fn reads_field(f: (String, Expr), src: &str, ts: Seq<Token>, k: int) -> bool
    decreases ts.len() - k, 7nat,
{
    if kind_at(ts, k, TokenKind::Identifier) {
        proof {
            lemma_after_token(ts, k);
        }
        let c = after_token(ts, k);
        &&& f.0@ == token_text(src, ts, k)
        &&& kind_at(ts, c, TokenKind::Colon)
        &&& {
            proof {
                lemma_after_token(ts, c);
            }
            reads_expr(f.1, src, ts, after_token(ts, c), 0)
        }
    } else {
        false
    }
}

/// Whether `fields` are what the comma-separated object fields at token `k` read.
pub open spec fn reads_fields(fields: Seq<(String, Expr)>, src: &str, ts: Seq<Token>, k: int) -> bool
    decreases ts.len() - k, 8nat,
{
    &&& fields.len() >= 1
    &&& reads_field(fields[0], src, ts, k)
    &&& match field_end(src, ts, k) {
        Some(j) => k < j <= ts.len() && reads_fields_more(fields.drop_first(), src, ts, j),
        None => false,
    }
}

/// Whether `rest` are what the further `, field` items from token `j` read.
pub open spec fn reads_fields_more(rest: Seq<(String, Expr)>, src: &str, ts: Seq<Token>, j: int) -> bool
    decreases ts.len() - j, 8nat,
{
    if kind_at(ts, j, TokenKind::Comma) {
        proof {
            lemma_after_token(ts, j);
        }
        let k = after_token(ts, j);
        if kind_at(ts, k, TokenKind::RBrace) {
            rest.len() == 0
        } else {
            &&& rest.len() >= 1
            &&& reads_field(rest[0], src, ts, k)
            &&& match field_end(src, ts, k) {
                Some(m) => j < m <= ts.len() && reads_fields_more(rest.drop_first(), src, ts, m),
                None => false,
            }
        }
    } else {
        rest.len() == 0
    }
}

/// Whether `es` are the elements of the rest of a string template from token
/// `k`: an interpolated expression, then the text of a middle piece and more,
/// or the text of the end piece (a template cut short ends after its last
/// expression).
pub open spec fn reads_template(es: Seq<TemplateElement>, src: &str, ts: Seq<Token>, k: int) -> bool
    decreases ts.len() - k, 7nat,
{
    &&& es.len() >= 1
    &&& es[0] matches TemplateElement::Interpolation(b) && reads_expr(*b, src, ts, k, 0)
    &&& match expr_end(src, ts, k, 0) {
        Some(m) => if k <= m && kind_at(ts, m, TokenKind::StringTemplateMiddle) {
            let p = piece_text(src, ts[m], 1, 2);
            let c = 1 + piece_count(p);
            proof {
                lemma_after_token(ts, m);
            }
            &&& es.len() >= c
            &&& reads_piece(es.subrange(1, c), p)
            &&& reads_template(es.subrange(c, es.len() as int), src, ts, after_token(ts, m))
        } else if kind_at(ts, m, TokenKind::StringTemplateEnd) {
            let p = piece_text(src, ts[m], 1, 1);
            es.len() == 1 + piece_count(p) && reads_piece(es.subrange(1, es.len() as int), p)
        } else {
            es.len() == 1
        },
        None => false,
    }
}

/// `r` is what the expression at token `i` reads at level `m`, ending at `end`:
/// there is one exactly when the grammar has one there.
pub open spec fn expr_result(src: &str, ts: Seq<Token>, i: int, m: nat, r: Option<Expr>, end: int) -> bool {
    &&& r.is_some() == expr_end(src, ts, i, m).is_some()
    &&& r matches Some(e) ==> expr_end(src, ts, i, m) == Some(end) && reads_expr(e, src, ts, i, m)
}

/// `r` is what the comma-separated expressions before `closer` at token `i` read, ending at `end`.
pub open spec fn elems_result(src: &str, ts: Seq<Token>, i: int, closer: TokenKind, r: Option<Vec<Expr>>, end: int) -> bool {
    &&& r.is_some() == elems_end(src, ts, i, closer).is_some()
    &&& r matches Some(v) ==> elems_end(src, ts, i, closer) == Some(end) && reads_elems(v@, src, ts, i, closer)
}

/// Where the further fields end does not change past one more field.
proof fn lemma_fields_more_step_end(src: &str, ts: Seq<Token>, j: int, mc: int)
    requires
        kind_at(ts, j, TokenKind::Comma),
        !kind_at(ts, after_token(ts, j), TokenKind::RBrace),
        field_end(src, ts, after_token(ts, j)) == Some(mc),
        j < mc <= ts.len(),
    ensures
        fields_more_end(src, ts, j) == fields_more_end(src, ts, mc),
{
}

/// The fields of an object: a first field, then the further ones.
proof fn lemma_fields_intro(f: (String, Expr), rest: Seq<(String, Expr)>, src: &str, ts: Seq<Token>, i: int, j: int)
    requires
        field_end(src, ts, i) == Some(j),
        i < j <= ts.len(),
        reads_field(f, src, ts, i),
        reads_fields_more(rest, src, ts, j),
    ensures
        reads_fields(seq![f] + rest, src, ts, i),
{
    let fr = seq![f] + rest;
    assert(fr[0] == f);
    assert(fr.drop_first() =~= rest);
}

/// A prefix expression followed by a chain of operators reads as an expression.
proof fn lemma_expr_intro(e: Expr, first: Expr, src: &str, ts: Seq<Token>, i: int, j: int, m: nat)
    requires
        prefix_end(src, ts, i) == Some(j),
        i < j <= ts.len(),
        reads_prefix(first, src, ts, i),
        reads_chain(e, first, src, ts, j, m),
    ensures
        reads_expr(e, src, ts, i, m),
        expr_end(src, ts, i, m) == chain_end(src, ts, j, m),
{
    assert(is_operand(first));
}

/// A chain stops before an operator that does not bind tighter than `m`.
proof fn lemma_chain_stop(left: Expr, src: &str, ts: Seq<Token>, j: int, m: nat)
    requires
        !infix_above(ts, j, m),
    ensures
        chain_end(src, ts, j, m) == Some(j),
        reads_chain(left, left, src, ts, j, m),
{
}

/// One more operator in a chain.
proof fn lemma_chain_step(e: Expr, x: Expr, left: Expr, src: &str, ts: Seq<Token>, j: int, k: int, m: nat)
    requires
        infix_above(ts, j, m),
        infix_end(src, ts, j) == Some(k),
        j < k <= ts.len(),
        reads_infix(x, left, src, ts, j),
        reads_chain(e, x, src, ts, k, m),
    ensures
        reads_chain(e, left, src, ts, j, m),
{
    assert(is_operand(x));
}

/// Where a chain ends does not change past one more operator.
proof fn lemma_chain_end_step(src: &str, ts: Seq<Token>, j: int, k: int, m: nat)
    requires
        infix_above(ts, j, m),
        infix_end(src, ts, j) == Some(k),
        j < k <= ts.len(),
    ensures
        chain_end(src, ts, j, m) == chain_end(src, ts, k, m),
{
}

/// The list of further items ends at token `j` when no comma follows, or
/// right after a trailing comma.
proof fn lemma_elems_more_stop(src: &str, ts: Seq<Token>, j: int, closer: TokenKind)
    requires
        !kind_at(ts, j, TokenKind::Comma) || kind_at(ts, after_token(ts, j), closer),
    ensures
        reads_elems_more(Seq::<Expr>::empty(), src, ts, j, closer),
        elems_more_end(src, ts, j, closer) == Some(
            if kind_at(ts, j, TokenKind::Comma) { after_token(ts, j) } else { j },
        ),
{
}

/// One more `, expr` item.
proof fn lemma_elems_more_step(
    e: Expr,
    rest: Seq<Expr>,
    src: &str,
    ts: Seq<Token>,
    j: int,
    mc: int,
    closer: TokenKind,
)
    requires
        kind_at(ts, j, TokenKind::Comma),
        !kind_at(ts, after_token(ts, j), closer),
        expr_end(src, ts, after_token(ts, j), 0) == Some(mc),
        j < mc <= ts.len(),
        reads_expr(e, src, ts, after_token(ts, j), 0),
        reads_elems_more(rest, src, ts, mc, closer),
    ensures
        reads_elems_more(seq![e] + rest, src, ts, j, closer),
{
    let er = seq![e] + rest;
    assert(er[0] == e);
    assert(er.drop_first() =~= rest);
}

/// Where the further items end does not change past one more item.
proof fn lemma_elems_more_step_end(src: &str, ts: Seq<Token>, j: int, mc: int, closer: TokenKind)
    requires
        kind_at(ts, j, TokenKind::Comma),
        !kind_at(ts, after_token(ts, j), closer),
        expr_end(src, ts, after_token(ts, j), 0) == Some(mc),
        j < mc <= ts.len(),
    ensures
        elems_more_end(src, ts, j, closer) == elems_more_end(src, ts, mc, closer),
{
}

/// The list of further fields ends at token `j` when no comma follows, or
/// right after a trailing comma.
proof fn lemma_fields_more_stop(src: &str, ts: Seq<Token>, j: int)
    requires
        !kind_at(ts, j, TokenKind::Comma) || kind_at(ts, after_token(ts, j), TokenKind::RBrace),
    ensures
        reads_fields_more(Seq::<(String, Expr)>::empty(), src, ts, j),
        fields_more_end(src, ts, j) == Some(
            if kind_at(ts, j, TokenKind::Comma) { after_token(ts, j) } else { j },
        ),
{
}

/// One more `, field` item.
proof fn lemma_fields_more_step(
    f: (String, Expr),
    rest: Seq<(String, Expr)>,
    src: &str,
    ts: Seq<Token>,
    j: int,
    mc: int,
)
    requires
        kind_at(ts, j, TokenKind::Comma),
        !kind_at(ts, after_token(ts, j), TokenKind::RBrace),
        field_end(src, ts, after_token(ts, j)) == Some(mc),
        j < mc <= ts.len(),
        reads_field(f, src, ts, after_token(ts, j)),
        reads_fields_more(rest, src, ts, mc),
    ensures
        reads_fields_more(seq![f] + rest, src, ts, j),
{
    let fr = seq![f] + rest;
    assert(fr[0] == f);
    assert(fr.drop_first() =~= rest);
}

impl<'a> Parser<'a> {
    /// Parse an expression
    pub(super) fn parse_expr(&mut self) -> (r: Option<Expr>)
        requires
            old(self).wf(),
        ensures
            final(self).progress(old(self)),
            r.is_some() ==> final(self).moved(old(self)),
            r.is_none() ==> final(self).reported(old(self)),
            expr_result(old(self).source, old(self).tokens@, old(self).cursor as int, 0, r, final(self).cursor as int),
        decreases old(self).remaining(), 4nat,
    {
        self.parse_expr_precedence(Precedence::Lowest)
    }

    /// Parse an expression that stops before a `?` (the instruction ternary
    /// uses `? ... else`, not the expression ternary's `? ... :`)
    pub(super) fn parse_expr_before_question(&mut self) -> (r: Option<Expr>)
        requires
            old(self).wf(),
        ensures
            final(self).progress(old(self)),
            r.is_some() ==> final(self).moved(old(self)),
            r.is_none() ==> final(self).reported(old(self)),
            expr_result(old(self).source, old(self).tokens@, old(self).cursor as int, 1, r, final(self).cursor as int),
    {
        self.parse_expr_precedence(Precedence::Ternary)
    }

    /// Parse expression with minimum precedence (Pratt parsing)
    fn parse_expr_precedence(&mut self, min_prec: Precedence) -> (r: Option<Expr>)
        requires
            old(self).wf(),
        ensures
            final(self).progress(old(self)),
            r.is_some() ==> final(self).moved(old(self)),
            r.is_none() ==> final(self).reported(old(self)),
            expr_result(
                old(self).source,
                old(self).tokens@,
                old(self).cursor as int,
                min_prec.level(),
                r,
                final(self).cursor as int,
            ),
        decreases old(self).remaining(), 3nat,
    {
        let ghost i = self.cursor as int;
        let ghost ts = self.tokens@;
        let ghost src = self.source;
        let ghost m = min_prec.level();
        // Parse prefix/primary expression
        let mut left = self.parse_prefix()?;
        let ghost first = left;
        let ghost j0 = self.cursor as int;

        // Parse infix operators while precedence is high enough
        loop
            invariant
                self.progress(old(self)),
                self.moved(old(self)),
                self.tokens@ == ts,
                self.source == src,
                i == old(self).cursor,
                m == min_prec.level(),
                i < j0 <= self.cursor <= ts.len(),
                prefix_end(src, ts, i) == Some(j0),
                reads_prefix(first, src, ts, i),
                chain_end(src, ts, j0, m) == chain_end(src, ts, self.cursor as int, m),
                forall|e: Expr| #[trigger] reads_chain(e, left, src, ts, self.cursor as int, m) ==> reads_chain(e, first, src, ts, j0, m),
            ensures
                self.progress(old(self)),
                self.moved(old(self)),
                self.tokens@ == ts,
                self.source == src,
                chain_end(src, ts, j0, m) == Some(self.cursor as int),
                reads_chain(left, first, src, ts, j0, m),
            decreases self.remaining(),
        {
            let ghost j = self.cursor as int;
            let prec = match infix_precedence(self.current_kind()) {
                Some(p) => p,
                None => {
                    proof {
                        lemma_chain_stop(left, src, ts, j, m);
                    }
                    break;
                },
            };
            if prec.rank() <= min_prec.rank() {
                proof {
                    lemma_chain_stop(left, src, ts, j, m);
                }
                break;
            }
            let ghost before = left;
            left = self.parse_infix(left, prec)?;
            proof {
                let k = self.cursor as int;
                lemma_chain_end_step(src, ts, j, k, m);
                assert forall|e: Expr| #[trigger] reads_chain(e, left, src, ts, k, m) implies reads_chain(e, first, src, ts, j0, m) by {
                    lemma_chain_step(e, left, before, src, ts, j, k, m);
                }
            }
        }
        proof {
            lemma_expr_intro(left, first, src, ts, i, j0, m);
        }
        Some(left)
    }

    /// Parse prefix expression (unary or primary)
    fn parse_prefix(&mut self) -> (r: Option<Expr>)
        requires
            old(self).wf(),
        ensures
            final(self).progress(old(self)),
            r.is_some() ==> final(self).moved(old(self)),
            r.is_none() ==> final(self).reported(old(self)),
            r.is_some() == prefix_end(old(self).source, old(self).tokens@, old(self).cursor as int).is_some(),
            r matches Some(e) ==> {
                &&& prefix_end(old(self).source, old(self).tokens@, old(self).cursor as int) == Some(final(self).cursor as int)
                &&& reads_prefix(e, old(self).source, old(self).tokens@, old(self).cursor as int)
            },
        decreases old(self).remaining(), 2nat,
    {
        let op = match self.current_kind() {
            TokenKind::Bang => UnaryOp::Not,
            TokenKind::Minus => UnaryOp::Neg,
            TokenKind::Plus => UnaryOp::Pos,
            _ => return self.parse_primary(),
        };
        proof {
            lemma_after_token(self.tokens@, self.cursor as int);
        }
        self.advance();
        let expr = self.parse_expr_precedence(Precedence::Unary)?;
        Some(Expr::Unary { op, expr: Box::new(expr) })
    }

    /// Parse infix expression
    fn parse_infix(&mut self, left: Expr, prec: Precedence) -> (r: Option<Expr>)
        requires
            old(self).wf(),
            infix_level(old(self).cur().kind) == Some(prec),
        ensures
            final(self).progress(old(self)),
            r.is_some() ==> final(self).moved(old(self)),
            r.is_none() ==> final(self).reported(old(self)),
            r.is_some() == infix_end(old(self).source, old(self).tokens@, old(self).cursor as int).is_some(),
            r matches Some(x) ==> {
                &&& infix_end(old(self).source, old(self).tokens@, old(self).cursor as int) == Some(final(self).cursor as int)
                &&& reads_infix(x, left, old(self).source, old(self).tokens@, old(self).cursor as int)
            },
        decreases old(self).remaining(), 1nat,
    {
        let ghost j = self.cursor as int;
        let ghost ts = self.tokens@;
        proof {
            lemma_after_token(ts, j);
        }
        match self.current_kind() {
            // Ternary: a ? b : c
            TokenKind::Question => {
                self.advance();
                let then_expr = self.parse_expr()?;
                let ghost c = self.cursor as int;
                proof {
                    if kind_at(ts, c, TokenKind::Colon) {
                        lemma_after_token(ts, c);
                    }
                }
                self.expect(TokenKind::Colon)?;
                let else_expr = self.parse_expr_precedence(prec)?;
                Some(Expr::Ternary {
                    condition: Box::new(left),
                    then_expr: Box::new(then_expr),
                    else_expr: Box::new(else_expr),
                })
            },
            // Field access: a.b
            TokenKind::Dot => {
                self.advance();
                let field = self.expect_identifier()?;
                Some(Expr::FieldAccess { base: Box::new(left), field })
            },
            // Optional chain: a?.b
            TokenKind::QuestionDot => {
                self.advance();
                let field = self.expect_identifier()?;
                Some(Expr::OptionalChain { base: Box::new(left), field })
            },
            // Function call: a(b, c)
            TokenKind::LParen => {
                self.advance();
                let args = self.parse_call_args()?;
                let ghost c = self.cursor as int;
                self.expect(TokenKind::RParen)?;
                Some(Expr::Call { callee: Box::new(left), args })
            },
            // Binary operators
            kind => {
                if let Some(op) = binary_op(kind) {
                    self.advance();
                    // `**` is right-associative: its right side may hold another `**`;
                    // the others are left-associative
                    let right_prec = if matches!(kind, TokenKind::StarStar) {
                        Precedence::Multiplicative
                    } else {
                        prec
                    };
                    let right = self.parse_expr_precedence(right_prec)?;
                    Some(Expr::Binary { op, left: Box::new(left), right: Box::new(right) })
                } else {
                    self.error_unexpected();
                    None
                }
            },
        }
    }

    /// Parse primary expression
    fn parse_primary(&mut self) -> (r: Option<Expr>)
        requires
            old(self).wf(),
        ensures
            final(self).progress(old(self)),
            r.is_some() ==> final(self).moved(old(self)),
            r.is_none() ==> final(self).reported(old(self)),
            r.is_some() == primary_end(old(self).source, old(self).tokens@, old(self).cursor as int).is_some(),
            r matches Some(e) ==> {
                &&& primary_end(old(self).source, old(self).tokens@, old(self).cursor as int) == Some(final(self).cursor as int)
                &&& reads_primary(e, old(self).source, old(self).tokens@, old(self).cursor as int)
            },
        decreases old(self).remaining(), 1nat,
    {
        let ghost i = self.cursor as int;
        let ghost ts = self.tokens@;
        proof {
            if !(self.cur().kind is Eof) {
                lemma_after_token(ts, i);
            }
        }
        match self.current_kind() {
            // Literals
            TokenKind::Null => {
                self.advance();
                Some(Expr::Null)
            },
            TokenKind::True => {
                self.advance();
                Some(Expr::Bool(true))
            },
            TokenKind::False => {
                self.advance();
                Some(Expr::Bool(false))
            },
            TokenKind::IntLiteral => {
                let value = Self::parse_int_literal(self.current_text());
                self.advance();
                Some(Expr::Int(value))
            },
            TokenKind::FloatLiteral => {
                let value = Self::parse_float_literal(self.current_text());
                self.advance();
                Some(Expr::Float(value))
            },
            TokenKind::StringLiteral => {
                let value = self.parse_string_content();
                self.advance();
                Some(Expr::String(value))
            },
            TokenKind::StringTemplateStart => self.parse_string_template(),
            // List literal: [a, b, c]
            TokenKind::LBracket => {
                self.advance();
                let elements = self.parse_list_elements()?;
                let ghost c = self.cursor as int;
                self.expect(TokenKind::RBracket)?;
                Some(Expr::List(elements))
            },
            // Object literal: { a: 1 }
            TokenKind::LBrace => {
                self.advance();
                if self.check(TokenKind::RBrace) {
                    self.advance();
                    let r = Expr::Object(Vec::new());
                    proof {
                        assert(r matches Expr::Object(fields) && fields@.len() == 0);
                    }
                    Some(r)
                } else if self.is_object_field_start() {
                    let fields = self.parse_object_fields()?;
                    self.expect(TokenKind::RBrace)?;
                    Some(Expr::Object(fields))
                } else {
                    self.error_expected("object field");
                    None
                }
            },
            // Parenthesized expression
            TokenKind::LParen => {
                self.advance();
                let expr = self.parse_expr()?;
                self.expect(TokenKind::RParen)?;
                Some(expr)
            },
            // Identifier (qualified names and field accesses follow as postfix operators)
            TokenKind::Identifier => {
                let first = to_string(self.current_text());
                self.advance();
                Some(Expr::Identifier(first))
            },
            _ => {
                self.error_expected("expression");
                None
            },
        }
    }

    /// Parse the comma-separated expressions before `closer` (a trailing comma is allowed)
    fn parse_separated(&mut self, closer: TokenKind) -> (r: Option<Vec<Expr>>)
        requires
            old(self).wf(),
        ensures
            final(self).progress(old(self)),
            r.is_none() ==> final(self).reported(old(self)),
            elems_result(old(self).source, old(self).tokens@, old(self).cursor as int, closer, r, final(self).cursor as int),
        decreases old(self).remaining(), 5nat,
    {
        if self.check(closer) {
            return Some(Vec::new());
        }
        let first = self.parse_expr()?;
        let mut elements = self.parse_elems_more(closer)?;
        let ghost rest = elements@;
        elements.insert(0, first);
        proof {
            assert(elements@[0] == first);
            assert(elements@.drop_first() =~= rest);
        }
        Some(elements)
    }

    /// Parse the further `, expr` items of a list before `closer`
    fn parse_elems_more(&mut self, closer: TokenKind) -> (r: Option<Vec<Expr>>)
        requires
            old(self).wf(),
        ensures
            final(self).progress(old(self)),
            r.is_none() ==> final(self).reported(old(self)),
            r.is_some() == elems_more_end(old(self).source, old(self).tokens@, old(self).cursor as int, closer).is_some(),
            r matches Some(v) ==> {
                &&& elems_more_end(old(self).source, old(self).tokens@, old(self).cursor as int, closer) == Some(
                    final(self).cursor as int,
                )
                &&& reads_elems_more(v@, old(self).source, old(self).tokens@, old(self).cursor as int, closer)
            },
        decreases old(self).remaining(), 5nat,
    {
        let ghost j = self.cursor as int;
        let ghost ts = self.tokens@;
        let ghost src = self.source;
        proof {
            if kind_at(ts, j, TokenKind::Comma) {
                lemma_after_token(ts, j);
            }
        }
        if self.consume(TokenKind::Comma).is_none() {
            proof {
                lemma_elems_more_stop(src, ts, j, closer);
            }
            return Some(Vec::new());
        }
        if self.check(closer) {
            // Trailing comma
            proof {
                lemma_elems_more_stop(src, ts, j, closer);
            }
            return Some(Vec::new());
        }
        let e = self.parse_expr()?;
        let ghost mc = self.cursor as int;
        proof {
            lemma_elems_more_step_end(src, ts, j, mc, closer);
        }
        let mut elements = self.parse_elems_more(closer)?;
        let ghost rest = elements@;
        elements.insert(0, e);
        proof {
            lemma_elems_more_step(e, rest, src, ts, j, mc, closer);
            assert(elements@ =~= seq![e] + rest);
        }
        Some(elements)
    }

    /// Parse call arguments
    fn parse_call_args(&mut self) -> (r: Option<Vec<Expr>>)
        requires
            old(self).wf(),
        ensures
            final(self).progress(old(self)),
            r.is_none() ==> final(self).reported(old(self)),
            elems_result(old(self).source, old(self).tokens@, old(self).cursor as int, TokenKind::RParen, r, final(self).cursor as int),
        decreases old(self).remaining(), 6nat,
    {
        self.parse_separated(TokenKind::RParen)
    }

    /// Parse list elements
    fn parse_list_elements(&mut self) -> (r: Option<Vec<Expr>>)
        requires
            old(self).wf(),
        ensures
            final(self).progress(old(self)),
            r.is_none() ==> final(self).reported(old(self)),
            elems_result(old(self).source, old(self).tokens@, old(self).cursor as int, TokenKind::RBracket, r, final(self).cursor as int),
        decreases old(self).remaining(), 6nat,
    {
        self.parse_separated(TokenKind::RBracket)
    }

    /// Check if we're at the start of an object field: an identifier and a colon
    fn is_object_field_start(&self) -> (r: bool)
        requires
            self.wf(),
        ensures
            r == object_field_start(self.tokens@, self.cursor as int),
    {
        if !self.check(TokenKind::Identifier) {
            return false;
        }
        match self.peek() {
            Some(next) => matches!(next.kind, TokenKind::Colon),
            None => false,
        }
    }

    /// Parse object fields
    fn parse_object_fields(&mut self) -> (r: Option<Vec<(String, Expr)>>)
        requires
            old(self).wf(),
        ensures
            final(self).progress(old(self)),
            r.is_none() ==> final(self).reported(old(self)),
            r.is_some() == fields_end(old(self).source, old(self).tokens@, old(self).cursor as int).is_some(),
            r matches Some(v) ==> {
                &&& fields_end(old(self).source, old(self).tokens@, old(self).cursor as int) == Some(final(self).cursor as int)
                &&& reads_fields(v@, old(self).source, old(self).tokens@, old(self).cursor as int)
            },
        decreases old(self).remaining(), 6nat,
    {
        let ghost i = self.cursor as int;
        let ghost ts = self.tokens@;
        let ghost src = self.source;
        let first = self.parse_object_field()?;
        let ghost fv = first;
        let ghost j = self.cursor as int;
        let mut fields = self.parse_fields_more()?;
        let ghost rest = fields@;
        fields.insert(0, first);
        proof {
            lemma_fields_intro(fv, rest, src, ts, i, j);
            assert(fields@ =~= seq![fv] + rest);
        }
        Some(fields)
    }

    /// Parse the further `, field` items of an object
    fn parse_fields_more(&mut self) -> (r: Option<Vec<(String, Expr)>>)
        requires
            old(self).wf(),
        ensures
            final(self).progress(old(self)),
            r.is_none() ==> final(self).reported(old(self)),
            r.is_some() == fields_more_end(old(self).source, old(self).tokens@, old(self).cursor as int).is_some(),
            r matches Some(v) ==> {
                &&& fields_more_end(old(self).source, old(self).tokens@, old(self).cursor as int) == Some(
                    final(self).cursor as int,
                )
                &&& reads_fields_more(v@, old(self).source, old(self).tokens@, old(self).cursor as int)
            },
        decreases old(self).remaining(), 6nat,
    {
        let ghost j = self.cursor as int;
        let ghost ts = self.tokens@;
        let ghost src = self.source;
        proof {
            if kind_at(ts, j, TokenKind::Comma) {
                lemma_after_token(ts, j);
            }
        }
        if self.consume(TokenKind::Comma).is_none() {
            proof {
                lemma_fields_more_stop(src, ts, j);
            }
            return Some(Vec::new());
        }
        if self.check(TokenKind::RBrace) {
            // Trailing comma
            proof {
                lemma_fields_more_stop(src, ts, j);
            }
            return Some(Vec::new());
        }
        let f = self.parse_object_field()?;
        let ghost fv = f;
        let ghost mc = self.cursor as int;
        proof {
            lemma_fields_more_step_end(src, ts, j, mc);
        }
        let mut fields = self.parse_fields_more()?;
        let ghost rest = fields@;
        fields.insert(0, f);
        proof {
            lemma_fields_more_step(fv, rest, src, ts, j, mc);
            assert(fields@ =~= seq![fv] + rest);
        }
        Some(fields)
    }

    /// Parse a single object field
    fn parse_object_field(&mut self) -> (r: Option<(String, Expr)>)
        requires
            old(self).wf(),
        ensures
            final(self).progress(old(self)),
            r.is_none() ==> final(self).reported(old(self)),
            r.is_some() ==> final(self).moved(old(self)),
            r.is_some() == field_end(old(self).source, old(self).tokens@, old(self).cursor as int).is_some(),
            r matches Some(f) ==> {
                &&& field_end(old(self).source, old(self).tokens@, old(self).cursor as int) == Some(final(self).cursor as int)
                &&& reads_field(f, old(self).source, old(self).tokens@, old(self).cursor as int)
            },
        decreases old(self).remaining(), 5nat,
    {
        let ghost k = self.cursor as int;
        let ghost ts = self.tokens@;
        proof {
            if self.cur().kind is Identifier {
                lemma_after_token(ts, k);
            }
        }
        let name = self.expect_identifier()?;
        let ghost c = self.cursor as int;
        proof {
            if kind_at(ts, c, TokenKind::Colon) {
                lemma_after_token(ts, c);
            }
        }
        self.expect(TokenKind::Colon)?;
        let value = self.parse_expr()?;
        Some((name, value))
    }

    /// Parse string template: "text ${expr} more"
    fn parse_string_template(&mut self) -> (r: Option<Expr>)
        requires
            old(self).wf(),
            old(self).cur().kind is StringTemplateStart,
        ensures
            final(self).progress(old(self)),
            final(self).moved(old(self)),
            r.is_none() ==> final(self).reported(old(self)),
            r.is_some() == template_end(
                old(self).source,
                old(self).tokens@,
                after_token(old(self).tokens@, old(self).cursor as int),
            ).is_some(),
            r matches Some(e) ==> {
                let p = piece_text(old(self).source, old(self).cur(), 1, 2);
                let c = piece_count(p);
                &&& template_end(
                    old(self).source,
                    old(self).tokens@,
                    after_token(old(self).tokens@, old(self).cursor as int),
                ) == Some(final(self).cursor as int)
                &&& e matches Expr::StringTemplate(es)
                &&& es@.len() >= c
                &&& reads_piece(es@.subrange(0, c), p)
                &&& reads_template(
                    es@.subrange(c, es@.len() as int),
                    old(self).source,
                    old(self).tokens@,
                    after_token(old(self).tokens@, old(self).cursor as int),
                )
            },
        decreases old(self).remaining(), 0nat,
    {
        let mut elements: Vec<TemplateElement> = Vec::new();
        // The text before the first ${
        let text = self.extract_template_text(1, 2);
        push_piece(&mut elements, text);
        let ghost c = elements@.len();
        self.advance();
        // After each ${ comes an expression, then the lexer's next piece of text
        let mut rest = self.parse_template_rest()?;
        let ghost rv = rest@;
        elements.append(&mut rest);
        proof {
            assert(elements@.subrange(0, c as int) =~= elements@.subrange(0, c as int));
            assert(elements@.subrange(c as int, elements@.len() as int) =~= rv);
        }
        Some(Expr::StringTemplate(elements))
    }

    /// Parse the rest of a string template: an interpolated expression, then
    /// the next piece of text and more
    fn parse_template_rest(&mut self) -> (r: Option<Vec<TemplateElement>>)
        requires
            old(self).wf(),
        ensures
            final(self).progress(old(self)),
            r.is_none() ==> final(self).reported(old(self)),
            r.is_some() == template_end(old(self).source, old(self).tokens@, old(self).cursor as int).is_some(),
            r matches Some(es) ==> {
                &&& template_end(old(self).source, old(self).tokens@, old(self).cursor as int) == Some(
                    final(self).cursor as int,
                )
                &&& reads_template(es@, old(self).source, old(self).tokens@, old(self).cursor as int)
            },
        decreases old(self).remaining(), 5nat,
    {
        let ghost k = self.cursor as int;
        let ghost ts = self.tokens@;
        let ghost src = self.source;
        let expr = self.parse_expr()?;
        let ghost m = self.cursor as int;
        let ghost ev = expr;
        let mut elements: Vec<TemplateElement> = Vec::new();
        elements.push(TemplateElement::Interpolation(Box::new(expr)));
        proof {
            if !(self.cur().kind is Eof) {
                lemma_after_token(ts, m);
            }
        }
        match self.current_kind() {
            TokenKind::StringTemplateMiddle => {
                let t = self.extract_template_text(1, 2);
                push_piece(&mut elements, t);
                let ghost c = elements@.len();
                self.advance();
                let mut rest = self.parse_template_rest()?;
                let ghost rv = rest@;
                elements.append(&mut rest);
                proof {
                    assert(elements@.subrange(c as int, elements@.len() as int) =~= rv);
                    assert(elements@.subrange(1, c as int) =~= elements@.subrange(1, c as int));
                }
            },
            TokenKind::StringTemplateEnd => {
                let t = self.extract_template_text(1, 1);
                push_piece(&mut elements, t);
                self.advance();
            },
            _ => {
                self.error_expected("string template continuation");
            },
        }
        proof {
            assert(elements@[0] == TemplateElement::Interpolation(Box::new(ev)));
        }
        Some(elements)
    }

    /// The unescaped text of the current template piece, without its first
    /// `front` and last `back` bytes (its quote, brace or `${`)
    fn extract_template_text(&self, front: usize, back: usize) -> (r: Option<String>)
        requires
            self.wf(),
            self.cur().kind is StringTemplateStart || self.cur().kind is StringTemplateMiddle
                || self.cur().kind is StringTemplateEnd,
            (front == 1 && back == 2) || (front == 1 && back == 1),
        ensures
            opt_text(r) == piece_text(self.source, self.cur(), front as int, back as int),
    {
        let token = self.current();
        proof {
            assert(crate::lexer::spec::token_of(self.source.spec_bytes(), self.tokens@[self.cursor as int]));
        }
        let text = token.text(self.source);
        let n = text.as_bytes().len();
        if n < front + back {
            return None;
        }
        let bytes = text.as_bytes();
        let mut i: usize = 0;
        while i < front
            invariant
                n == bytes@.len(),
                bytes@ == text.spec_bytes(),
                text.spec_bytes() == self.source.spec_bytes().subrange(token.span.start as int, token.span.end as int),
                token.span.start <= token.span.end <= self.source.spec_bytes().len(),
                token.span == self.cur().span,
                front + back <= n,
                i <= front,
                forall|j: int| 0 <= j < i ==> #[trigger] bytes@[j] < 0x80,
            decreases front - i,
        {
            if bytes[i] >= 0x80 {
                proof {
                    let b = self.source.spec_bytes().subrange(token.span.start as int, token.span.end as int);
                    assert(b[i as int] >= 0x80);
                    assert(exists|j: int| 0 <= j < front && #[trigger] b[j] >= 0x80);
                }
                return None;
            }
            i = i + 1;
        }
        let mut k: usize = n - back;
        while k < n
            invariant
                n == bytes@.len(),
                bytes@ == text.spec_bytes(),
                text.spec_bytes() == self.source.spec_bytes().subrange(token.span.start as int, token.span.end as int),
                token.span.start <= token.span.end <= self.source.spec_bytes().len(),
                token.span == self.cur().span,
                front + back <= n,
                n - back <= k <= n,
                forall|j: int| 0 <= j < front ==> #[trigger] bytes@[j] < 0x80,
                forall|j: int| n - back <= j < k ==> #[trigger] bytes@[j] < 0x80,
            decreases n - k,
        {
            if bytes[k] >= 0x80 {
                proof {
                    let b = self.source.spec_bytes().subrange(token.span.start as int, token.span.end as int);
                    assert(b[k as int] >= 0x80);
                    assert(exists|j: int| b.len() - back <= j < b.len() && #[trigger] b[j] >= 0x80);
                }
                return None;
            }
            k = k + 1;
        }
        let inner = trim_ascii_ends(text, front, back);
        proof {
            vstd::utf8::encode_utf8_decode_utf8(inner@);
        }
        Some(Self::unescape_string(inner))
    }

    /// Parse integer literal (handles hex, binary, octal)
    fn parse_int_literal(s: &str) -> (r: i64)
        ensures
            r == int_literal_value(s@),
    {
        let chars = chars_of(s);
        let mut digits: Vec<char> = Vec::new();
        let mut i: usize = 0;
        while i < chars.len()
            invariant
                i <= chars@.len(),
                chars@ == s@,
                digits@ == without_underscores(chars@.take(i as int)),
            decreases chars@.len() - i,
        {
            proof {
                reveal_with_fuel(Seq::<_>::filter, 1);
                assert(chars@.take(i + 1).drop_last() =~= chars@.take(i as int));
            }
            if chars[i] != '_' {
                digits.push(chars[i]);
            }
            i = i + 1;
        }
        proof {
            assert(chars@.take(chars@.len() as int) =~= chars@);
        }
        let n = digits.len();
        let prefixed = n >= 2 && digits[0] == '0';
        let radix: u32 = if prefixed && (digits[1] == 'x' || digits[1] == 'X') {
            16
        } else if prefixed && (digits[1] == 'b' || digits[1] == 'B') {
            2
        } else if prefixed && (digits[1] == 'o' || digits[1] == 'O') {
            8
        } else {
            10
        };
        let parsed = if radix == 10 {
            parse_integer(digits.as_slice(), 10, i64::MIN, i64::MAX)
        } else {
            let rest = slice_from(digits.as_slice(), 2);
            parse_integer(rest.as_slice(), radix, i64::MIN, i64::MAX)
        };
        match parsed {
            Some(v) => v,
            None => 0,
        }
    }

    /// Parse float literal: the literal's text without its underscores (its
    /// numeric value is left to the code generator)
    fn parse_float_literal(s: &str) -> (r: String)
        ensures
            r@ == without_underscores(s@),
    {
        let chars = chars_of(s);
        let mut out = String::new();
        let mut i: usize = 0;
        while i < chars.len()
            invariant
                i <= chars@.len(),
                chars@ == s@,
                out@ == without_underscores(chars@.take(i as int)),
            decreases chars@.len() - i,
        {
            proof {
                reveal_with_fuel(Seq::<_>::filter, 1);
                assert(chars@.take(i + 1).drop_last() =~= chars@.take(i as int));
            }
            if chars[i] != '_' {
                push_char(&mut out, chars[i]);
            }
            i = i + 1;
        }
        proof {
            assert(chars@.take(chars@.len() as int) =~= chars@);
        }
        out
    }

    /// Parse string content (remove quotes, handle escapes)
    fn parse_string_content(&self) -> (r: String)
        requires
            self.wf(),
            self.cur().kind is StringLiteral,
        ensures
            r@ == unescaped(string_inner(self.source, self.cur().span)),
    {
        let token = self.current();
        proof {
            assert(crate::lexer::spec::token_of(self.source.spec_bytes(), self.tokens@[self.cursor as int]));
        }
        let text = token.text(self.source);
        let inner = trim_ascii_ends(text, 1, 1);
        proof {
            vstd::utf8::encode_utf8_decode_utf8(inner@);
            assert(inner.spec_bytes() =~= self.source.spec_bytes().subrange(
                token.span.start + 1,
                token.span.end - 1,
            ));
        }
        Self::unescape_string(inner)
    }

    /// Unescape string escape sequences
    fn unescape_string(s: &str) -> (r: String)
        ensures
            r@ == unescaped(s@),
    {
        let chars = chars_of(s);
        let n = chars.len();
        let mut result = String::new();
        let mut i: usize = 0;
        proof {
            assert(chars@.subrange(0, n as int) =~= chars@);
            assert(result@ + unescaped(chars@) =~= unescaped(chars@));
        }
        while i < n
            invariant
                i <= n,
                n == chars@.len(),
                chars@ == s@,
                result@ + unescaped(chars@.subrange(i as int, n as int)) == unescaped(chars@),
            decreases n - i,
        {
            let ghost rest = chars@.subrange(i as int, n as int);
            let ghost before = result@;
            let c = chars[i];
            if c == '\\' {
                if i + 1 < n {
                    let e = chars[i + 1];
                    if e == 'n' {
                        push_char(&mut result, '\n');
                    } else if e == 'r' {
                        push_char(&mut result, '\r');
                    } else if e == 't' {
                        push_char(&mut result, '\t');
                    } else if e == '\\' {
                        push_char(&mut result, '\\');
                    } else if e == '"' {
                        push_char(&mut result, '"');
                    } else if e == '\'' {
                        push_char(&mut result, '\'');
                    } else if e == '$' {
                        push_char(&mut result, '$');
                    } else {
                        push_char(&mut result, '\\');
                        push_char(&mut result, e);
                    }
                    proof {
                        assert(rest.subrange(2, rest.len() as int) =~= chars@.subrange(i + 2, n as int));
                        assert(result@ =~= before + escaped(e));
                    }
                    i = i + 2;
                } else {
                    push_char(&mut result, '\\');
                    proof {
                        assert(chars@.subrange(i + 1, n as int) =~= Seq::<char>::empty());
                    }
                    i = i + 1;
                }
            } else {
                push_char(&mut result, c);
                proof {
                    assert(rest.drop_first() =~= chars@.subrange(i + 1, n as int));
                }
                i = i + 1;
            }
            proof {
                assert(before + unescaped(rest) == unescaped(chars@));
                assert(result@ + unescaped(chars@.subrange(i as int, n as int)) =~= before + unescaped(rest));
            }
        }
        proof {
            assert(chars@.subrange(n as int, n as int) =~= Seq::<char>::empty());
            assert(result@ + Seq::<char>::empty() =~= result@);
        }
        result
    }
}

/// Add a piece of template text, unless it is empty or missing.
fn push_piece(elements: &mut Vec<TemplateElement>, piece: Option<String>)
    ensures
        final(elements)@.len() == old(elements)@.len() + piece_count(opt_text(piece)),
        final(elements)@.subrange(0, old(elements)@.len() as int) == old(elements)@,
        reads_piece(
            final(elements)@.subrange(old(elements)@.len() as int, final(elements)@.len() as int),
            opt_text(piece),
        ),
{
    let ghost before = elements@;
    if let Some(t) = piece {
        if !t.as_str().is_empty() {
            let ghost tv = t@;
            elements.push(TemplateElement::Text(t));
            proof {
                assert(elements@.subrange(0, before.len() as int) =~= before);
                assert(elements@.subrange(before.len() as int, elements@.len() as int) =~= seq![
                    TemplateElement::Text(t),
                ]);
            }
            return;
        }
    }
    proof {
        assert(elements@.subrange(0, before.len() as int) =~= before);
        assert(elements@.subrange(before.len() as int, elements@.len() as int) =~= Seq::<TemplateElement>::empty());
    }
}

/// The elements of `s` from index `from` on.
fn slice_from(s: &[char], from: usize) -> (r: Vec<char>)
    requires
        from <= s@.len(),
    ensures
        r@ == s@.subrange(from as int, s@.len() as int),
{
    let mut out: Vec<char> = Vec::new();
    let mut i: usize = from;
    while i < s.len()
        invariant
            from <= i <= s@.len(),
            out@ == s@.subrange(from as int, i as int),
        decreases s@.len() - i,
    {
        out.push(s[i]);
        proof {
            assert(s@.subrange(from as int, i + 1) =~= s@.subrange(from as int, i as int).push(s@[i as int]));
        }
        i = i + 1;
    }
    out
}

} // verus!
