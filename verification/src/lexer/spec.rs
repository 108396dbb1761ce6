//! What a token is, stated over the bytes of the source text: the shape of each
//! kind of token, and what a whole token stream produced from a text looks like.

use vstd::prelude::*;
use vstd::utf8::*;
use super::token::{keyword_of, Token, TokenKind};
use crate::diagnostic::{Diagnostic, Severity};

verus! {

pub open spec fn is_ascii_digit(b: u8) -> bool {
    '0' as u8 <= b <= '9' as u8
}

pub open spec fn is_hex_digit(b: u8) -> bool {
    is_ascii_digit(b) || ('a' as u8 <= b <= 'f' as u8) || ('A' as u8 <= b <= 'F' as u8)
}

pub open spec fn is_ascii_letter(b: u8) -> bool {
    ('a' as u8 <= b <= 'z' as u8) || ('A' as u8 <= b <= 'Z' as u8)
}

/// A byte that may start an identifier.
pub open spec fn is_ident_start(b: u8) -> bool {
    is_ascii_letter(b) || b == '_' as u8
}

/// A byte that may continue an identifier.
pub open spec fn is_ident_char(b: u8) -> bool {
    is_ident_start(b) || is_ascii_digit(b)
}

/// An identifier: a letter or `_`, then letters, digits and `_`.
pub open spec fn is_identifier(text: Seq<u8>) -> bool {
    &&& text.len() >= 1
    &&& is_ident_start(text[0])
    &&& forall|i: int| 1 <= i < text.len() ==> #[trigger] is_ident_char(text[i])
}

/// The kind of a word: its keyword if it spells one, else `Identifier`.
pub open spec fn word_kind(text: Seq<u8>) -> TokenKind {
    match keyword_of(decode_utf8(text)) {
        Some(k) => k,
        None => TokenKind::Identifier,
    }
}

/// The exact text of the punctuation, operator and newline tokens.
pub open spec fn fixed_text(kind: TokenKind) -> Option<Seq<u8>> {
    match kind {
        TokenKind::LParen => Some(seq!['(' as u8]),
        TokenKind::RParen => Some(seq![')' as u8]),
        TokenKind::LBrace => Some(seq!['{' as u8]),
        TokenKind::RBrace => Some(seq!['}' as u8]),
        TokenKind::LBracket => Some(seq!['[' as u8]),
        TokenKind::RBracket => Some(seq![']' as u8]),
        TokenKind::Comma => Some(seq![',' as u8]),
        TokenKind::Colon => Some(seq![':' as u8]),
        TokenKind::Plus => Some(seq!['+' as u8]),
        TokenKind::Percent => Some(seq!['%' as u8]),
        TokenKind::Minus => Some(seq!['-' as u8]),
        TokenKind::Arrow => Some(seq!['-' as u8, '>' as u8]),
        TokenKind::Star => Some(seq!['*' as u8]),
        TokenKind::StarStar => Some(seq!['*' as u8, '*' as u8]),
        TokenKind::Slash => Some(seq!['/' as u8]),
        TokenKind::Eq => Some(seq!['=' as u8]),
        TokenKind::EqEq => Some(seq!['=' as u8, '=' as u8]),
        TokenKind::FatArrow => Some(seq!['=' as u8, '>' as u8]),
        TokenKind::Bang => Some(seq!['!' as u8]),
        TokenKind::BangEq => Some(seq!['!' as u8, '=' as u8]),
        TokenKind::Lt => Some(seq!['<' as u8]),
        TokenKind::LtEq => Some(seq!['<' as u8, '=' as u8]),
        TokenKind::Gt => Some(seq!['>' as u8]),
        TokenKind::GtEq => Some(seq!['>' as u8, '=' as u8]),
        TokenKind::AmpAmp => Some(seq!['&' as u8, '&' as u8]),
        TokenKind::PipePipe => Some(seq!['|' as u8, '|' as u8]),
        TokenKind::Question => Some(seq!['?' as u8]),
        TokenKind::QuestionColon => Some(seq!['?' as u8, ':' as u8]),
        TokenKind::QuestionDot => Some(seq!['?' as u8, '.' as u8]),
        TokenKind::Dot => Some(seq!['.' as u8]),
        TokenKind::DotDot => Some(seq!['.' as u8, '.' as u8]),
        TokenKind::Newline => Some(seq!['\n' as u8]),
        _ => None,
    }
}

/// `text` ends with `${`.
pub open spec fn ends_with_interpolation(text: Seq<u8>) -> bool {
    text.len() >= 2 && text[text.len() - 2] == '$' as u8 && text[text.len() - 1] == '{' as u8
}

/// The shape of a token's text, by kind.
pub open spec fn text_shape(kind: TokenKind, text: Seq<u8>) -> bool {
    &&& (fixed_text(kind) matches Some(f) ==> text == f)
    &&& ((kind is Identifier || kind.spec_is_keyword()) ==> is_identifier(text) && word_kind(text) == kind)
    &&& ((kind is IntLiteral || kind is FloatLiteral) ==> text.len() >= 1 && is_ascii_digit(text[0]))
    &&& (kind is ColorLiteral ==> {
        &&& text.len() == 7 || text.len() == 9
        &&& text[0] == '#' as u8
        &&& forall|i: int| 1 <= i < text.len() ==> #[trigger] is_hex_digit(text[i])
    })
    &&& (kind is StringLiteral ==> text.len() >= 2 && text[0] == '"' as u8 && text.last() == '"' as u8)
    &&& (kind is StringTemplateStart ==> text.len() >= 3 && text[0] == '"' as u8 && ends_with_interpolation(text))
    &&& (kind is StringTemplateMiddle ==> text.len() >= 3 && text[0] == '}' as u8 && ends_with_interpolation(text))
    &&& (kind is StringTemplateEnd ==> text.len() >= 2 && text[0] == '}' as u8 && text.last() == '"' as u8)
    &&& (kind is LayoutBlock ==> {
        &&& text.len() >= 6
        &&& text[0] == '"' as u8 && text[1] == '"' as u8 && text[2] == '"' as u8
        &&& text[text.len() - 3] == '"' as u8 && text[text.len() - 2] == '"' as u8 && text[text.len() - 1] == '"' as u8
    })
}

/// A token of a text: a span on character boundaries within it, empty only at
/// the end of the text for `Eof`, whose text has the shape of its kind.
pub open spec fn token_of(bytes: Seq<u8>, t: Token) -> bool {
    let s = t.span.start as int;
    let e = t.span.end as int;
    &&& s <= e <= bytes.len()
    &&& is_char_boundary(bytes, s)
    &&& is_char_boundary(bytes, e)
    &&& (t.kind is Eof <==> s == bytes.len())
    &&& (t.kind is Eof ==> e == s)
    &&& (!(t.kind is Eof) ==> s < e)
    &&& text_shape(t.kind, bytes.subrange(s, e))
    &&& ((t.kind is Identifier || t.kind.spec_is_keyword()) ==> (e == bytes.len() || !is_ident_char(bytes[e])))
}

/// A byte that separates tokens without being one: a space, a tab or a
/// carriage return (a line feed is a token).
pub open spec fn is_blank(b: u8) -> bool {
    b == ' ' as u8 || b == '\t' as u8 || b == '\r' as u8
}

/// Where a line comment whose text starts at `p` ends: at the next line feed
/// (which stays), or at the end of the text.
pub open spec fn line_comment_end(bytes: Seq<u8>, p: int) -> int
    decreases bytes.len() - p,
{
    if 0 <= p < bytes.len() && bytes[p] != '\n' as u8 {
        line_comment_end(bytes, p + 1)
    } else {
        p
    }
}

/// Where a block comment ends whose text goes on at `p` with `depth` comments
/// still open: block comments nest, and one left open runs to the end of the
/// text.
pub open spec fn block_comment_end(bytes: Seq<u8>, p: int, depth: nat) -> int
    decreases bytes.len() - p,
{
    if depth == 0 || !(0 <= p < bytes.len()) {
        p
    } else if bytes[p] == '*' as u8 && p + 1 < bytes.len() && bytes[p + 1] == '/' as u8 {
        block_comment_end(bytes, p + 2, (depth - 1) as nat)
    } else if bytes[p] == '/' as u8 && p + 1 < bytes.len() && bytes[p + 1] == '*' as u8 {
        block_comment_end(bytes, p + 2, depth + 1)
    } else {
        block_comment_end(bytes, p + 1, depth)
    }
}

/// Comments never end before they start, nor past the end of the text.
pub proof fn lemma_comment_ends(bytes: Seq<u8>, p: int, depth: nat)
    requires
        0 <= p <= bytes.len() + 1,
    ensures
        p <= line_comment_end(bytes, p),
        p <= bytes.len() ==> line_comment_end(bytes, p) <= bytes.len(),
        p <= block_comment_end(bytes, p, depth),
        p <= bytes.len() ==> block_comment_end(bytes, p, depth) <= bytes.len(),
    decreases bytes.len() - p,
{
    if 0 <= p < bytes.len() {
        if bytes[p] != '\n' as u8 {
            lemma_comment_ends(bytes, p + 1, depth);
        }
        if depth > 0 {
            if bytes[p] == '*' as u8 && p + 1 < bytes.len() && bytes[p + 1] == '/' as u8 {
                lemma_comment_ends(bytes, p + 2, (depth - 1) as nat);
            } else if bytes[p] == '/' as u8 && p + 1 < bytes.len() && bytes[p + 1] == '*' as u8 {
                lemma_comment_ends(bytes, p + 2, depth + 1);
            } else {
                lemma_comment_ends(bytes, p + 1, depth);
            }
        }
    }
}

/// Where the spaces, tabs, carriage returns and comments that start at `i`
/// end: where the next token starts.
pub open spec fn skip_end(bytes: Seq<u8>, i: int) -> int
    decreases bytes.len() - i,
{
    if 0 <= i < bytes.len() && is_blank(bytes[i]) {
        skip_end(bytes, i + 1)
    } else if 0 <= i && i + 1 < bytes.len() && bytes[i] == '/' as u8 && bytes[i + 1] == '/' as u8 {
        proof {
            lemma_comment_ends(bytes, i + 2, 1);
        }
        skip_end(bytes, line_comment_end(bytes, i + 2))
    } else if 0 <= i && i + 1 < bytes.len() && bytes[i] == '/' as u8 && bytes[i + 1] == '*' as u8 {
        proof {
            lemma_comment_ends(bytes, i + 2, 1);
        }
        skip_end(bytes, block_comment_end(bytes, i + 2, 1))
    } else {
        i
    }
}

/// The tokens from position `start` on follow one another with nothing but
/// spaces, tabs, carriage returns and comments between them: the first starts
/// where skipping from `start` stops, each next one where skipping from the
/// end of the one before stops.
pub open spec fn tokens_cover(bytes: Seq<u8>, start: int, tokens: Seq<Token>) -> bool {
    &&& tokens.len() >= 1 ==> tokens[0].span.start == skip_end(bytes, start)
    &&& forall|i: int| 0 <= i < tokens.len() - 1 ==> #[trigger] tokens[i + 1].span.start == skip_end(
        bytes,
        tokens[i].span.end as int,
    )
}

/// A diagnostic the lexer reports: an error whose span lies within the text.
pub open spec fn lex_error(d: Diagnostic, len: nat) -> bool {
    &&& d.severity == Severity::Error
    &&& d.span.start <= d.span.end <= len
}

/// What tokenizing a text yields: tokens of the text in order, without
/// overlap, ending with the one `Eof`; diagnostics that are errors within the
/// text; and at least one diagnostic wherever an `Error` token stands.
pub open spec fn token_stream(bytes: Seq<u8>, tokens: Seq<Token>, diagnostics: Seq<Diagnostic>) -> bool {
    &&& tokens.len() >= 1
    &&& tokens.last().kind is Eof
    &&& forall|i: int| 0 <= i < tokens.len() - 1 ==> !(#[trigger] tokens[i].kind is Eof)
    &&& forall|i: int| 0 <= i < tokens.len() ==> token_of(bytes, #[trigger] tokens[i])
    &&& forall|i: int, j: int| 0 <= i < j < tokens.len() ==> tokens[i].span.end <= tokens[j].span.start
    &&& forall|i: int| 0 <= i < diagnostics.len() ==> lex_error(#[trigger] diagnostics[i], bytes.len())
    &&& (exists|i: int| 0 <= i < tokens.len() && (#[trigger] tokens[i]).kind is Error) ==> diagnostics.len() >= 1
}

} // verus!
