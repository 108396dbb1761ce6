//! The scanner. It turns source text into tokens:
//! - punctuation and operators, identifiers and keywords, numbers, colors,
//!   strings, string templates and layout blocks;
//! - whitespace and comments are skipped, newlines are tokens;
//! - errors produce an `Error` token and a diagnostic, and scanning goes on.
//!
//! Positions are byte offsets into the text. Every decision the scanner makes
//! looks at ASCII bytes only, so the bytes of a multi-byte character are
//! stepped over one at a time and never mistaken for anything else.

use vstd::prelude::*;
use vstd::string::*;
use vstd::utf8::*;
use crate::diagnostic::{Diagnostic, Diagnostics};
use crate::source::Span;
use crate::text::{lemma_ascii_boundary, lemma_ascii_next_boundary, lemma_str_valid_utf8, push_decimal, push_str, str_eq, substr};
use super::spec::{
    block_comment_end, fixed_text, is_ascii_digit, is_hex_digit, is_ident_char, is_ident_start, lex_error,
    line_comment_end, skip_end, token_of, token_stream, tokens_cover,
};
use super::token::{keyword_of, Token, TokenKind};

verus! {

/// `after` is `before` with one diagnostic added, of code `code`, covering
/// the bytes from `start` to `end`.
pub open spec fn reported_code(before: Seq<Diagnostic>, after: Seq<Diagnostic>, code: Seq<char>, start: int, end: int) -> bool {
    &&& after.len() == before.len() + 1
    &&& after.drop_last() == before
    &&& after.last().code matches Some(c) && c@ == code
    &&& after.last().span.start == start
    &&& after.last().span.end == end
}

/// The kind of a word: its keyword, or an identifier.
pub open spec fn word_kind(word: Seq<char>) -> TokenKind {
    match keyword_of(word) {
        Some(k) => k,
        None => TokenKind::Identifier,
    }
}

/// Whether `b` continues a number in the given radix (digit separators included).
pub open spec fn radix_digit(b: u8, radix: u32) -> bool {
    b == 0x5f || if radix == 16 {
        (0x30 <= b <= 0x39) || (0x61 <= b <= 0x66) || (0x41 <= b <= 0x46)
    } else if radix == 2 {
        b == 0x30 || b == 0x31
    } else {
        0x30 <= b <= 0x37
    }
}

/// Where the run of digits of a radix that starts at `p` ends.
pub open spec fn radix_end(bytes: Seq<u8>, p: int, radix: u32) -> int
    decreases bytes.len() - p,
{
    if 0 <= p < bytes.len() && radix_digit(bytes[p], radix) {
        radix_end(bytes, p + 1, radix)
    } else {
        p
    }
}

/// Where the run of decimal digits (with `_` separators where allowed) that
/// starts at `p` ends.
pub open spec fn digits_end(bytes: Seq<u8>, p: int, separators: bool) -> int
    decreases bytes.len() - p,
{
    if 0 <= p < bytes.len() && (is_ascii_digit(bytes[p]) || (separators && bytes[p] == '_' as u8)) {
        digits_end(bytes, p + 1, separators)
    } else {
        p
    }
}

/// The end and kind of the number at `p`: `0x`, `0b` or `0o` and digits of
/// that radix; or decimal digits, then a fraction (a dot and a digit) with
/// an optional exponent for a float.
pub open spec fn number_token(bytes: Seq<u8>, p: int) -> (int, TokenKind) {
    let next = if p + 1 < bytes.len() { bytes[p + 1] } else { 0u8 };
    if bytes[p] == '0' as u8 && p + 1 < bytes.len() && (next == 'x' as u8 || next == 'X' as u8) {
        (radix_end(bytes, p + 2, 16), TokenKind::IntLiteral)
    } else if bytes[p] == '0' as u8 && p + 1 < bytes.len() && (next == 'b' as u8 || next == 'B' as u8) {
        (radix_end(bytes, p + 2, 2), TokenKind::IntLiteral)
    } else if bytes[p] == '0' as u8 && p + 1 < bytes.len() && (next == 'o' as u8 || next == 'O' as u8) {
        (radix_end(bytes, p + 2, 8), TokenKind::IntLiteral)
    } else {
        decimal_token(bytes, p)
    }
}

/// The end and kind of the decimal number at `p`: digits, then a fraction
/// (a dot and a digit) with an optional exponent for a float.
pub open spec fn decimal_token(bytes: Seq<u8>, p: int) -> (int, TokenKind) {
    let a = digits_end(bytes, p, true);
    if a + 1 < bytes.len() && bytes[a] == '.' as u8 && is_ascii_digit(bytes[a + 1]) {
        let f = digits_end(bytes, a + 1, true);
        let e = if f < bytes.len() && (bytes[f] == 'e' as u8 || bytes[f] == 'E' as u8) {
            let s = if f + 1 < bytes.len() && (bytes[f + 1] == '+' as u8 || bytes[f + 1] == '-' as u8) {
                f + 2
            } else {
                f + 1
            };
            digits_end(bytes, s, false)
        } else {
            f
        };
        (e, TokenKind::FloatLiteral)
    } else {
        (a, TokenKind::IntLiteral)
    }
}

/// A token's kind fits the text it starts with (with a string template open
/// or not), and a word's kind is its keyword or `Identifier`.
pub open spec fn kind_fits(bytes: Seq<u8>, t: Token) -> bool {
    let p = t.span.start as int;
    &&& kind_by_first_byte(bytes, p, false, t.kind) || kind_by_first_byte(bytes, p, true, t.kind)
    &&& (p < bytes.len() && is_ascii_digit(bytes[p]) ==> (t.span.end as int, t.kind) == number_token(bytes, p))
    &&& (p < bytes.len() && bytes[p] == '"' as u8 && !triple_quote(bytes, p) ==> (t.span.end as int, t.kind)
        == string_scan(bytes, p + 1))
    &&& (p < bytes.len() && bytes[p] == '#' as u8 ==> t.span.end == hex_end(bytes, p + 1) && t.kind == color_kind(
        bytes,
        p,
    ))
    &&& (p < bytes.len() && is_ident_start(bytes[p]) ==> t.kind == word_kind(
        decode_utf8(bytes.subrange(p, t.span.end as int)),
    ))
}

/// An `Error` token that does not open a layout block has a diagnostic of
/// its own: at its span, with the code its first byte calls for.
pub open spec fn error_reported(bytes: Seq<u8>, t: Token, ds: Seq<Diagnostic>) -> bool {
    t.kind is Error && t.span.start < bytes.len() && !triple_quote(bytes, t.span.start as int) ==> exists|j: int|
        0 <= j < ds.len() && (#[trigger] ds[j]).span == t.span && (ds[j].code matches Some(c) && c@ == error_code_for(
            bytes[t.span.start as int],
        ))
}

/// The operator token at `p`, by its first byte and the byte after it.
pub open spec fn operator_kind(bytes: Seq<u8>, p: int) -> TokenKind {
    let b = bytes[p];
    let n = if p + 1 < bytes.len() { bytes[p + 1] } else { 0u8 };
    if b == '-' as u8 {
        if n == '>' as u8 { TokenKind::Arrow } else { TokenKind::Minus }
    } else if b == '*' as u8 {
        if n == '*' as u8 { TokenKind::StarStar } else { TokenKind::Star }
    } else if b == '/' as u8 {
        TokenKind::Slash
    } else if b == '=' as u8 {
        if n == '=' as u8 { TokenKind::EqEq } else if n == '>' as u8 { TokenKind::FatArrow } else { TokenKind::Eq }
    } else if b == '!' as u8 {
        if n == '=' as u8 { TokenKind::BangEq } else { TokenKind::Bang }
    } else if b == '<' as u8 {
        if n == '=' as u8 { TokenKind::LtEq } else { TokenKind::Lt }
    } else if b == '>' as u8 {
        if n == '=' as u8 { TokenKind::GtEq } else { TokenKind::Gt }
    } else if b == '?' as u8 {
        if n == ':' as u8 { TokenKind::QuestionColon } else if n == '.' as u8 { TokenKind::QuestionDot } else { TokenKind::Question }
    } else {
        if n == '.' as u8 { TokenKind::DotDot } else { TokenKind::Dot }
    }
}

/// How the string whose text goes on at `q` ends, and the kind of its
/// token: a closing quote ends a literal, `${` opens a template, and a line
/// break or the end of the text leaves it unterminated; a backslash escapes
/// the byte after it.
pub open spec fn string_scan(bytes: Seq<u8>, q: int) -> (int, TokenKind)
    decreases bytes.len() - q,
{
    if q < 0 || q >= bytes.len() {
        (q, TokenKind::Error)
    } else if bytes[q] == '"' as u8 {
        (q + 1, TokenKind::StringLiteral)
    } else if bytes[q] == '\\' as u8 {
        if q + 1 < bytes.len() {
            string_scan(bytes, q + 2)
        } else {
            string_scan(bytes, q + 1)
        }
    } else if bytes[q] == '$' as u8 && q + 1 < bytes.len() && bytes[q + 1] == '{' as u8 {
        (q + 2, TokenKind::StringTemplateStart)
    } else if bytes[q] == '\n' as u8 {
        (q, TokenKind::Error)
    } else {
        string_scan(bytes, q + 1)
    }
}

/// The kind of a template piece that resumes after `}` and ends as a
/// string would: at the closing quote the template ends, at `${` a middle
/// piece ends.
pub open spec fn resumed_kind(k: TokenKind) -> TokenKind {
    if k is StringLiteral {
        TokenKind::StringTemplateEnd
    } else if k is StringTemplateStart {
        TokenKind::StringTemplateMiddle
    } else {
        TokenKind::Error
    }
}

/// Where the run of hexadecimal digits that starts at `q` ends.
pub open spec fn hex_end(bytes: Seq<u8>, q: int) -> int
    decreases bytes.len() - q,
{
    if 0 <= q < bytes.len() && is_hex_digit(bytes[q]) {
        hex_end(bytes, q + 1)
    } else {
        q
    }
}

/// The kind of the color literal at `p`: six or eight hex digits after `#`.
pub open spec fn color_kind(bytes: Seq<u8>, p: int) -> TokenKind {
    let n = hex_end(bytes, p + 1) - (p + 1);
    if n == 6 || n == 8 {
        TokenKind::ColorLiteral
    } else {
        TokenKind::Error
    }
}

/// Whether a byte is one of the operators whose tokens never fail.
pub open spec fn operator_start(b: u8) -> bool {
    b == '-' as u8 || b == '*' as u8 || b == '/' as u8 || b == '=' as u8 || b == '!' as u8 || b == '<' as u8
        || b == '>' as u8 || b == '?' as u8 || b == '.' as u8
}

/// The token kind that a lone punctuation byte stands for.
pub open spec fn single_punct(b: u8) -> Option<TokenKind> {
    if b == '(' as u8 {
        Some(TokenKind::LParen)
    } else if b == ')' as u8 {
        Some(TokenKind::RParen)
    } else if b == '{' as u8 {
        Some(TokenKind::LBrace)
    } else if b == '[' as u8 {
        Some(TokenKind::LBracket)
    } else if b == ']' as u8 {
        Some(TokenKind::RBracket)
    } else if b == ',' as u8 {
        Some(TokenKind::Comma)
    } else if b == ':' as u8 {
        Some(TokenKind::Colon)
    } else if b == '+' as u8 {
        Some(TokenKind::Plus)
    } else if b == '%' as u8 {
        Some(TokenKind::Percent)
    } else if b == '\n' as u8 {
        Some(TokenKind::Newline)
    } else {
        None
    }
}

/// Whether a token that starts with this byte never adds a diagnostic.
pub open spec fn quiet_start(b: u8) -> bool {
    single_punct(b) is Some || operator_start(b) || is_ascii_digit(b) || is_ident_start(b)
}

/// Whether three quotes start at `p`: a layout block.
pub open spec fn triple_quote(bytes: Seq<u8>, p: int) -> bool {
    0 <= p && p + 2 < bytes.len() && bytes[p] == '"' as u8 && bytes[p + 1] == '"' as u8 && bytes[p + 2] == '"' as u8
}

/// The code of the diagnostic for an `Error` token that starts with this
/// byte: an unterminated string or template, an invalid color, or an
/// invalid token.
pub open spec fn error_code_for(b: u8) -> Seq<char> {
    if b == '"' as u8 || b == '}' as u8 {
        "E0102"@
    } else if b == '#' as u8 {
        "E0105"@
    } else {
        "E0101"@
    }
}

/// The kinds a token that starts at `p` may have, by its first byte (and
/// whether a string template is open, where `}` resumes the template).
pub open spec fn kind_by_first_byte(bytes: Seq<u8>, p: int, in_template: bool, k: TokenKind) -> bool {
    if p < 0 || p >= bytes.len() {
        k is Eof
    } else {
        let b = bytes[p];
        if b == '}' as u8 {
            if in_template {
                k is StringTemplateMiddle || k is StringTemplateEnd || k is Error
            } else {
                k is RBrace
            }
        } else if single_punct(b) is Some {
            k == single_punct(b)->0
        } else if operator_start(b) {
            k == operator_kind(bytes, p)
        } else if b == '&' as u8 {
            if p + 1 < bytes.len() && bytes[p + 1] == '&' as u8 {
                k is AmpAmp
            } else {
                k is Error
            }
        } else if b == '|' as u8 {
            if p + 1 < bytes.len() && bytes[p + 1] == '|' as u8 {
                k is PipePipe
            } else {
                k is Error
            }
        } else if b == '"' as u8 {
            k is StringLiteral || k is StringTemplateStart || k is LayoutBlock || k is Error
        } else if b == '#' as u8 {
            k is ColorLiteral || k is Error
        } else if is_ascii_digit(b) {
            k is IntLiteral || k is FloatLiteral
        } else if is_ident_start(b) {
            k is Identifier || k.spec_is_keyword()
        } else {
            k is Error
        }
    }
}

broadcast use vstd::seq::group_seq_axioms;

/// Lexer state
pub struct Lexer<'a> {
    source: &'a str,
    bytes: &'a [u8],
    current_pos: usize,
    diagnostics: Diagnostics,
    /// Nesting depth of string templates whose interpolation is open
    template_depth: usize,
}

impl<'a> Lexer<'a> {
    /// The bytes of the text being scanned.
    pub closed spec fn text(&self) -> Seq<u8> {
        self.bytes@
    }

    /// The current byte offset.
    pub closed spec fn pos(&self) -> nat {
        self.current_pos as nat
    }

    /// The diagnostics reported so far.
    pub closed spec fn reported(&self) -> Seq<Diagnostic> {
        self.diagnostics@
    }

    /// The scanner's own invariant.
    pub closed spec fn wf(&self) -> bool {
        &&& self.bytes@ == self.source.spec_bytes()
        &&& valid_utf8(self.bytes@)
        &&& self.bytes@.len() < u32::MAX
        &&& self.current_pos <= self.bytes@.len()
        &&& self.template_depth <= self.current_pos
        &&& forall|i: int| 0 <= i < self.diagnostics@.len() ==> lex_error(#[trigger] self.diagnostics@[i], self.bytes@.len() as nat)
    }

    /// The current offset is a character boundary.
    pub closed spec fn at_boundary(&self) -> bool {
        is_char_boundary(self.bytes@, self.current_pos as int)
    }

    /// Same text, position not moved back, diagnostics only added.
    closed spec fn extends(&self, old: &Self) -> bool {
        &&& self.bytes@ == old.bytes@
        &&& self.source == old.source
        &&& self.current_pos >= old.current_pos
        &&& self.diagnostics@.len() >= old.diagnostics@.len()
        &&& forall|i: int| 0 <= i < old.diagnostics@.len() ==> self.diagnostics@[i] == old.diagnostics@[i]
    }

    /// Only the position differs.
    closed spec fn moved(&self, old: &Self) -> bool {
        &&& self.bytes@ == old.bytes@
        &&& self.source == old.source
        &&& self.diagnostics@ == old.diagnostics@
        &&& self.template_depth == old.template_depth
    }

    /// Create a new lexer for the given source
    pub fn new(source: &'a str) -> (r: Self)
        requires
            source.spec_bytes().len() < u32::MAX,
        ensures
            r.wf(),
            r.at_boundary(),
            r.text() == source.spec_bytes(),
            r.pos() == 0,
            r.reported().len() == 0,
    {
        proof {
            lemma_str_valid_utf8(source);
            is_char_boundary_start_end_of_seq(source.spec_bytes());
        }
        Lexer {
            source,
            bytes: source.as_bytes(),
            current_pos: 0,
            diagnostics: Diagnostics::new(),
            template_depth: 0,
        }
    }

    /// Tokenize the entire source and return tokens + diagnostics
    pub fn tokenize(self) -> (r: (Vec<Token>, Diagnostics))
        requires
            self.wf(),
            self.at_boundary(),
            self.reported().len() == 0,
        ensures
            token_stream(self.text(), r.0@, r.1@),
            forall|i: int| 0 <= i < r.0@.len() ==> #[trigger] r.0@[i].span.start >= self.pos(),
            tokens_cover(self.text(), self.pos() as int, r.0@),
            forall|i: int| 0 <= i < r.0@.len() ==> kind_fits(self.text(), #[trigger] r.0@[i]),
            forall|i: int| 0 <= i < r.0@.len() ==> error_reported(self.text(), #[trigger] r.0@[i], r.1@),
    {
        let mut lexer = self;
        let mut tokens: Vec<Token> = Vec::new();
        loop
            invariant_except_break
                forall|i: int| 0 <= i < tokens@.len() ==> !(#[trigger] tokens@[i].kind is Eof),
            invariant
                lexer.wf(),
                lexer.at_boundary(),
                lexer.bytes@ == self.bytes@,
                lexer.current_pos >= self.current_pos,
                forall|i: int| 0 <= i < tokens@.len() ==> token_of(lexer.bytes@, #[trigger] tokens@[i]),
                forall|i: int, j: int| 0 <= i < j < tokens@.len() ==> tokens@[i].span.end <= tokens@[j].span.start,
                forall|i: int| 0 <= i < tokens@.len() ==> #[trigger] tokens@[i].span.end <= lexer.current_pos,
                forall|i: int| 0 <= i < tokens@.len() ==> #[trigger] tokens@[i].span.start >= self.current_pos,
                (exists|i: int| 0 <= i < tokens@.len() && (#[trigger] tokens@[i]).kind is Error) ==> lexer.diagnostics@.len() >= 1,
                tokens_cover(self.bytes@, self.current_pos as int, tokens@),
                forall|i: int| 0 <= i < tokens@.len() ==> kind_fits(self.bytes@, #[trigger] tokens@[i]),
                forall|i: int| 0 <= i < tokens@.len() ==> error_reported(self.bytes@, #[trigger] tokens@[i], lexer.diagnostics@),
                tokens@.len() == 0 ==> lexer.current_pos == self.current_pos,
                tokens@.len() > 0 ==> lexer.current_pos == tokens@.last().span.end,
            ensures
                tokens@.len() >= 1,
                tokens@.last().kind is Eof,
                forall|i: int| 0 <= i < tokens@.len() - 1 ==> !(#[trigger] tokens@[i].kind is Eof),
            decreases lexer.bytes@.len() - lexer.current_pos,
        {
            let ghost before = tokens@;
            let ghost ds0 = lexer.diagnostics@;
            let token = lexer.next_token();
            let is_eof = matches!(token.kind, TokenKind::Eof);
            tokens.push(token);
            proof {
                assert(tokens@.drop_last() == before);
                assert forall|i: int| 0 <= i < tokens@.len() - 1 implies #[trigger] tokens@[i + 1].span.start
                    == skip_end(self.bytes@, tokens@[i].span.end as int) by {
                    if i + 1 < before.len() {
                        assert(before[i + 1] == tokens@[i + 1] && before[i] == tokens@[i]);
                    }
                }
                assert forall|i: int| 0 <= i < tokens@.len() implies error_reported(self.bytes@, #[trigger] tokens@[i], lexer.diagnostics@) by {
                    let t = tokens@[i];
                    if i < before.len() {
                        assert(before[i] == t);
                        if t.kind is Error && t.span.start < self.bytes@.len() && !triple_quote(self.bytes@, t.span.start as int) {
                            let j = choose|j: int| 0 <= j < ds0.len() && (#[trigger] ds0[j]).span == t.span && (ds0[j].code matches Some(c) && c@ == error_code_for(self.bytes@[t.span.start as int]));
                            assert(lexer.diagnostics@[j] == ds0[j]);
                        }
                    } else if t.kind is Error && t.span.start < self.bytes@.len() && !triple_quote(self.bytes@, t.span.start as int) {
                        let j = lexer.diagnostics@.len() - 1;
                        assert(lexer.diagnostics@[j] == lexer.diagnostics@.last());
                        assert(lexer.diagnostics@[j].span == t.span);
                    }
                }
                assert forall|i: int| 0 <= i < tokens@.len() implies kind_fits(self.bytes@, #[trigger] tokens@[i]) by {
                    if i < before.len() {
                        assert(before[i] == tokens@[i]);
                    }
                }
                assert forall|i: int| 0 <= i < tokens@.len() && tokens@[i].kind is Error implies lexer.diagnostics@.len() >= 1 by {
                    if i < before.len() {
                        assert(before[i] == tokens@[i]);
                    }
                }
            }
            if is_eof {
                break;
            }
        }
        (tokens, lexer.diagnostics)
    }

    // --- Byte operations ---

    fn peek(&self) -> (r: Option<u8>)
        requires
            self.wf(),
        ensures
            r == if self.current_pos < self.bytes@.len() {
                Some(self.bytes@[self.current_pos as int])
            } else {
                None::<u8>
            },
    {
        if self.current_pos < self.bytes.len() {
            Some(self.bytes[self.current_pos])
        } else {
            None
        }
    }

    /// The byte `n` places after the current one.
    fn peek_nth(&self, n: usize) -> (r: Option<u8>)
        requires
            self.wf(),
            n <= 2,
        ensures
            r == if self.current_pos + n < self.bytes@.len() {
                Some(self.bytes@[self.current_pos + n])
            } else {
                None::<u8>
            },
    {
        if n < self.bytes.len() - self.current_pos {
            Some(self.bytes[self.current_pos + n])
        } else {
            None
        }
    }

    fn advance(&mut self)
        requires
            old(self).wf(),
            old(self).current_pos < old(self).bytes@.len(),
        ensures
            final(self).wf(),
            final(self).moved(old(self)),
            final(self).current_pos == old(self).current_pos + 1,
    {
        self.current_pos = self.current_pos + 1;
    }

    /// Step over an ASCII byte; the next offset is a character boundary.
    fn advance_ascii(&mut self)
        requires
            old(self).wf(),
            old(self).current_pos < old(self).bytes@.len(),
            old(self).bytes@[old(self).current_pos as int] < 0x80,
        ensures
            final(self).wf(),
            final(self).at_boundary(),
            final(self).moved(old(self)),
            final(self).current_pos == old(self).current_pos + 1,
    {
        proof {
            lemma_ascii_next_boundary(self.bytes@, self.current_pos as int);
        }
        self.current_pos = self.current_pos + 1;
    }

    fn token(&self, kind: TokenKind, start: usize) -> (t: Token)
        requires
            self.wf(),
            start <= self.current_pos,
        ensures
            t.kind == kind,
            t.span.start == start,
            t.span.end == self.current_pos,
    {
        Token::new(kind, Span::new(start as u32, self.current_pos as u32))
    }

    /// Report an error spanning from `start` to the current offset.
    fn report(&mut self, message: &str, start: usize, code: &str, help: Option<&str>)
        requires
            old(self).wf(),
            start <= old(self).current_pos,
        ensures
            final(self).wf(),
            final(self).bytes@ == old(self).bytes@,
            final(self).source == old(self).source,
            final(self).current_pos == old(self).current_pos,
            final(self).template_depth == old(self).template_depth,
            final(self).diagnostics@.len() == old(self).diagnostics@.len() + 1,
            reported_code(old(self).diagnostics@, final(self).diagnostics@, code@, start as int, old(self).current_pos as int),
    {
        let diag = Diagnostic::error(message, Span::new(start as u32, self.current_pos as u32)).with_code(code);
        let diag = match help {
            Some(h) => diag.with_help(h),
            None => diag,
        };
        let ghost before = self.diagnostics@;
        self.diagnostics.add(diag);
        proof {
            assert(self.diagnostics@.drop_last() =~= before);
            assert forall|i: int| 0 <= i < self.diagnostics@.len() implies lex_error(
                #[trigger] self.diagnostics@[i],
                self.bytes@.len() as nat,
            ) by {
                if i < before.len() {
                    assert(self.diagnostics@[i] == before[i]);
                }
            }
        }
    }

    /// A token whose text is fixed by its kind, `len` bytes long, at the current offset.
    fn punct(&mut self, kind: TokenKind, len: usize) -> (t: Token)
        requires
            old(self).wf(),
            1 <= len <= 2,
            old(self).current_pos + len <= old(self).bytes@.len(),
            is_char_boundary(old(self).bytes@, old(self).current_pos as int),
            fixed_text(kind) matches Some(f) && f.len() == len && forall|i: int| 0 <= i < len ==> #[trigger] f[i]
                == old(self).bytes@[old(self).current_pos + i] && f[i] < 0x80,
        ensures
            final(self).wf(),
            final(self).at_boundary(),
            final(self).moved(old(self)),
            t.span.start == old(self).current_pos,
            t.span.end == final(self).current_pos,
            token_of(final(self).bytes@, t),
            t.kind == kind,
    {
        let start = self.current_pos;
        let ghost f = fixed_text(kind)->Some_0;
        proof {
            assert(f[0] == self.bytes@[start as int]);
        }
        self.advance_ascii();
        if len == 2 {
            proof {
                assert(f[1] == self.bytes@[start + 1]);
            }
            self.advance_ascii();
        }
        proof {
            assert(self.bytes@.subrange(start as int, self.current_pos as int) =~= f);
        }
        self.token(kind, start)
    }

    // --- Tokens ---

    /// Get the next token
    fn next_token(&mut self) -> (t: Token)
        requires
            old(self).wf(),
            old(self).at_boundary(),
        ensures
            final(self).wf(),
            final(self).at_boundary(),
            final(self).extends(old(self)),
            token_of(final(self).bytes@, t),
            t.span.start >= old(self).current_pos,
            t.span.start == skip_end(old(self).bytes@, old(self).current_pos as int),
            t.span.end == final(self).current_pos,
            t.kind is Error ==> final(self).diagnostics@.len() > old(self).diagnostics@.len(),
            kind_by_first_byte(old(self).bytes@, t.span.start as int, old(self).template_depth > 0, t.kind),
            t.span.start < old(self).bytes@.len() && old(self).bytes@[t.span.start as int] == '"' as u8 && !triple_quote(
                old(self).bytes@,
                t.span.start as int,
            ) ==> (t.span.end as int, t.kind) == string_scan(old(self).bytes@, t.span.start + 1),
            t.span.start < old(self).bytes@.len() && old(self).bytes@[t.span.start as int] == '}' as u8
                && old(self).template_depth > 0 ==> t.span.end == string_scan(old(self).bytes@, t.span.start + 1).0
                && t.kind == resumed_kind(string_scan(old(self).bytes@, t.span.start + 1).1),
            t.span.start < old(self).bytes@.len() && old(self).bytes@[t.span.start as int] == '#' as u8 ==> t.span.end
                == hex_end(old(self).bytes@, t.span.start + 1) && t.kind == color_kind(old(self).bytes@, t.span.start as int),
            t.span.start < old(self).bytes@.len() && is_ascii_digit(old(self).bytes@[t.span.start as int]) ==> (
                t.span.end as int,
                t.kind,
            ) == number_token(old(self).bytes@, t.span.start as int),
            t.span.start < old(self).bytes@.len() && is_ident_start(old(self).bytes@[t.span.start as int]) ==> t.kind
                == word_kind(decode_utf8(old(self).bytes@.subrange(t.span.start as int, t.span.end as int))),
            t.span.start < old(self).bytes@.len() && quiet_start(old(self).bytes@[t.span.start as int])
                ==> final(self).diagnostics@ == old(self).diagnostics@,
            t.kind is Error && t.span.start < old(self).bytes@.len() && !triple_quote(old(self).bytes@, t.span.start as int) ==> reported_code(
                old(self).diagnostics@,
                final(self).diagnostics@,
                error_code_for(old(self).bytes@[t.span.start as int]),
                t.span.start as int,
                t.span.end as int,
            ),
    {
        self.skip_whitespace_and_comments();
        let start = self.current_pos;
        let ch = match self.peek() {
            Some(c) => c,
            None => {
                proof {
                    is_char_boundary_start_end_of_seq(self.bytes@);
                    assert(self.bytes@.subrange(start as int, start as int) =~= Seq::<u8>::empty());
                }
                return self.token(TokenKind::Eof, start);
            },
        };
        if ch == '(' as u8 {
            // Single-character punctuation
            self.punct(TokenKind::LParen, 1)
        } else if ch == ')' as u8 {
            self.punct(TokenKind::RParen, 1)
        } else if ch == '{' as u8 {
            self.punct(TokenKind::LBrace, 1)
        } else if ch == '}' as u8 {
            // Check if we're closing a string interpolation
            if self.template_depth > 0 {
                return self.lex_string_template_continue(start);
            }
            self.punct(TokenKind::RBrace, 1)
        } else if ch == '[' as u8 {
            self.punct(TokenKind::LBracket, 1)
        } else if ch == ']' as u8 {
            self.punct(TokenKind::RBracket, 1)
        } else if ch == ',' as u8 {
            self.punct(TokenKind::Comma, 1)
        } else if ch == ':' as u8 {
            self.punct(TokenKind::Colon, 1)
        } else if ch == '+' as u8 {
            self.punct(TokenKind::Plus, 1)
        } else if ch == '%' as u8 {
            self.punct(TokenKind::Percent, 1)
        } else if ch == '-' as u8 {
            // Multi-character operators starting with specific chars
            self.lex_minus()
        } else if ch == '*' as u8 {
            self.lex_star()
        } else if ch == '/' as u8 {
            self.lex_slash()
        } else if ch == '=' as u8 {
            self.lex_equals()
        } else if ch == '!' as u8 {
            self.lex_bang()
        } else if ch == '<' as u8 {
            self.lex_less()
        } else if ch == '>' as u8 {
            self.lex_greater()
        } else if ch == '&' as u8 {
            self.lex_ampersand()
        } else if ch == '|' as u8 {
            self.lex_pipe()
        } else if ch == '?' as u8 {
            self.lex_question()
        } else if ch == '.' as u8 {
            self.lex_dot()
        } else if ch == '"' as u8 {
            // String literals and layout blocks: """layout opens a layout block
            if self.peek_nth(1) == Some('"' as u8) && self.peek_nth(2) == Some('"' as u8) {
                return self.lex_layout_block(start);
            }
            self.lex_string(start)
        } else if ch == '#' as u8 {
            // Color literals (#RRGGBB or #RRGGBBAA)
            self.lex_color(start)
        } else if '0' as u8 <= ch && ch <= '9' as u8 {
            // Numbers
            self.lex_number(start)
        } else if ('a' as u8 <= ch && ch <= 'z' as u8) || ('A' as u8 <= ch && ch <= 'Z' as u8) || ch == '_' as u8 {
            // Identifiers and keywords
            self.lex_identifier(start)
        } else if ch == '\n' as u8 {
            // Newline (significant in some contexts)
            self.punct(TokenKind::Newline, 1)
        } else {
            // Unknown character
            self.lex_unknown(start)
        }
    }

    /// An unexpected character: an `Error` token covering its bytes.
    fn lex_unknown(&mut self, start: usize) -> (t: Token)
        requires
            old(self).wf(),
            old(self).at_boundary(),
            start == old(self).current_pos,
            start < old(self).bytes@.len(),
        ensures
            final(self).wf(),
            final(self).at_boundary(),
            final(self).extends(old(self)),
            final(self).template_depth == old(self).template_depth,
            token_of(final(self).bytes@, t),
            t.kind is Error,
            t.span.start == start,
            t.span.end == final(self).current_pos,
            final(self).diagnostics@.len() > old(self).diagnostics@.len(),
            reported_code(old(self).diagnostics@, final(self).diagnostics@, "E0101"@, start as int, t.span.end as int),
    {
        proof {
            reveal_strlit("E0101");
        }
        self.advance();
        // The remaining bytes of a multi-byte character
        while self.current_pos < self.bytes.len() && 0x80 <= self.bytes[self.current_pos] && self.bytes[self.current_pos] <= 0xbf
            invariant
                self.wf(),
                self.moved(old(self)),
                start < self.current_pos <= self.bytes@.len(),
            decreases self.bytes@.len() - self.current_pos,
        {
            self.advance();
        }
        proof {
            is_char_boundary_start_end_of_seq(self.bytes@);
            if self.current_pos < self.bytes@.len() {
                is_char_boundary_iff_not_is_continuation_byte(self.bytes@, self.current_pos as int);
            }
        }
        let ch = substr(self.source, start, self.current_pos);
        let mut message = String::new();
        push_str(&mut message, "unexpected character '");
        push_str(&mut message, ch);
        push_str(&mut message, "'");
        self.report(message.as_str(), start, "E0101", None);
        self.token(TokenKind::Error, start)
    }

    // --- Whitespace and comments ---

    fn skip_whitespace_and_comments(&mut self)
        requires
            old(self).wf(),
            old(self).at_boundary(),
        ensures
            final(self).wf(),
            final(self).at_boundary(),
            final(self).extends(old(self)),
            final(self).template_depth == old(self).template_depth,
            final(self).current_pos == skip_end(old(self).bytes@, old(self).current_pos as int),
            final(self).current_pos < final(self).bytes@.len() ==> final(self).diagnostics@ == old(self).diagnostics@,
    {
        loop
            invariant
                self.diagnostics@ == old(self).diagnostics@ || self.current_pos == self.bytes@.len(),
                self.wf(),
                self.at_boundary(),
                self.extends(old(self)),
                self.template_depth == old(self).template_depth,
                skip_end(old(self).bytes@, old(self).current_pos as int) == skip_end(
                    self.bytes@,
                    self.current_pos as int,
                ),
            ensures
                self.diagnostics@ == old(self).diagnostics@ || self.current_pos == self.bytes@.len(),
                self.wf(),
                self.at_boundary(),
                self.extends(old(self)),
                self.template_depth == old(self).template_depth,
                self.current_pos == skip_end(old(self).bytes@, old(self).current_pos as int),
            decreases self.bytes@.len() - self.current_pos,
        {
            let c = self.peek();
            if c == Some(' ' as u8) || c == Some('\t' as u8) || c == Some('\r' as u8) {
                self.advance_ascii();
            } else if c == Some('/' as u8) {
                if self.peek_nth(1) == Some('/' as u8) {
                    self.skip_line_comment();
                } else if self.peek_nth(1) == Some('*' as u8) {
                    self.skip_block_comment();
                } else {
                    break;
                }
            } else {
                break;
            }
        }
    }

    fn skip_line_comment(&mut self)
        requires
            old(self).wf(),
            old(self).current_pos + 1 < old(self).bytes@.len(),
            old(self).bytes@[old(self).current_pos as int] == '/' as u8,
            old(self).bytes@[old(self).current_pos + 1] == '/' as u8,
        ensures
            final(self).wf(),
            final(self).at_boundary(),
            final(self).moved(old(self)),
            final(self).current_pos > old(self).current_pos,
            final(self).current_pos == line_comment_end(old(self).bytes@, old(self).current_pos + 2),
    {
        // Skip //
        self.advance();
        self.advance();
        // Skip until newline (but don't consume it - it might be significant)
        while self.current_pos < self.bytes.len() && self.bytes[self.current_pos] != '\n' as u8
            invariant
                self.wf(),
                self.moved(old(self)),
                self.current_pos > old(self).current_pos,
                line_comment_end(old(self).bytes@, old(self).current_pos + 2) == line_comment_end(
                    self.bytes@,
                    self.current_pos as int,
                ),
            decreases self.bytes@.len() - self.current_pos,
        {
            self.advance();
        }
        proof {
            if self.current_pos < self.bytes@.len() {
                lemma_ascii_boundary(self.bytes@, self.current_pos as int);
            } else {
                is_char_boundary_start_end_of_seq(self.bytes@);
            }
        }
    }

    fn skip_block_comment(&mut self)
        requires
            old(self).wf(),
            old(self).current_pos + 1 < old(self).bytes@.len(),
            old(self).bytes@[old(self).current_pos as int] == '/' as u8,
            old(self).bytes@[old(self).current_pos + 1] == '*' as u8,
        ensures
            final(self).wf(),
            final(self).at_boundary(),
            final(self).extends(old(self)),
            final(self).template_depth == old(self).template_depth,
            final(self).current_pos > old(self).current_pos,
            final(self).current_pos == block_comment_end(old(self).bytes@, old(self).current_pos + 2, 1),
            final(self).current_pos < final(self).bytes@.len() ==> final(self).diagnostics@ == old(self).diagnostics@,
    {
        let start = self.current_pos;
        // Skip /*
        self.advance();
        self.advance();

        let mut depth: usize = 1;
        while depth > 0 && self.current_pos < self.bytes.len()
            invariant
                self.wf(),
                self.moved(old(self)),
                start == old(self).current_pos,
                self.current_pos >= start + 2,
                depth <= self.current_pos,
                depth == 0 ==> self.bytes@[self.current_pos - 1] == '/' as u8,
                block_comment_end(old(self).bytes@, start + 2, 1) == block_comment_end(
                    self.bytes@,
                    self.current_pos as int,
                    depth as nat,
                ),
            decreases self.bytes@.len() - self.current_pos,
        {
            if self.bytes[self.current_pos] == '*' as u8 && self.peek_nth(1) == Some('/' as u8) {
                self.advance();
                self.advance();
                depth = depth - 1;
            } else if self.bytes[self.current_pos] == '/' as u8 && self.peek_nth(1) == Some('*' as u8) {
                self.advance();
                self.advance();
                depth = depth + 1;
            } else {
                self.advance();
            }
        }
        proof {
            if depth == 0 {
                lemma_ascii_next_boundary(self.bytes@, self.current_pos - 1);
            } else {
                is_char_boundary_start_end_of_seq(self.bytes@);
            }
        }
        if depth > 0 {
            self.report("unterminated block comment", start, "E0101", None);
        }
    }

    // --- Operators ---

    fn lex_minus(&mut self) -> (t: Token)
        requires
            old(self).wf(),
            old(self).at_boundary(),
            old(self).current_pos < old(self).bytes@.len(),
            old(self).bytes@[old(self).current_pos as int] == '-' as u8,
        ensures
            final(self).wf(),
            final(self).at_boundary(),
            final(self).moved(old(self)),
            token_of(final(self).bytes@, t),
            t.span.start == old(self).current_pos,
            t.span.end == final(self).current_pos,
            t.kind == operator_kind(old(self).bytes@, old(self).current_pos as int),
            !(t.kind is Error),
    {
        if self.peek_nth(1) == Some('>' as u8) {
            self.punct(TokenKind::Arrow, 2)
        } else {
            self.punct(TokenKind::Minus, 1)
        }
    }

    fn lex_star(&mut self) -> (t: Token)
        requires
            old(self).wf(),
            old(self).at_boundary(),
            old(self).current_pos < old(self).bytes@.len(),
            old(self).bytes@[old(self).current_pos as int] == '*' as u8,
        ensures
            final(self).wf(),
            final(self).at_boundary(),
            final(self).moved(old(self)),
            token_of(final(self).bytes@, t),
            t.span.start == old(self).current_pos,
            t.span.end == final(self).current_pos,
            t.kind == operator_kind(old(self).bytes@, old(self).current_pos as int),
            !(t.kind is Error),
    {
        if self.peek_nth(1) == Some('*' as u8) {
            self.punct(TokenKind::StarStar, 2)
        } else {
            self.punct(TokenKind::Star, 1)
        }
    }

    fn lex_slash(&mut self) -> (t: Token)
        requires
            old(self).wf(),
            old(self).at_boundary(),
            old(self).current_pos < old(self).bytes@.len(),
            old(self).bytes@[old(self).current_pos as int] == '/' as u8,
        ensures
            final(self).wf(),
            final(self).at_boundary(),
            final(self).moved(old(self)),
            token_of(final(self).bytes@, t),
            t.span.start == old(self).current_pos,
            t.span.end == final(self).current_pos,
            t.kind == operator_kind(old(self).bytes@, old(self).current_pos as int),
            !(t.kind is Error),
    {
        self.punct(TokenKind::Slash, 1)
    }

    fn lex_equals(&mut self) -> (t: Token)
        requires
            old(self).wf(),
            old(self).at_boundary(),
            old(self).current_pos < old(self).bytes@.len(),
            old(self).bytes@[old(self).current_pos as int] == '=' as u8,
        ensures
            final(self).wf(),
            final(self).at_boundary(),
            final(self).moved(old(self)),
            token_of(final(self).bytes@, t),
            t.span.start == old(self).current_pos,
            t.span.end == final(self).current_pos,
            t.kind == operator_kind(old(self).bytes@, old(self).current_pos as int),
            !(t.kind is Error),
    {
        if self.peek_nth(1) == Some('=' as u8) {
            self.punct(TokenKind::EqEq, 2)
        } else if self.peek_nth(1) == Some('>' as u8) {
            self.punct(TokenKind::FatArrow, 2)
        } else {
            self.punct(TokenKind::Eq, 1)
        }
    }

    fn lex_bang(&mut self) -> (t: Token)
        requires
            old(self).wf(),
            old(self).at_boundary(),
            old(self).current_pos < old(self).bytes@.len(),
            old(self).bytes@[old(self).current_pos as int] == '!' as u8,
        ensures
            final(self).wf(),
            final(self).at_boundary(),
            final(self).moved(old(self)),
            token_of(final(self).bytes@, t),
            t.span.start == old(self).current_pos,
            t.span.end == final(self).current_pos,
            t.kind == operator_kind(old(self).bytes@, old(self).current_pos as int),
            !(t.kind is Error),
    {
        if self.peek_nth(1) == Some('=' as u8) {
            self.punct(TokenKind::BangEq, 2)
        } else {
            self.punct(TokenKind::Bang, 1)
        }
    }

    fn lex_less(&mut self) -> (t: Token)
        requires
            old(self).wf(),
            old(self).at_boundary(),
            old(self).current_pos < old(self).bytes@.len(),
            old(self).bytes@[old(self).current_pos as int] == '<' as u8,
        ensures
            final(self).wf(),
            final(self).at_boundary(),
            final(self).moved(old(self)),
            token_of(final(self).bytes@, t),
            t.span.start == old(self).current_pos,
            t.span.end == final(self).current_pos,
            t.kind == operator_kind(old(self).bytes@, old(self).current_pos as int),
            !(t.kind is Error),
    {
        if self.peek_nth(1) == Some('=' as u8) {
            self.punct(TokenKind::LtEq, 2)
        } else {
            self.punct(TokenKind::Lt, 1)
        }
    }

    fn lex_greater(&mut self) -> (t: Token)
        requires
            old(self).wf(),
            old(self).at_boundary(),
            old(self).current_pos < old(self).bytes@.len(),
            old(self).bytes@[old(self).current_pos as int] == '>' as u8,
        ensures
            final(self).wf(),
            final(self).at_boundary(),
            final(self).moved(old(self)),
            token_of(final(self).bytes@, t),
            t.span.start == old(self).current_pos,
            t.span.end == final(self).current_pos,
            t.kind == operator_kind(old(self).bytes@, old(self).current_pos as int),
            !(t.kind is Error),
    {
        if self.peek_nth(1) == Some('=' as u8) {
            self.punct(TokenKind::GtEq, 2)
        } else {
            self.punct(TokenKind::Gt, 1)
        }
    }

    fn lex_ampersand(&mut self) -> (t: Token)
        requires
            old(self).wf(),
            old(self).at_boundary(),
            old(self).current_pos < old(self).bytes@.len(),
            old(self).bytes@[old(self).current_pos as int] == '&' as u8,
        ensures
            final(self).wf(),
            final(self).at_boundary(),
            final(self).extends(old(self)),
            final(self).template_depth == old(self).template_depth,
            token_of(final(self).bytes@, t),
            t.span.start == old(self).current_pos,
            t.span.end == final(self).current_pos,
            t.kind is Error ==> final(self).diagnostics@.len() > old(self).diagnostics@.len(),
            (t.kind is Error) == !(old(self).current_pos + 1 < old(self).bytes@.len() && old(self).bytes@[old(self).current_pos + 1] == '&' as u8),
            t.kind is Error ==> reported_code(old(self).diagnostics@, final(self).diagnostics@, "E0101"@, t.span.start as int, t.span.end as int),
            !(t.kind is Error) ==> final(self).diagnostics@ == old(self).diagnostics@,
    {
        proof {
            reveal_strlit("E0101");
        }
        let start = self.current_pos;
        if self.peek_nth(1) == Some('&' as u8) {
            self.punct(TokenKind::AmpAmp, 2)
        } else {
            self.advance_ascii();
            self.report("expected '&&', found single '&'", start, "E0101", Some("Frel uses '&&' for logical AND"));
            self.token(TokenKind::Error, start)
        }
    }

    fn lex_pipe(&mut self) -> (t: Token)
        requires
            old(self).wf(),
            old(self).at_boundary(),
            old(self).current_pos < old(self).bytes@.len(),
            old(self).bytes@[old(self).current_pos as int] == '|' as u8,
        ensures
            final(self).wf(),
            final(self).at_boundary(),
            final(self).extends(old(self)),
            final(self).template_depth == old(self).template_depth,
            token_of(final(self).bytes@, t),
            t.span.start == old(self).current_pos,
            t.span.end == final(self).current_pos,
            t.kind is Error ==> final(self).diagnostics@.len() > old(self).diagnostics@.len(),
            (t.kind is Error) == !(old(self).current_pos + 1 < old(self).bytes@.len() && old(self).bytes@[old(self).current_pos + 1] == '|' as u8),
            t.kind is Error ==> reported_code(old(self).diagnostics@, final(self).diagnostics@, "E0101"@, t.span.start as int, t.span.end as int),
            !(t.kind is Error) ==> final(self).diagnostics@ == old(self).diagnostics@,
    {
        proof {
            reveal_strlit("E0101");
        }
        let start = self.current_pos;
        if self.peek_nth(1) == Some('|' as u8) {
            self.punct(TokenKind::PipePipe, 2)
        } else {
            self.advance_ascii();
            self.report("expected '||', found single '|'", start, "E0101", Some("Frel uses '||' for logical OR"));
            self.token(TokenKind::Error, start)
        }
    }

    fn lex_question(&mut self) -> (t: Token)
        requires
            old(self).wf(),
            old(self).at_boundary(),
            old(self).current_pos < old(self).bytes@.len(),
            old(self).bytes@[old(self).current_pos as int] == '?' as u8,
        ensures
            final(self).wf(),
            final(self).at_boundary(),
            final(self).moved(old(self)),
            token_of(final(self).bytes@, t),
            t.span.start == old(self).current_pos,
            t.span.end == final(self).current_pos,
            t.kind == operator_kind(old(self).bytes@, old(self).current_pos as int),
            !(t.kind is Error),
    {
        let next = self.peek_nth(1);
        if next == Some(':' as u8) {
            self.punct(TokenKind::QuestionColon, 2)
        } else if next == Some('.' as u8) {
            self.punct(TokenKind::QuestionDot, 2)
        } else {
            self.punct(TokenKind::Question, 1)
        }
    }

    fn lex_dot(&mut self) -> (t: Token)
        requires
            old(self).wf(),
            old(self).at_boundary(),
            old(self).current_pos < old(self).bytes@.len(),
            old(self).bytes@[old(self).current_pos as int] == '.' as u8,
        ensures
            final(self).wf(),
            final(self).at_boundary(),
            final(self).moved(old(self)),
            token_of(final(self).bytes@, t),
            t.span.start == old(self).current_pos,
            t.span.end == final(self).current_pos,
            t.kind == operator_kind(old(self).bytes@, old(self).current_pos as int),
            !(t.kind is Error),
    {
        if self.peek_nth(1) == Some('.' as u8) {
            self.punct(TokenKind::DotDot, 2)
        } else {
            self.punct(TokenKind::Dot, 1)
        }
    }

    // --- Numbers ---

    fn lex_number(&mut self, start: usize) -> (t: Token)
        requires
            old(self).wf(),
            start == old(self).current_pos,
            start < old(self).bytes@.len(),
            is_ascii_digit(old(self).bytes@[start as int]),
        ensures
            final(self).wf(),
            final(self).at_boundary(),
            final(self).moved(old(self)),
            token_of(final(self).bytes@, t),
            t.span.start == start,
            t.span.end == final(self).current_pos,
            (t.span.end as int, t.kind) == number_token(old(self).bytes@, start as int),
            !(t.kind is Error),
    {
        // Check for hex, binary, octal
        if self.bytes[start] == '0' as u8 {
            if let Some(next) = self.peek_nth(1) {
                if next == 'x' as u8 || next == 'X' as u8 {
                    return self.lex_hex_number(start);
                } else if next == 'b' as u8 || next == 'B' as u8 {
                    return self.lex_binary_number(start);
                } else if next == 'o' as u8 || next == 'O' as u8 {
                    return self.lex_octal_number(start);
                }
            }
        }
        // Decimal number
        self.lex_decimal_number(start)
    }

    /// Whether `b` continues a number in the given radix (digit separators included).
    fn is_radix_digit(b: u8, radix: u32) -> (r: bool)
        ensures
            r ==> b < 0x80,
            r == (b == 0x5f || if radix == 16 {
                (0x30 <= b <= 0x39) || (0x61 <= b <= 0x66) || (0x41 <= b <= 0x46)
            } else if radix == 2 {
                b == 0x30 || b == 0x31
            } else {
                0x30 <= b <= 0x37
            }),
    {
        if b == '_' as u8 {
            true
        } else if radix == 16 {
            ('0' as u8 <= b && b <= '9' as u8) || ('a' as u8 <= b && b <= 'f' as u8) || ('A' as u8 <= b && b <= 'F' as u8)
        } else if radix == 2 {
            b == '0' as u8 || b == '1' as u8
        } else {
            '0' as u8 <= b && b <= '7' as u8
        }
    }

    /// A prefixed integer (`0x..`, `0b..`, `0o..`): the prefix, then digits of its radix.
    fn lex_radix_number(&mut self, start: usize, radix: u32) -> (t: Token)
        requires
            old(self).wf(),
            start == old(self).current_pos,
            start + 1 < old(self).bytes@.len(),
            old(self).bytes@[start as int] == '0' as u8,
            old(self).bytes@[start + 1] < 0x80,
        ensures
            final(self).wf(),
            final(self).at_boundary(),
            final(self).moved(old(self)),
            token_of(final(self).bytes@, t),
            t.kind is IntLiteral,
            t.span.start == start,
            t.span.end == final(self).current_pos,
            t.span.end == radix_end(old(self).bytes@, start + 2, radix),
    {
        proof {
            lemma_ascii_boundary(self.bytes@, start as int);
        }
        self.advance_ascii(); // '0'
        self.advance_ascii(); // radix letter
        while self.current_pos < self.bytes.len() && Self::is_radix_digit(self.bytes[self.current_pos], radix)
            invariant
                self.wf(),
                self.at_boundary(),
                self.moved(old(self)),
                is_char_boundary(self.bytes@, start as int),
                self.bytes@[start as int] == '0' as u8,
                self.current_pos >= start + 2,
                radix_end(old(self).bytes@, start + 2, radix) == radix_end(self.bytes@, self.current_pos as int, radix),
            decreases self.bytes@.len() - self.current_pos,
        {
            self.advance_ascii();
        }
        self.token(TokenKind::IntLiteral, start)
    }

    /// `0x` and hexadecimal digits
    fn lex_hex_number(&mut self, start: usize) -> (t: Token)
        requires
            old(self).wf(),
            start == old(self).current_pos,
            start + 1 < old(self).bytes@.len(),
            old(self).bytes@[start as int] == '0' as u8,
            old(self).bytes@[start + 1] < 0x80,
        ensures
            final(self).wf(),
            final(self).at_boundary(),
            final(self).moved(old(self)),
            token_of(final(self).bytes@, t),
            t.kind is IntLiteral,
            t.span.end == radix_end(old(self).bytes@, start + 2, 16),
            t.span.start == start,
            t.span.end == final(self).current_pos,
    {
        self.lex_radix_number(start, 16)
    }

    /// `0b` and binary digits
    fn lex_binary_number(&mut self, start: usize) -> (t: Token)
        requires
            old(self).wf(),
            start == old(self).current_pos,
            start + 1 < old(self).bytes@.len(),
            old(self).bytes@[start as int] == '0' as u8,
            old(self).bytes@[start + 1] < 0x80,
        ensures
            final(self).wf(),
            final(self).at_boundary(),
            final(self).moved(old(self)),
            token_of(final(self).bytes@, t),
            t.kind is IntLiteral,
            t.span.end == radix_end(old(self).bytes@, start + 2, 2),
            t.span.start == start,
            t.span.end == final(self).current_pos,
    {
        self.lex_radix_number(start, 2)
    }

    /// `0o` and octal digits
    fn lex_octal_number(&mut self, start: usize) -> (t: Token)
        requires
            old(self).wf(),
            start == old(self).current_pos,
            start + 1 < old(self).bytes@.len(),
            old(self).bytes@[start as int] == '0' as u8,
            old(self).bytes@[start + 1] < 0x80,
        ensures
            final(self).wf(),
            final(self).at_boundary(),
            final(self).moved(old(self)),
            token_of(final(self).bytes@, t),
            t.kind is IntLiteral,
            t.span.end == radix_end(old(self).bytes@, start + 2, 8),
            t.span.start == start,
            t.span.end == final(self).current_pos,
    {
        self.lex_radix_number(start, 8)
    }

    /// Digits and separators from the current offset.
    fn skip_digits(&mut self, separators: bool)
        requires
            old(self).wf(),
            old(self).at_boundary(),
        ensures
            final(self).wf(),
            final(self).at_boundary(),
            final(self).moved(old(self)),
            final(self).current_pos >= old(self).current_pos,
            old(self).current_pos < old(self).bytes@.len() && is_ascii_digit(old(self).bytes@[old(self).current_pos as int])
                ==> final(self).current_pos > old(self).current_pos,
            final(self).current_pos == digits_end(old(self).bytes@, old(self).current_pos as int, separators),
    {
        while self.current_pos < self.bytes.len()
            && (('0' as u8 <= self.bytes[self.current_pos] && self.bytes[self.current_pos] <= '9' as u8)
                || (separators && self.bytes[self.current_pos] == '_' as u8))
            invariant
                self.wf(),
                self.at_boundary(),
                self.moved(old(self)),
                self.current_pos >= old(self).current_pos,
                digits_end(old(self).bytes@, old(self).current_pos as int, separators) == digits_end(
                    self.bytes@,
                    self.current_pos as int,
                    separators,
                ),
            decreases self.bytes@.len() - self.current_pos,
        {
            self.advance_ascii();
        }
    }

    fn lex_decimal_number(&mut self, start: usize) -> (t: Token)
        requires
            old(self).wf(),
            start == old(self).current_pos,
            start < old(self).bytes@.len(),
            is_ascii_digit(old(self).bytes@[start as int]),
        ensures
            final(self).wf(),
            final(self).at_boundary(),
            final(self).moved(old(self)),
            token_of(final(self).bytes@, t),
            t.span.start == start,
            t.span.end == final(self).current_pos,
            t.kind is IntLiteral || t.kind is FloatLiteral,
            (t.span.end as int, t.kind) == decimal_token(old(self).bytes@, start as int),
    {
        proof {
            lemma_ascii_boundary(self.bytes@, start as int);
        }
        // Integer part
        self.skip_digits(true);
        // Check for float
        let is_float = self.peek() == Some('.' as u8) && match self.peek_nth(1) {
            Some(c) => '0' as u8 <= c && c <= '9' as u8,
            None => false,
        };
        if is_float {
            self.advance_ascii(); // consume '.'
            // Fractional part
            self.skip_digits(true);
            // Exponent
            if self.peek() == Some('e' as u8) || self.peek() == Some('E' as u8) {
                self.advance_ascii();
                // Optional sign
                if self.peek() == Some('+' as u8) || self.peek() == Some('-' as u8) {
                    self.advance_ascii();
                }
                // Exponent digits
                self.skip_digits(false);
            }
            self.token(TokenKind::FloatLiteral, start)
        } else {
            self.token(TokenKind::IntLiteral, start)
        }
    }

    // --- Colors ---

    fn lex_color(&mut self, start: usize) -> (t: Token)
        requires
            old(self).wf(),
            start == old(self).current_pos,
            start < old(self).bytes@.len(),
            old(self).bytes@[start as int] == '#' as u8,
        ensures
            final(self).wf(),
            final(self).at_boundary(),
            final(self).extends(old(self)),
            final(self).template_depth == old(self).template_depth,
            token_of(final(self).bytes@, t),
            t.span.start == start,
            t.span.end == final(self).current_pos,
            t.kind is Error ==> final(self).diagnostics@.len() > old(self).diagnostics@.len(),
            t.span.end == hex_end(old(self).bytes@, start + 1),
            t.kind == color_kind(old(self).bytes@, start as int),
            t.kind is Error ==> reported_code(old(self).diagnostics@, final(self).diagnostics@, "E0105"@, start as int, t.span.end as int),
            !(t.kind is Error) ==> t.kind is ColorLiteral && final(self).diagnostics@ == old(self).diagnostics@,
    {
        proof {
            reveal_strlit("E0105");
        }
        proof {
            lemma_ascii_boundary(self.bytes@, start as int);
        }
        self.advance_ascii(); // '#'

        // Count hex digits
        let hex_start = self.current_pos;
        while self.current_pos < self.bytes.len()
            && (('0' as u8 <= self.bytes[self.current_pos] && self.bytes[self.current_pos] <= '9' as u8)
                || ('a' as u8 <= self.bytes[self.current_pos] && self.bytes[self.current_pos] <= 'f' as u8)
                || ('A' as u8 <= self.bytes[self.current_pos] && self.bytes[self.current_pos] <= 'F' as u8))
            invariant
                self.wf(),
                self.at_boundary(),
                self.moved(old(self)),
                hex_start == start + 1,
                self.current_pos >= hex_start,
                hex_end(old(self).bytes@, start + 1) == hex_end(self.bytes@, self.current_pos as int),
                forall|i: int| hex_start <= i < self.current_pos ==> #[trigger] is_hex_digit(self.bytes@[i]),
            decreases self.bytes@.len() - self.current_pos,
        {
            self.advance_ascii();
        }

        let hex_len = self.current_pos - hex_start;

        // Validate: must be exactly 6 (RGB) or 8 (RGBA) hex digits
        if hex_len != 6 && hex_len != 8 {
            let mut message = String::new();
            push_str(&mut message, "color literal must have 6 or 8 hex digits, found ");
            push_decimal(&mut message, hex_len);
            self.report(message.as_str(), start, "E0105", Some("use #RRGGBB or #RRGGBBAA format"));
            return self.token(TokenKind::Error, start);
        }
        proof {
            let text = self.bytes@.subrange(start as int, self.current_pos as int);
            assert forall|i: int| 1 <= i < text.len() implies #[trigger] is_hex_digit(text[i]) by {
                assert(text[i] == self.bytes@[start + i]);
            }
        }
        self.token(TokenKind::ColorLiteral, start)
    }

    // --- Strings ---

    /// Step over a backslash and the byte it escapes.
    fn skip_escape(&mut self)
        requires
            old(self).wf(),
            old(self).current_pos < old(self).bytes@.len(),
            old(self).bytes@[old(self).current_pos as int] == '\\' as u8,
        ensures
            final(self).wf(),
            final(self).moved(old(self)),
            final(self).current_pos > old(self).current_pos,
            final(self).current_pos == if old(self).current_pos + 1 < old(self).bytes@.len() {
                old(self).current_pos + 2
            } else {
                old(self).current_pos + 1
            },
    {
        self.advance();
        // Skip escaped character
        if self.peek().is_some() {
            self.advance();
        }
    }

    fn lex_string(&mut self, start: usize) -> (t: Token)
        requires
            old(self).wf(),
            start == old(self).current_pos,
            start < old(self).bytes@.len(),
            old(self).bytes@[start as int] == '"' as u8,
        ensures
            final(self).wf(),
            final(self).at_boundary(),
            final(self).extends(old(self)),
            token_of(final(self).bytes@, t),
            t.span.start == start,
            t.span.end == final(self).current_pos,
            t.kind is Error ==> final(self).diagnostics@.len() > old(self).diagnostics@.len(),
            t.kind is Error ==> reported_code(old(self).diagnostics@, final(self).diagnostics@, "E0102"@, start as int, t.span.end as int),
            !(t.kind is Error) ==> final(self).diagnostics@ == old(self).diagnostics@,
            (t.span.end as int, t.kind) == string_scan(old(self).bytes@, start + 1),
    {
        proof {
            reveal_strlit("E0102");
        }
        proof {
            lemma_ascii_boundary(self.bytes@, start as int);
        }
        self.advance_ascii(); // opening '"'
        loop
            invariant
                string_scan(old(self).bytes@, start + 1) == string_scan(self.bytes@, self.current_pos as int),
                self.wf(),
                self.moved(old(self)),
                start == old(self).current_pos,
                self.bytes@[start as int] == '"' as u8,
                is_char_boundary(self.bytes@, start as int),
                self.current_pos > start,
            decreases self.bytes@.len() - self.current_pos,
        {
            let c = self.peek();
            if c == Some('"' as u8) {
                self.advance_ascii();
                return self.token(TokenKind::StringLiteral, start);
            } else if c == Some('\\' as u8) {
                self.skip_escape();
            } else if c == Some('$' as u8) && self.peek_nth(1) == Some('{' as u8) {
                // Consume the ${ so the parser can read the interpolated expression
                self.advance_ascii(); // '$'
                self.advance_ascii(); // '{'
                // Track that we're inside a string template
                self.template_depth = self.template_depth + 1;
                return self.token(TokenKind::StringTemplateStart, start);
            } else if c == Some('\n' as u8) || c.is_none() {
                proof {
                    if self.current_pos < self.bytes@.len() {
                        lemma_ascii_boundary(self.bytes@, self.current_pos as int);
                    } else {
                        is_char_boundary_start_end_of_seq(self.bytes@);
                    }
                }
                self.report("unterminated string literal", start, "E0102", None);
                return self.token(TokenKind::Error, start);
            } else {
                self.advance();
            }
        }
    }

    /// Continue lexing a string template after an interpolation
    fn lex_string_template_continue(&mut self, start: usize) -> (t: Token)
        requires
            old(self).wf(),
            start == old(self).current_pos,
            start < old(self).bytes@.len(),
            old(self).bytes@[start as int] == '}' as u8,
            old(self).template_depth > 0,
        ensures
            final(self).wf(),
            final(self).at_boundary(),
            final(self).extends(old(self)),
            token_of(final(self).bytes@, t),
            t.span.start == start,
            t.span.end == final(self).current_pos,
            t.kind is Error ==> final(self).diagnostics@.len() > old(self).diagnostics@.len(),
            t.kind is StringTemplateMiddle || t.kind is StringTemplateEnd || t.kind is Error,
            t.kind is Error ==> reported_code(old(self).diagnostics@, final(self).diagnostics@, "E0102"@, start as int, t.span.end as int),
            !(t.kind is Error) ==> final(self).diagnostics@ == old(self).diagnostics@,
            t.span.end == string_scan(old(self).bytes@, start + 1).0,
            t.kind == resumed_kind(string_scan(old(self).bytes@, start + 1).1),
    {
        proof {
            reveal_strlit("E0102");
        }
        proof {
            lemma_ascii_boundary(self.bytes@, start as int);
        }
        // We're at the '}' that ends an interpolation
        self.advance_ascii();
        loop
            invariant
                self.wf(),
                self.moved(old(self)),
                start == old(self).current_pos,
                self.bytes@[start as int] == '}' as u8,
                is_char_boundary(self.bytes@, start as int),
                self.current_pos > start,
                self.template_depth > 0,
                string_scan(old(self).bytes@, start + 1) == string_scan(self.bytes@, self.current_pos as int),
            decreases self.bytes@.len() - self.current_pos,
        {
            let c = self.peek();
            if c == Some('"' as u8) {
                self.advance_ascii();
                // We're exiting the string template
                self.template_depth = self.template_depth - 1;
                return self.token(TokenKind::StringTemplateEnd, start);
            } else if c == Some('\\' as u8) {
                self.skip_escape();
            } else if c == Some('$' as u8) && self.peek_nth(1) == Some('{' as u8) {
                // Consume the ${ so the parser can read the next interpolated expression;
                // the depth stays: this is still the same string template
                self.advance_ascii(); // '$'
                self.advance_ascii(); // '{'
                return self.token(TokenKind::StringTemplateMiddle, start);
            } else if c == Some('\n' as u8) || c.is_none() {
                proof {
                    if self.current_pos < self.bytes@.len() {
                        lemma_ascii_boundary(self.bytes@, self.current_pos as int);
                    } else {
                        is_char_boundary_start_end_of_seq(self.bytes@);
                    }
                }
                self.report("unterminated string template", start, "E0102", None);
                // Clean up template depth on error
                self.template_depth = self.template_depth - 1;
                return self.token(TokenKind::Error, start);
            } else {
                self.advance();
            }
        }
    }

    // --- Layout blocks ---

    /// Lex a triple-quoted layout block: """layout ... """
    fn lex_layout_block(&mut self, start: usize) -> (t: Token)
        requires
            old(self).wf(),
            start == old(self).current_pos,
            start + 2 < old(self).bytes@.len(),
            old(self).bytes@[start as int] == '"' as u8,
            old(self).bytes@[start + 1] == '"' as u8,
            old(self).bytes@[start + 2] == '"' as u8,
        ensures
            final(self).wf(),
            final(self).at_boundary(),
            final(self).extends(old(self)),
            final(self).template_depth == old(self).template_depth,
            token_of(final(self).bytes@, t),
            t.span.start == start,
            t.span.end == final(self).current_pos,
            t.kind is Error ==> final(self).diagnostics@.len() > old(self).diagnostics@.len(),
    {
        proof {
            lemma_ascii_boundary(self.bytes@, start as int);
        }
        // Consume opening """
        self.advance_ascii();
        self.advance_ascii();
        self.advance_ascii();

        // Check for block type identifier (must be "layout")
        let block_type_start = self.current_pos;
        while self.current_pos < self.bytes.len()
            && (('a' as u8 <= self.bytes[self.current_pos] && self.bytes[self.current_pos] <= 'z' as u8)
                || ('A' as u8 <= self.bytes[self.current_pos] && self.bytes[self.current_pos] <= 'Z' as u8)
                || self.bytes[self.current_pos] == '_' as u8)
            invariant
                self.wf(),
                self.at_boundary(),
                self.moved(old(self)),
                block_type_start == start + 3,
                self.current_pos >= block_type_start,
            decreases self.bytes@.len() - self.current_pos,
        {
            self.advance_ascii();
        }
        proof {
            lemma_ascii_next_boundary(self.bytes@, start + 2);
        }
        let block_type = substr(self.source, block_type_start, self.current_pos);

        if !str_eq(block_type, "layout") {
            let mut message = String::new();
            push_str(&mut message, "unknown triple-quoted block type '");
            push_str(&mut message, block_type);
            push_str(&mut message, "', expected 'layout'");
            self.report(
                message.as_str(),
                block_type_start,
                "E0107",
                Some("triple-quoted blocks must start with 'layout'"),
            );
            // Continue to consume until closing """ for recovery
        }

        // Scan content until closing """
        loop
            invariant
                self.wf(),
                self.extends(old(self)),
                self.template_depth == old(self).template_depth,
                start == old(self).current_pos,
                self.bytes@[start as int] == '"' as u8,
                self.bytes@[start + 1] == '"' as u8,
                self.bytes@[start + 2] == '"' as u8,
                is_char_boundary(self.bytes@, start as int),
                self.current_pos >= start + 3,
            decreases self.bytes@.len() - self.current_pos,
        {
            let c = self.peek();
            if c == Some('"' as u8) {
                // Check for closing """
                if self.peek_nth(1) == Some('"' as u8) && self.peek_nth(2) == Some('"' as u8) {
                    let close = self.current_pos;
                    self.advance_ascii();
                    self.advance_ascii();
                    self.advance_ascii();
                    proof {
                        let text = self.bytes@.subrange(start as int, self.current_pos as int);
                        assert(text[text.len() - 3] == self.bytes@[close as int]);
                        assert(text[text.len() - 2] == self.bytes@[close + 1]);
                        assert(text[text.len() - 1] == self.bytes@[close + 2]);
                    }
                    return self.token(TokenKind::LayoutBlock, start);
                }
                // Not a closing """, just a regular " in content
                self.advance_ascii();
            } else if c.is_some() {
                self.advance();
            } else {
                // Unclosed block
                proof {
                    is_char_boundary_start_end_of_seq(self.bytes@);
                }
                self.report(
                    "unterminated layout block",
                    start,
                    "E0108",
                    Some("layout blocks must end with \"\"\""),
                );
                return self.token(TokenKind::Error, start);
            }
        }
    }

    // --- Identifiers and keywords ---

    fn lex_identifier(&mut self, start: usize) -> (t: Token)
        requires
            old(self).wf(),
            start == old(self).current_pos,
            start < old(self).bytes@.len(),
            is_ident_start(old(self).bytes@[start as int]),
        ensures
            final(self).wf(),
            final(self).at_boundary(),
            final(self).moved(old(self)),
            token_of(final(self).bytes@, t),
            t.span.start == start,
            t.span.end == final(self).current_pos,
            t.kind is Identifier || t.kind.spec_is_keyword(),
            t.kind == word_kind(decode_utf8(final(self).bytes@.subrange(start as int, t.span.end as int))),
    {
        proof {
            lemma_ascii_boundary(self.bytes@, start as int);
        }
        self.advance_ascii();
        while self.current_pos < self.bytes.len()
            && (('a' as u8 <= self.bytes[self.current_pos] && self.bytes[self.current_pos] <= 'z' as u8)
                || ('A' as u8 <= self.bytes[self.current_pos] && self.bytes[self.current_pos] <= 'Z' as u8)
                || ('0' as u8 <= self.bytes[self.current_pos] && self.bytes[self.current_pos] <= '9' as u8)
                || self.bytes[self.current_pos] == '_' as u8)
            invariant
                self.wf(),
                self.at_boundary(),
                self.moved(old(self)),
                start == old(self).current_pos,
                self.current_pos > start,
                forall|i: int| start < i < self.current_pos ==> #[trigger] is_ident_char(self.bytes@[i]),
            decreases self.bytes@.len() - self.current_pos,
        {
            self.advance_ascii();
        }

        let text = substr(self.source, start, self.current_pos);
        proof {
            encode_utf8_decode_utf8(text@);
            let sub = self.bytes@.subrange(start as int, self.current_pos as int);
            assert(sub == text.spec_bytes());
            assert forall|i: int| 1 <= i < sub.len() implies #[trigger] is_ident_char(sub[i]) by {
                assert(sub[i] == self.bytes@[start + i]);
            }
        }
        let kind = match TokenKind::keyword_from_str(text) {
            Some(k) => k,
            None => TokenKind::Identifier,
        };
        self.token(kind, start)
    }
}

} // verus!
