//! Parser for Frel: a hand-written recursive descent parser with Pratt parsing
//! for expressions, error recovery by synchronization, and multiple error
//! reporting.
//!
//! Every parsing function keeps the parser's invariant, never moves back,
//! and only adds diagnostics; a function that gives up (returns `None`) has
//! reported why. Recursion is bounded by the tokens left to read.

mod arena;
mod backend;
mod blueprint;
mod common;
mod contract;
mod enum_decl;
mod expr;
pub mod layout;
mod scheme;
mod theme;
mod types;

use vstd::prelude::*;
use vstd::string::*;
use crate::ast;
use crate::diagnostic::{Diagnostic, Diagnostics, Label};
use crate::lexer::contextual::{ARENA, BACKEND, BLUEPRINT, CONTRACT, ENUM, IMPORT, MODULE, SCHEME, THEME};
use crate::lexer::spec::{token_of, token_stream, tokens_cover};
use crate::lexer::scan::kind_fits;
use crate::lexer::token::is_top_level_start_spec;
use crate::lexer::{Lexer, Token, TokenKind};
use crate::source::{span_chars, Span};
use crate::text::{push_char, push_str, str_eq, to_string};
use self::types::{kind_at, lemma_after_token, token_text};

verus! {

/// Parser state
pub struct Parser<'a> {
    source: &'a str,
    tokens: Vec<Token>,
    cursor: usize,
    /// Span of the token consumed last
    previous: Span,
    diagnostics: Diagnostics,
}

/// Result of parsing - either success or failure with partial AST
pub struct ParseResult {
    pub file: Option<ast::FaFile>,
    pub diagnostics: Diagnostics,
}

/// The index of the first token at or after `i` that is not a line break.
pub open spec fn skip_line_breaks(ts: Seq<Token>, i: int) -> int
    decreases ts.len() - i,
{
    if 0 <= i < ts.len() && ts[i].kind is Newline {
        skip_line_breaks(ts, i + 1)
    } else {
        i
    }
}

/// Where the cursor goes when the token at `i` is consumed: past it and any
/// line breaks after it (the end of input is never passed).
pub open spec fn after_token(ts: Seq<Token>, i: int) -> int {
    if 0 <= i < ts.len() && ts[i].kind is Eof {
        i
    } else {
        skip_line_breaks(ts, i + 1)
    }
}

/// Skipping line breaks never moves back, and stops at a token that is no
/// line break or at the end.
pub proof fn lemma_skip_line_breaks(ts: Seq<Token>, i: int)
    ensures
        skip_line_breaks(ts, i) >= i,
        0 <= i ==> (skip_line_breaks(ts, i) >= ts.len() || !(ts[skip_line_breaks(ts, i)].kind is Newline)),
        0 <= i && ts.len() >= 1 && ts.last().kind is Eof && i < ts.len() ==> skip_line_breaks(ts, i) < ts.len(),
        i <= ts.len() ==> skip_line_breaks(ts, i) <= ts.len(),
    decreases ts.len() - i,
{
    if 0 <= i < ts.len() && ts[i].kind is Newline {
        lemma_skip_line_breaks(ts, i + 1);
    }
}

/// Where a dotted module path (`a.b.c`) that starts at token `j` ends;
/// `None` where a name is missing after a dot.
pub open spec fn module_path_end(ts: Seq<Token>, j: int) -> Option<int>
    decreases ts.len() - j,
{
    if kind_at(ts, j, TokenKind::Identifier) {
        proof {
            lemma_after_token(ts, j);
        }
        let a = after_token(ts, j);
        if kind_at(ts, a, TokenKind::Dot) {
            proof {
                lemma_after_token(ts, a);
            }
            module_path_end(ts, after_token(ts, a))
        } else {
            Some(a)
        }
    } else {
        None
    }
}

/// The names of the dotted module path at token `j`, joined by dots.
pub open spec fn module_path_text(src: &str, ts: Seq<Token>, j: int) -> Seq<char>
    decreases ts.len() - j,
{
    if kind_at(ts, j, TokenKind::Identifier) {
        proof {
            lemma_after_token(ts, j);
        }
        let a = after_token(ts, j);
        if kind_at(ts, a, TokenKind::Dot) {
            proof {
                lemma_after_token(ts, a);
            }
            token_text(src, ts, j) + seq!['.'] + module_path_text(src, ts, after_token(ts, a))
        } else {
            token_text(src, ts, j)
        }
    } else {
        Seq::empty()
    }
}

/// Where a dotted path that starts at token `j` has a name missing (at `j`,
/// or after a dot); the token where parsing the path gives up.
pub open spec fn path_failure(ts: Seq<Token>, j: int) -> int
    decreases ts.len() - j,
{
    if kind_at(ts, j, TokenKind::Identifier) {
        proof {
            lemma_after_token(ts, j);
        }
        let a = after_token(ts, j);
        if kind_at(ts, a, TokenKind::Dot) {
            proof {
                lemma_after_token(ts, a);
            }
            path_failure(ts, after_token(ts, a))
        } else {
            a
        }
    } else {
        j
    }
}

/// The names of the dotted path at token `j`, in order.
pub open spec fn path_parts(src: &str, ts: Seq<Token>, j: int) -> Seq<Seq<char>>
    decreases ts.len() - j,
{
    if kind_at(ts, j, TokenKind::Identifier) {
        proof {
            lemma_after_token(ts, j);
        }
        let a = after_token(ts, j);
        seq![token_text(src, ts, j)] + if kind_at(ts, a, TokenKind::Dot) {
            proof {
                lemma_after_token(ts, a);
            }
            path_parts(src, ts, after_token(ts, a))
        } else {
            Seq::empty()
        }
    } else {
        Seq::empty()
    }
}

/// Names joined by dots.
pub open spec fn join_dots(parts: Seq<Seq<char>>) -> Seq<char>
    decreases parts.len(),
{
    if parts.len() == 0 {
        Seq::empty()
    } else if parts.len() == 1 {
        parts[0]
    } else {
        join_dots(parts.drop_last()) + seq!['.'] + parts.last()
    }
}

/// A path that parses ends after where it starts, within the tokens; one
/// that does not gives up at or after where it starts.
pub proof fn lemma_path_bounds(ts: Seq<Token>, j: int)
    requires
        0 <= j <= ts.len(),
    ensures
        module_path_end(ts, j) matches Some(k) ==> j < k <= ts.len(),
        j <= path_failure(ts, j) <= ts.len(),
    decreases ts.len() - j,
{
    if kind_at(ts, j, TokenKind::Identifier) {
        lemma_after_token(ts, j);
        let a = after_token(ts, j);
        if kind_at(ts, a, TokenKind::Dot) {
            lemma_after_token(ts, a);
            lemma_path_bounds(ts, after_token(ts, a));
        }
    }
}

/// Where recovery after an error stops, from token `p`: at the end of input
/// or at the next token that starts a top-level declaration.
pub open spec fn sync_end(src: &str, ts: Seq<Token>, p: int) -> int
    decreases ts.len() - p,
{
    if 0 <= p < ts.len() && !(ts[p].kind is Eof) && !(ts[p].kind is Identifier && is_top_level_start_spec(
        token_text(src, ts, p),
    )) {
        proof {
            lemma_after_token(ts, p);
        }
        sync_end(src, ts, after_token(ts, p))
    } else {
        p
    }
}

/// Recovery never moves back, nor past the end.
pub proof fn lemma_sync_end_bounds(src: &str, ts: Seq<Token>, p: int)
    requires
        0 <= p <= ts.len(),
    ensures
        p <= sync_end(src, ts, p) <= ts.len(),
    decreases ts.len() - p,
{
    if 0 <= p < ts.len() && !(ts[p].kind is Eof) && !(ts[p].kind is Identifier && is_top_level_start_spec(
        token_text(src, ts, p),
    )) {
        lemma_after_token(ts, p);
        lemma_sync_end_bounds(src, ts, after_token(ts, p));
    }
}

/// Whether token `i` is the name `w`.
pub open spec fn word_at(src: &str, ts: Seq<Token>, i: int, w: Seq<char>) -> bool {
    kind_at(ts, i, TokenKind::Identifier) && token_text(src, ts, i) == w
}

/// The imports (module path, then name) that the `import` statements from
/// token `c` on give. After an import that does not parse, recovery skips
/// to the next declaration, past any further imports.
pub open spec fn imports_from(src: &str, ts: Seq<Token>, c: int) -> Seq<(Seq<char>, Seq<char>)>
    decreases ts.len() - c,
{
    if 0 <= c && word_at(src, ts, c, IMPORT@) {
        proof {
            lemma_after_token(ts, c);
            lemma_path_bounds(ts, after_token(ts, c));
        }
        let a = after_token(ts, c);
        match module_path_end(ts, a) {
            Some(k) => {
                let parts = path_parts(src, ts, a);
                seq![(join_dots(parts.drop_last()), parts.last())] + imports_from(src, ts, k)
            },
            None => {
                proof {
                    lemma_sync_end_bounds(src, ts, path_failure(ts, a));
                }
                imports_from(src, ts, sync_end(src, ts, path_failure(ts, a)))
            },
        }
    } else {
        Seq::empty()
    }
}

/// Where the `import` statements from token `c` on end (recovery included,
/// as `imports_from` reads them).
pub open spec fn imports_end(src: &str, ts: Seq<Token>, c: int) -> int
    decreases ts.len() - c,
{
    if 0 <= c && word_at(src, ts, c, IMPORT@) {
        proof {
            lemma_after_token(ts, c);
            lemma_path_bounds(ts, after_token(ts, c));
        }
        let a = after_token(ts, c);
        match module_path_end(ts, a) {
            Some(k) => imports_end(src, ts, k),
            None => {
                proof {
                    lemma_sync_end_bounds(src, ts, path_failure(ts, a));
                }
                imports_end(src, ts, sync_end(src, ts, path_failure(ts, a)))
            },
        }
    } else {
        c
    }
}

/// Whether `d` is a declaration that starts at token `i`: its keyword
/// stands there and its name follows.
pub open spec fn decl_at(src: &str, ts: Seq<Token>, i: int, d: ast::FaTopLevelDecl) -> bool {
    let name = token_text(src, ts, after_token(ts, i));
    match d {
        ast::FaTopLevelDecl::Blueprint(x) => word_at(src, ts, i, BLUEPRINT@) && x.name@ == name,
        ast::FaTopLevelDecl::Backend(x) => word_at(src, ts, i, BACKEND@) && x.name@ == name,
        ast::FaTopLevelDecl::Contract(x) => word_at(src, ts, i, CONTRACT@) && x.name@ == name,
        ast::FaTopLevelDecl::Scheme(x) => word_at(src, ts, i, SCHEME@) && x.name@ == name,
        ast::FaTopLevelDecl::Enum(x) => word_at(src, ts, i, ENUM@) && x.name@ == name,
        ast::FaTopLevelDecl::Theme(x) => word_at(src, ts, i, THEME@) && x.name@ == name,
        ast::FaTopLevelDecl::Arena(x) => word_at(src, ts, i, ARENA@) && x.name@ == name,
    }
}

/// The declarations were read, in order, at the tokens `origin` gives, from
/// token `from` on.
pub open spec fn decls_from(origin: Seq<int>, src: &str, ts: Seq<Token>, from: int, decls: Seq<ast::FaTopLevelDecl>) -> bool {
    &&& origin.len() == decls.len()
    &&& forall|k: int| 0 <= k < origin.len() ==> from <= #[trigger] origin[k] && decl_at(src, ts, origin[k], decls[k])
    &&& forall|k: int, m: int| 0 <= k < m < origin.len() ==> origin[k] < origin[m]
}

/// Where the declarations of a file start: after its module declaration
/// (at the first token at or after `c` that is no line break) and imports.
pub open spec fn decls_start(src: &str, ts: Seq<Token>, c: int) -> int {
    let s = skip_line_breaks(ts, c);
    match module_path_end(ts, after_token(ts, s)) {
        Some(k) => imports_end(src, ts, k),
        None => c,
    }
}

/// The module paths and names of imports.
pub open spec fn imports_view(imports: Seq<ast::FaImport>) -> Seq<(Seq<char>, Seq<char>)> {
    imports.map_values(|i: ast::FaImport| (i.module@, i.name@))
}

/// The imports after the module declaration at the first token at or after
/// `c` that is no line break.
pub open spec fn declared_imports(src: &str, ts: Seq<Token>, c: int) -> Seq<(Seq<char>, Seq<char>)> {
    let s = skip_line_breaks(ts, c);
    match module_path_end(ts, after_token(ts, s)) {
        Some(k) => imports_from(src, ts, k),
        None => Seq::empty(),
    }
}

/// The module that the declaration `module a.b.c` at the first token at or
/// after `c` that is no line break names; `None` where there is no such
/// declaration.
pub open spec fn declared_module(src: &str, ts: Seq<Token>, c: int) -> Option<Seq<char>> {
    let s = skip_line_breaks(ts, c);
    if kind_at(ts, s, TokenKind::Identifier) && token_text(src, ts, s) == MODULE@ && module_path_end(
        ts,
        after_token(ts, s),
    ) is Some {
        Some(module_path_text(src, ts, after_token(ts, s)))
    } else {
        None
    }
}

/// Whether a token after a name continues an expression: a field access,
/// an optional chain or a binary or conditional operator (as opposed to,
/// say, the brace of a fragment creation).
pub open spec fn continues_expression(kind: TokenKind) -> bool {
    ||| kind is Dot
    ||| kind is QuestionDot
    ||| kind is Plus
    ||| kind is Minus
    ||| kind is Star
    ||| kind is Slash
    ||| kind is Percent
    ||| kind is StarStar
    ||| kind is EqEq
    ||| kind is BangEq
    ||| kind is Lt
    ||| kind is LtEq
    ||| kind is Gt
    ||| kind is GtEq
    ||| kind is AmpAmp
    ||| kind is PipePipe
    ||| kind is Question
    ||| kind is QuestionColon
}

impl<'a> Parser<'a> {
    /// The token stream ends with `Eof`, the cursor is on a token, and every
    /// token is a token of the source text.
    spec fn wf(&self) -> bool {
        &&& self.source.spec_bytes().len() < u32::MAX
        &&& self.tokens@.len() >= 1
        &&& self.tokens@.last().kind is Eof
        &&& self.cursor < self.tokens@.len()
        &&& forall|i: int| 0 <= i < self.tokens@.len() ==> token_of(self.source.spec_bytes(), #[trigger] self.tokens@[i])
    }

    /// The parser's invariant, as the crate's users see it.
    pub closed spec fn well_formed(&self) -> bool {
        self.wf()
    }

    /// The diagnostics reported so far.
    pub closed spec fn reported_so_far(&self) -> Seq<Diagnostic> {
        self.diagnostics@
    }

    /// The module that the remaining input declares first, if it does.
    pub closed spec fn module_name(&self) -> Option<Seq<char>> {
        declared_module(self.source, self.tokens@, self.cursor as int)
    }

    /// The imports (module path, then name) that follow that module
    /// declaration.
    pub closed spec fn imports(&self) -> Seq<(Seq<char>, Seq<char>)> {
        declared_imports(self.source, self.tokens@, self.cursor as int)
    }

    /// The index of the token the parser is at.
    pub closed spec fn position(&self) -> int {
        self.cursor as int
    }

    /// The source text being parsed.
    pub closed spec fn source_text(&self) -> &'a str {
        self.source
    }

    /// The closed views are the parser's fields.
    proof fn lemma_views(&self)
        ensures
            self.source_text() == self.source,
            self.position() == self.cursor,
            self.token_seq() == self.tokens@,
            self.reported_so_far() == self.diagnostics@,
    {
    }

    /// Where the declarations of the remaining input start, after its
    /// module declaration and imports.
    pub closed spec fn decls_begin(&self) -> int {
        decls_start(self.source, self.tokens@, self.cursor as int)
    }

    /// The token stream being parsed.
    pub closed spec fn token_seq(&self) -> Seq<Token> {
        self.tokens@
    }

    /// The tokens not yet consumed.
    spec fn remaining(&self) -> int {
        self.tokens@.len() - self.cursor
    }

    spec fn cur(&self) -> Token {
        self.tokens@[self.cursor as int]
    }

    /// Same input, cursor not moved back, diagnostics only added.
    spec fn progress(&self, old: &Self) -> bool {
        &&& self.wf()
        &&& self.source == old.source
        &&& self.tokens@ == old.tokens@
        &&& self.cursor >= old.cursor
        &&& self.diagnostics@.len() >= old.diagnostics@.len()
    }

    /// At least one token was consumed.
    spec fn moved(&self, old: &Self) -> bool {
        self.cursor > old.cursor
    }

    /// At least one diagnostic was added.
    spec fn reported(&self, old: &Self) -> bool {
        self.diagnostics@.len() > old.diagnostics@.len()
    }

    /// Whether the current token is the identifier `word`.
    spec fn at_word(&self, word: Seq<char>) -> bool {
        &&& self.cur().kind is Identifier
        &&& span_chars(self.source, self.cur().span) == word
    }

    /// Create a new parser from source code
    pub fn new(source: &'a str) -> (r: Self)
        requires
            source.spec_bytes().len() < u32::MAX,
        ensures
            r.well_formed(),
            r.position() == 0,
            r.source_text() == source,
            token_stream(source.spec_bytes(), r.token_seq(), r.reported_so_far()),
            tokens_cover(source.spec_bytes(), 0, r.token_seq()),
            forall|i: int| 0 <= i < r.token_seq().len() ==> kind_fits(source.spec_bytes(), #[trigger] r.token_seq()[i]),
            r.module_name() == declared_module(source, r.token_seq(), 0),
            r.imports() == declared_imports(source, r.token_seq(), 0),
    {
        let lexer = Lexer::new(source);
        let (tokens, lex_diags) = lexer.tokenize();
        Parser { source, tokens, cursor: 0, previous: Span::new(0, 0), diagnostics: lex_diags }
    }

    /// Parse the source and return the AST with diagnostics; where no file
    /// comes back, a diagnostic says why.
    pub fn parse(self) -> (r: ParseResult)
        requires
            self.well_formed(),
        ensures
            r.file.is_none() ==> r.diagnostics@.len() > self.reported_so_far().len(),
            r.diagnostics@.len() >= self.reported_so_far().len(),
            r.file.is_some() == self.module_name().is_some(),
            r.file matches Some(f) ==> Some(f.module@) == self.module_name(),
            r.file matches Some(f) ==> imports_view(f.imports@) == self.imports(),
            r.file matches Some(f) ==> exists|origin: Seq<int>| decls_from(
                origin,
                self.source_text(),
                self.token_seq(),
                self.decls_begin(),
                f.declarations@,
            ),
            r.file matches Some(f) ==> (f.declarations@.len() == 0 && !kind_at(
                self.token_seq(),
                self.decls_begin(),
                TokenKind::Eof,
            ) ==> r.diagnostics@.len() > self.reported_so_far().len()),
    {
        let mut parser = self;
        let file = parser.parse_file();
        let ghost g = file;
        let r = ParseResult { file, diagnostics: parser.diagnostics };
        proof {
            assert(r.file == g);
            if let Some(f) = g {
                let o = choose|o: Seq<int>| decls_from(o, self.source, self.tokens@, decls_start(self.source, self.tokens@, self.cursor as int), f.declarations@);
                assert(decls_from(o, self.source_text(), self.token_seq(), self.decls_begin(), f.declarations@));
            }
        }
        r
    }

    // =========================================================================
    // Token operations
    // =========================================================================

    /// Get the current token
    fn current(&self) -> (r: &Token)
        requires
            self.wf(),
        ensures
            *r == self.cur(),
    {
        &self.tokens[self.cursor]
    }

    /// Get the current token kind
    fn current_kind(&self) -> (r: TokenKind)
        requires
            self.wf(),
        ensures
            r == self.cur().kind,
    {
        self.tokens[self.cursor].kind
    }

    /// Get the current span
    fn current_span(&self) -> (r: Span)
        requires
            self.wf(),
        ensures
            r == self.cur().span,
    {
        self.tokens[self.cursor].span
    }

    /// Span of the token consumed last
    fn previous_span(&self) -> (r: Span) {
        self.previous
    }

    /// Peek at the next token (after current)
    fn peek(&self) -> (r: Option<&Token>)
        requires
            self.wf(),
        ensures
            r == if self.cursor + 1 < self.tokens@.len() {
                Some(&self.tokens@[self.cursor + 1])
            } else {
                None::<&Token>
            },
    {
        self.peek_n(1)
    }

    /// Peek at token n positions ahead
    fn peek_n(&self, n: usize) -> (r: Option<&Token>)
        requires
            self.wf(),
        ensures
            r == if self.cursor + n < self.tokens@.len() {
                Some(&self.tokens@[self.cursor + n])
            } else {
                None::<&Token>
            },
    {
        if n < self.tokens.len() - self.cursor {
            Some(&self.tokens[self.cursor + n])
        } else {
            None
        }
    }

    /// Check if we're at the end of file
    fn at_end(&self) -> (r: bool)
        requires
            self.wf(),
        ensures
            r == (self.cur().kind is Eof),
    {
        matches!(self.current_kind(), TokenKind::Eof)
    }

    /// Check if the current token matches the expected kind
    fn check(&self, kind: TokenKind) -> (r: bool)
        requires
            self.wf(),
        ensures
            r == (self.cur().kind == kind),
    {
        self.current_kind() == kind
    }

    /// Check if any of the kinds match
    #[allow(dead_code)]
    fn check_any(&self, kinds: &[TokenKind]) -> (r: bool)
        requires
            self.wf(),
        ensures
            r == kinds@.contains(self.cur().kind),
    {
        let kind = self.current_kind();
        let mut i: usize = 0;
        while i < kinds.len()
            invariant
                i <= kinds@.len(),
                kind == self.cur().kind,
                forall|j: int| 0 <= j < i ==> kinds@[j] != kind,
            decreases kinds@.len() - i,
        {
            if kinds[i] == kind {
                return true;
            }
            i = i + 1;
        }
        false
    }

    /// Advance to the next token without skipping newlines, and return the
    /// previous one
    #[allow(dead_code)]
    fn advance_raw(&mut self) -> (r: Token)
        requires
            old(self).wf(),
        ensures
            final(self).progress(old(self)),
            final(self).diagnostics@ == old(self).diagnostics@,
            r == old(self).cur(),
            final(self).cursor == if old(self).cur().kind is Eof {
                old(self).cursor as int
            } else {
                old(self).cursor + 1
            },
    {
        let token = *self.current();
        if !self.at_end() {
            let n = self.tokens.len();
            proof {
                assert(self.cursor + 1 < n);
            }
            self.cursor = self.cursor + 1;
        }
        self.previous = token.span;
        token
    }

    /// Advance to the next token (skipping newlines) and return the previous one
    fn advance(&mut self) -> (r: Token)
        requires
            old(self).wf(),
        ensures
            final(self).progress(old(self)),
            final(self).diagnostics@ == old(self).diagnostics@,
            r == old(self).cur(),
            !(old(self).cur().kind is Eof) ==> final(self).moved(old(self)),
            final(self).cursor == after_token(old(self).tokens@, old(self).cursor as int),
    {
        let token = *self.current();
        if !self.at_end() {
            let n = self.tokens.len();
            proof {
                assert(self.cursor + 1 < n);
            }
            self.cursor = self.cursor + 1;
        }
        self.previous = token.span;
        // Skip newlines in most contexts
        self.skip_newlines();
        token
    }

    /// Skip newline tokens
    fn skip_newlines(&mut self)
        requires
            old(self).wf(),
        ensures
            final(self).progress(old(self)),
            final(self).diagnostics@ == old(self).diagnostics@,
            final(self).previous == old(self).previous,
            final(self).cursor == skip_line_breaks(old(self).tokens@, old(self).cursor as int),
    {
        while matches!(self.current_kind(), TokenKind::Newline)
            invariant
                self.progress(old(self)),
                self.diagnostics@ == old(self).diagnostics@,
                self.previous == old(self).previous,
                skip_line_breaks(self.tokens@, old(self).cursor as int) == skip_line_breaks(
                    self.tokens@,
                    self.cursor as int,
                ),
            decreases self.remaining(),
        {
            let n = self.tokens.len();
            proof {
                assert(self.cursor + 1 < n);
            }
            self.cursor = self.cursor + 1;
        }
    }

    /// Consume a token if it matches, otherwise return None
    fn consume(&mut self, kind: TokenKind) -> (r: Option<Token>)
        requires
            old(self).wf(),
        ensures
            final(self).progress(old(self)),
            final(self).diagnostics@ == old(self).diagnostics@,
            r.is_some() == (old(self).cur().kind == kind),
            r.is_some() && !(kind is Eof) ==> final(self).moved(old(self)),
            final(self).cursor == if r.is_some() {
                after_token(old(self).tokens@, old(self).cursor as int)
            } else {
                old(self).cursor as int
            },
    {
        if self.check(kind) {
            Some(self.advance())
        } else {
            None
        }
    }

    /// Expect a specific token, emit error if not found
    fn expect(&mut self, kind: TokenKind) -> (r: Option<Token>)
        requires
            old(self).wf(),
        ensures
            final(self).progress(old(self)),
            r.is_some() == (old(self).cur().kind == kind),
            r.is_some() && !(kind is Eof) ==> final(self).moved(old(self)),
            r.is_none() ==> final(self).reported(old(self)),
            r.is_some() ==> final(self).cursor == after_token(old(self).tokens@, old(self).cursor as int),
    {
        if self.check(kind) {
            Some(self.advance())
        } else {
            self.error_expected(kind.display_name());
            None
        }
    }

    /// Expect an identifier, return its text
    fn expect_identifier(&mut self) -> (r: Option<String>)
        requires
            old(self).wf(),
        ensures
            final(self).progress(old(self)),
            r.is_some() ==> final(self).moved(old(self)),
            r.is_none() ==> final(self).reported(old(self)),
            r.is_some() == (old(self).cur().kind is Identifier),
            r matches Some(name) ==> {
                &&& name@ == span_chars(old(self).source, old(self).cur().span)
                &&& final(self).cursor == after_token(old(self).tokens@, old(self).cursor as int)
            },
            r.is_none() ==> final(self).cursor == old(self).cursor,
    {
        if self.check(TokenKind::Identifier) {
            let name = to_string(self.current_text());
            self.advance();
            Some(name)
        } else {
            self.error_expected("identifier");
            None
        }
    }

    /// Get the text of the current token
    fn current_text(&self) -> (r: &'a str)
        requires
            self.wf(),
        ensures
            r@ == span_chars(self.source, self.cur().span),
            r.spec_bytes() == self.source.spec_bytes().subrange(self.cur().span.start as int, self.cur().span.end as int),
    {
        proof {
            assert(token_of(self.source.spec_bytes(), self.tokens@[self.cursor as int]));
        }
        self.current_span().text(self.source)
    }

    /// Whether the current token is the identifier `word` (a contextual keyword)
    fn check_contextual(&self, word: &str) -> (r: bool)
        requires
            self.wf(),
        ensures
            r == self.at_word(word@),
    {
        self.check(TokenKind::Identifier) && str_eq(self.current_text(), word)
    }

    /// Expect the contextual keyword `word`, emit error if not found
    fn expect_contextual(&mut self, word: &str) -> (r: Option<Token>)
        requires
            old(self).wf(),
        ensures
            final(self).progress(old(self)),
            r.is_some() == old(self).at_word(word@),
            r.is_some() ==> final(self).moved(old(self)),
            r.is_some() ==> final(self).cursor == after_token(old(self).tokens@, old(self).cursor as int),
            r.is_none() ==> final(self).reported(old(self)),
    {
        if self.check_contextual(word) {
            Some(self.advance())
        } else {
            self.error_expected(word);
            None
        }
    }

    /// Whether the current token starts a top-level declaration
    fn is_top_level_start(&self) -> (r: bool)
        requires
            self.wf(),
        ensures
            r == (self.cur().kind is Identifier && is_top_level_start_spec(
                span_chars(self.source, self.cur().span),
            )),
    {
        self.check(TokenKind::Identifier) && TokenKind::is_top_level_start_str(self.current_text())
    }

    // =========================================================================
    // Error handling
    // =========================================================================

    fn add_error(&mut self, message: &str, code: &str)
        requires
            old(self).wf(),
        ensures
            final(self).progress(old(self)),
            final(self).cursor == old(self).cursor,
            final(self).diagnostics@.len() == old(self).diagnostics@.len() + 1,
    {
        let span = self.current_span();
        self.diagnostics.add(Diagnostic::error(message, span).with_code(code));
    }

    /// Report an "expected X" error
    fn error_expected(&mut self, what: &str)
        requires
            old(self).wf(),
        ensures
            final(self).progress(old(self)),
            final(self).cursor == old(self).cursor,
            final(self).diagnostics@.len() == old(self).diagnostics@.len() + 1,
    {
        let got = self.current_kind().display_name();
        let mut message = String::new();
        push_str(&mut message, "expected ");
        push_str(&mut message, what);
        push_str(&mut message, ", found ");
        push_str(&mut message, got);
        self.add_error(message.as_str(), "E0200");
    }

    /// Whether the token after the current one (a name) continues an
    /// expression: this tells `item.name` (an expression) from `item { }` (a
    /// fragment creation)
    #[allow(dead_code)]
    fn is_expression_continuation(&self) -> (r: bool)
        requires
            self.wf(),
        ensures
            r == (self.cursor + 1 < self.tokens@.len() && continues_expression(
                self.tokens@[self.cursor + 1].kind,
            )),
    {
        match self.peek() {
            Some(next) => match next.kind {
                TokenKind::Dot | TokenKind::QuestionDot | TokenKind::Plus | TokenKind::Minus | TokenKind::Star
                | TokenKind::Slash | TokenKind::Percent | TokenKind::StarStar | TokenKind::EqEq | TokenKind::BangEq
                | TokenKind::Lt | TokenKind::LtEq | TokenKind::Gt | TokenKind::GtEq | TokenKind::AmpAmp
                | TokenKind::PipePipe | TokenKind::Question | TokenKind::QuestionColon => true,
                _ => false,
            },
            None => false,
        }
    }

    /// Report an "expected X" error with a suggestion
    #[allow(dead_code)]
    fn error_expected_with_suggestion(&mut self, what: &str, suggestion: &str)
        requires
            old(self).wf(),
        ensures
            final(self).progress(old(self)),
            final(self).cursor == old(self).cursor,
            final(self).diagnostics@.len() == old(self).diagnostics@.len() + 1,
            final(self).diagnostics@.last().help matches Some(h) && h@ == suggestion@,
    {
        let span = self.current_span();
        let got = self.current_kind().display_name();
        let mut message = String::new();
        push_str(&mut message, "expected ");
        push_str(&mut message, what);
        push_str(&mut message, ", found ");
        push_str(&mut message, got);
        self.diagnostics.add(Diagnostic::error(message.as_str(), span).with_code("E0200").with_help(suggestion));
    }

    /// Report an unclosed delimiter error, pointing back to where it opened
    #[allow(dead_code)]
    fn error_unclosed(&mut self, what: &str, open_span: Span)
        requires
            old(self).wf(),
        ensures
            final(self).progress(old(self)),
            final(self).cursor == old(self).cursor,
            final(self).diagnostics@.len() == old(self).diagnostics@.len() + 1,
            final(self).diagnostics@.last().labels@.len() >= 1,
            final(self).diagnostics@.last().labels@.last().span == open_span,
    {
        let span = self.current_span();
        let mut message = String::new();
        push_str(&mut message, "unclosed ");
        push_str(&mut message, what);
        let mut label = String::new();
        push_str(&mut label, what);
        push_str(&mut label, " opened here");
        self.diagnostics.add(
            Diagnostic::error(message.as_str(), span).with_code("E0202").with_label(Label::new(open_span, label.as_str())),
        );
    }

    /// Report an unexpected token error
    fn error_unexpected(&mut self)
        requires
            old(self).wf(),
        ensures
            final(self).progress(old(self)),
            final(self).cursor == old(self).cursor,
            final(self).diagnostics@.len() == old(self).diagnostics@.len() + 1,
    {
        let kind = self.current_kind().display_name();
        let mut message = String::new();
        push_str(&mut message, "unexpected ");
        push_str(&mut message, kind);
        self.add_error(message.as_str(), "E0201");
    }

    /// Synchronize to the next top-level declaration
    fn synchronize_to_top_level(&mut self)
        requires
            old(self).wf(),
        ensures
            final(self).progress(old(self)),
            !(old(self).cur().kind is Eof) && !old(self).is_top_level_start_state() ==> final(self).moved(old(self)),
            final(self).cursor == sync_end(old(self).source, old(self).tokens@, old(self).cursor as int),
    {
        while !self.at_end()
            invariant
                self.progress(old(self)),
                sync_end(old(self).source, old(self).tokens@, old(self).cursor as int) == sync_end(
                    self.source,
                    self.tokens@,
                    self.cursor as int,
                ),
                !(old(self).cur().kind is Eof) && !old(self).is_top_level_start_state() && self.cursor
                    == old(self).cursor ==> !(self.cur().kind is Eof) && !self.is_top_level_start_state(),
            decreases self.remaining(),
        {
            if self.is_top_level_start() {
                return;
            }
            self.advance();
        }
    }

    spec fn is_top_level_start_state(&self) -> bool {
        self.cur().kind is Identifier && is_top_level_start_spec(span_chars(self.source, self.cur().span))
    }

    // =========================================================================
    // Top-level parsing
    // =========================================================================

    /// Parse a complete file
    fn parse_file(&mut self) -> (r: Option<ast::FaFile>)
        requires
            old(self).wf(),
        ensures
            final(self).progress(old(self)),
            r.is_none() ==> final(self).reported(old(self)),
            r.is_some() == declared_module(old(self).source, old(self).tokens@, old(self).cursor as int).is_some(),
            r matches Some(f) ==> Some(f.module@) == declared_module(
                old(self).source,
                old(self).tokens@,
                old(self).cursor as int,
            ),
            r matches Some(f) ==> imports_view(f.imports@) == declared_imports(
                old(self).source,
                old(self).tokens@,
                old(self).cursor as int,
            ),
            r matches Some(f) ==> exists|origin: Seq<int>| decls_from(
                origin,
                old(self).source,
                old(self).tokens@,
                decls_start(old(self).source, old(self).tokens@, old(self).cursor as int),
                f.declarations@,
            ),
            r matches Some(f) ==> (f.declarations@.len() == 0 && !kind_at(
                old(self).tokens@,
                decls_start(old(self).source, old(self).tokens@, old(self).cursor as int),
                TokenKind::Eof,
            ) ==> final(self).diagnostics@.len() > old(self).diagnostics@.len()),
    {
        self.skip_newlines();

        // Parse module declaration
        let module = self.parse_module_decl()?;

        // Parse imports
        let ghost ts = self.tokens@;
        let ghost src = self.source;
        let ghost k = self.cursor as int;
        let mut imports: Vec<ast::FaImport> = Vec::new();
        proof {
            assert(imports_view(imports@) + imports_from(src, ts, k) =~= imports_from(src, ts, k));
        }
        while self.check_contextual(IMPORT)
            invariant
                self.progress(old(self)),
                self.tokens@ == ts,
                self.source == src,
                imports_from(src, ts, k) == imports_view(imports@) + imports_from(src, ts, self.cursor as int),
                imports_end(src, ts, k) == imports_end(src, ts, self.cursor as int),
            decreases self.remaining(),
        {
            let ghost c = self.cursor as int;
            let ghost before = imports_view(imports@);
            proof {
                lemma_after_token(ts, c);
            }
            if let Some(import) = self.parse_import() {
                imports.push(import);
                proof {
                    assert(imports_view(imports@) =~= before.push((import.module@, import.name@)));
                    assert(imports_view(imports@) + imports_from(src, ts, self.cursor as int) =~= before + imports_from(
                        src,
                        ts,
                        c,
                    ));
                }
            } else {
                self.synchronize_to_top_level();
            }
        }
        proof {
            assert(imports_view(imports@) + Seq::<(Seq<char>, Seq<char>)>::empty() =~= imports_view(imports@));
        }

        // Parse declarations
        let ghost q = self.cursor as int;
        let ghost dq = self.diagnostics@.len();
        let ghost mut origin: Seq<int> = Seq::empty();
        proof {
            assert(q == imports_end(src, ts, k));
        }
        let mut declarations: Vec<ast::FaTopLevelDecl> = Vec::new();
        while !self.at_end()
            invariant
                self.progress(old(self)),
                self.tokens@ == ts,
                self.source == src,
                q <= self.cursor,
                dq >= old(self).diagnostics@.len(),
                self.diagnostics@.len() >= dq,
                decls_from(origin, src, ts, q, declarations@),
                forall|a: int| 0 <= a < origin.len() ==> origin[a] < self.cursor,
                self.cursor == q || declarations@.len() > 0 || self.diagnostics@.len() > dq,
            decreases self.remaining(),
        {
            let ghost c = self.cursor as int;
            if let Some(decl) = self.parse_top_level_decl() {
                proof {
                    origin = origin.push(c);
                }
                declarations.push(decl);
            } else {
                self.synchronize_to_top_level();
            }
        }

        proof {
            assert(q == decls_start(src, ts, old(self).cursor as int));
            assert(decls_from(origin, src, ts, q, declarations@));
        }
        let file = ast::FaFile { module, imports, declarations };
        proof {
            assert(file.declarations@ == declarations@);
        }
        Some(file)
    }

    /// Parse module declaration: module foo.bar.baz
    fn parse_module_decl(&mut self) -> (r: Option<String>)
        requires
            old(self).wf(),
        ensures
            final(self).progress(old(self)),
            r.is_none() ==> final(self).reported(old(self)),
            r.is_some() == (old(self).at_word(MODULE@) && module_path_end(
                old(self).tokens@,
                after_token(old(self).tokens@, old(self).cursor as int),
            ) is Some),
            r matches Some(m) ==> m@ == module_path_text(
                old(self).source,
                old(self).tokens@,
                after_token(old(self).tokens@, old(self).cursor as int),
            ),
            r.is_some() ==> module_path_end(old(self).tokens@, after_token(old(self).tokens@, old(self).cursor as int))
                == Some(final(self).cursor as int),
    {
        self.expect_contextual(MODULE)?;
        self.parse_module_path()
    }

    /// Parse a module path: foo.bar.baz
    fn parse_module_path(&mut self) -> (r: Option<String>)
        requires
            old(self).wf(),
        ensures
            final(self).progress(old(self)),
            r.is_none() ==> final(self).reported(old(self)),
            r.is_some() == module_path_end(old(self).tokens@, old(self).cursor as int) is Some,
            r.is_some() ==> module_path_end(old(self).tokens@, old(self).cursor as int) == Some(final(self).cursor as int),
            r matches Some(m) ==> m@ == module_path_text(old(self).source, old(self).tokens@, old(self).cursor as int),
    {
        let ghost j = self.cursor as int;
        let ghost ts = self.tokens@;
        let ghost src = self.source;
        proof {
            if kind_at(ts, j, TokenKind::Identifier) {
                lemma_after_token(ts, j);
            }
        }
        let mut path = self.expect_identifier()?;
        loop
            invariant
                self.progress(old(self)),
                self.tokens@ == ts,
                self.source == src,
                j == old(self).cursor,
                module_path_end(ts, j) == if kind_at(ts, self.cursor as int, TokenKind::Dot) {
                    module_path_end(ts, after_token(ts, self.cursor as int))
                } else {
                    Some(self.cursor as int)
                },
                module_path_text(src, ts, j) == path@ + if kind_at(ts, self.cursor as int, TokenKind::Dot) {
                    seq!['.'] + module_path_text(src, ts, after_token(ts, self.cursor as int))
                } else {
                    Seq::<char>::empty()
                },
            ensures
                self.progress(old(self)),
                module_path_end(ts, j) == Some(self.cursor as int),
                module_path_text(src, ts, j) == path@,
            decreases self.remaining(),
        {
            let ghost c = self.cursor as int;
            if self.consume(TokenKind::Dot).is_none() {
                proof {
                    assert(path@ + Seq::<char>::empty() =~= path@);
                }
                break;
            }
            let ghost d = self.cursor as int;
            proof {
                if kind_at(ts, d, TokenKind::Identifier) {
                    lemma_after_token(ts, d);
                }
            }
            let part = self.expect_identifier()?;
            let ghost before = path@;
            push_char(&mut path, '.');
            push_str(&mut path, part.as_str());
            proof {
                let e = self.cursor as int;
                let rest = if kind_at(ts, e, TokenKind::Dot) {
                    seq!['.'] + module_path_text(src, ts, after_token(ts, e))
                } else {
                    Seq::<char>::empty()
                };
                assert(module_path_text(src, ts, d) == part@ + rest);
                assert(before + (seq!['.'] + (part@ + rest)) =~= path@ + rest);
            }
        }
        Some(path)
    }

    /// Parse import statement: import foo.bar.Baz
    fn parse_import(&mut self) -> (r: Option<ast::FaImport>)
        requires
            old(self).wf(),
            old(self).at_word(IMPORT@),
        ensures
            final(self).progress(old(self)),
            final(self).moved(old(self)),
            r.is_none() ==> final(self).reported(old(self)),
            ({
                let a = after_token(old(self).tokens@, old(self).cursor as int);
                let parts = path_parts(old(self).source, old(self).tokens@, a);
                &&& r.is_some() == module_path_end(old(self).tokens@, a) is Some
                &&& r matches Some(imp) ==> {
                    &&& module_path_end(old(self).tokens@, a) == Some(final(self).cursor as int)
                    &&& imp.module@ == join_dots(parts.drop_last())
                    &&& imp.name@ == parts.last()
                }
                &&& r.is_none() ==> final(self).cursor == path_failure(old(self).tokens@, a)
            }),
    {
        let ghost ts = self.tokens@;
        let ghost src = self.source;
        self.expect_contextual(IMPORT)?;
        let ghost a = self.cursor as int;
        proof {
            if kind_at(ts, a, TokenKind::Identifier) {
                lemma_after_token(ts, a);
            }
        }

        // Parse module path up to the last component
        let mut parts: Vec<String> = Vec::new();
        parts.push(self.expect_identifier()?);
        proof {
            assert(parts@.map_values(|p: String| p@) =~= seq![token_text(src, ts, a)]);
        }
        loop
            invariant
                self.progress(old(self)),
                self.moved(old(self)),
                self.tokens@ == ts,
                self.source == src,
                a == after_token(ts, old(self).cursor as int),
                parts@.len() >= 1,
                module_path_end(ts, a) == if kind_at(ts, self.cursor as int, TokenKind::Dot) {
                    module_path_end(ts, after_token(ts, self.cursor as int))
                } else {
                    Some(self.cursor as int)
                },
                path_failure(ts, a) == if kind_at(ts, self.cursor as int, TokenKind::Dot) {
                    path_failure(ts, after_token(ts, self.cursor as int))
                } else {
                    self.cursor as int
                },
                path_parts(src, ts, a) == parts@.map_values(|p: String| p@) + if kind_at(
                    ts,
                    self.cursor as int,
                    TokenKind::Dot,
                ) {
                    path_parts(src, ts, after_token(ts, self.cursor as int))
                } else {
                    Seq::<Seq<char>>::empty()
                },
            ensures
                self.progress(old(self)),
                self.moved(old(self)),
                parts@.len() >= 1,
                module_path_end(ts, a) == Some(self.cursor as int),
                path_parts(src, ts, a) == parts@.map_values(|p: String| p@),
            decreases self.remaining(),
        {
            let ghost c = self.cursor as int;
            if self.consume(TokenKind::Dot).is_none() {
                proof {
                    assert(parts@.map_values(|p: String| p@) + Seq::<Seq<char>>::empty() =~= parts@.map_values(
                        |p: String| p@,
                    ));
                }
                break;
            }
            let ghost d = self.cursor as int;
            proof {
                if kind_at(ts, d, TokenKind::Identifier) {
                    lemma_after_token(ts, d);
                }
            }
            let ghost before = parts@.map_values(|p: String| p@);
            let part = self.expect_identifier()?;
            parts.push(part);
            proof {
                let e = self.cursor as int;
                let rest = if kind_at(ts, e, TokenKind::Dot) {
                    path_parts(src, ts, after_token(ts, e))
                } else {
                    Seq::<Seq<char>>::empty()
                };
                assert(parts@.map_values(|p: String| p@) =~= before.push(token_text(src, ts, d)));
                assert(path_parts(src, ts, d) == seq![token_text(src, ts, d)] + rest);
                assert(before + (seq![token_text(src, ts, d)] + rest) =~= parts@.map_values(|p: String| p@) + rest);
            }
        }

        // Last part is the name, rest is module path
        let ghost all = parts@.map_values(|p: String| p@);
        let name = parts.pop()?;
        proof {
            assert(parts@.map_values(|p: String| p@) =~= all.drop_last());
        }
        let mut module = String::new();
        let mut i: usize = 0;
        while i < parts.len()
            invariant
                i <= parts@.len(),
                parts@.map_values(|p: String| p@) == all.drop_last(),
                module@ == join_dots(all.drop_last().take(i as int)),
            decreases parts@.len() - i,
        {
            if i > 0 {
                push_char(&mut module, '.');
            }
            push_str(&mut module, parts[i].as_str());
            proof {
                let v = all.drop_last();
                assert(v.take(i + 1).drop_last() =~= v.take(i as int));
                assert(v.take(i + 1).last() == parts@[i as int]@);
                if i == 0 {
                    assert(v.take(1) =~= seq![v[0]]);
                }
            }
            i = i + 1;
        }
        proof {
            assert(all.drop_last().take(parts@.len() as int) =~= all.drop_last());
        }
        Some(ast::FaImport { module, name })
    }

    /// Parse a top-level declaration
    fn parse_top_level_decl(&mut self) -> (r: Option<ast::FaTopLevelDecl>)
        requires
            old(self).wf(),
        ensures
            final(self).progress(old(self)),
            r.is_none() ==> final(self).reported(old(self)),
            old(self).is_top_level_start_state() ==> final(self).moved(old(self)),
            !old(self).is_top_level_start_state() ==> final(self).cursor == old(self).cursor && r.is_none(),
            r matches Some(d) ==> decl_at(old(self).source, old(self).tokens@, old(self).cursor as int, d),
    {
        if self.check_contextual(BLUEPRINT) {
            match self.parse_blueprint() {
                Some(d) => Some(ast::FaTopLevelDecl::Blueprint(d)),
                None => None,
            }
        } else if self.check_contextual(BACKEND) {
            match self.parse_backend() {
                Some(d) => Some(ast::FaTopLevelDecl::Backend(d)),
                None => None,
            }
        } else if self.check_contextual(CONTRACT) {
            match self.parse_contract() {
                Some(d) => Some(ast::FaTopLevelDecl::Contract(d)),
                None => None,
            }
        } else if self.check_contextual(SCHEME) {
            match self.parse_scheme() {
                Some(d) => Some(ast::FaTopLevelDecl::Scheme(d)),
                None => None,
            }
        } else if self.check_contextual(ENUM) {
            match self.parse_enum() {
                Some(d) => Some(ast::FaTopLevelDecl::Enum(d)),
                None => None,
            }
        } else if self.check_contextual(THEME) {
            match self.parse_theme() {
                Some(d) => Some(ast::FaTopLevelDecl::Theme(d)),
                None => None,
            }
        } else if self.check_contextual(ARENA) {
            match self.parse_arena() {
                Some(d) => Some(ast::FaTopLevelDecl::Arena(d)),
                None => None,
            }
        } else {
            self.error_expected("declaration (blueprint, backend, scheme, enum, contract, theme, or arena)");
            None
        }
    }
}

/// Whether a file is what parsing reads from a source: for a stream of tokens
/// of the source as the lexer produces them (in order, with nothing but
/// blanks and comments between them), there is a file exactly where the
/// tokens start with a module declaration, and it has that module's name and
/// the imports that follow.
pub open spec fn parsed_from(source: &str, file: Option<ast::FaFile>) -> bool {
    exists|ts: Seq<Token>, ds: Seq<Diagnostic>|
        {
            &&& #[trigger] token_stream(source.spec_bytes(), ts, ds)
            &&& tokens_cover(source.spec_bytes(), 0, ts)
            &&& forall|i: int| 0 <= i < ts.len() ==> kind_fits(source.spec_bytes(), #[trigger] ts[i])
            &&& file.is_some() == declared_module(source, ts, 0).is_some()
            &&& file matches Some(f) ==> {
                &&& Some(f.module@) == declared_module(source, ts, 0)
                &&& imports_view(f.imports@) == declared_imports(source, ts, 0)
                &&& exists|origin: Seq<int>| decls_from(origin, source, ts, decls_start(source, ts, 0), f.declarations@)
            }
        }
}

/// Parse Frel source code; where no file comes back, a diagnostic says why.
pub fn parse(source: &str) -> (r: ParseResult)
    requires
        source.spec_bytes().len() < u32::MAX,
    ensures
        r.file.is_none() ==> r.diagnostics@.len() > 0,
        parsed_from(source, r.file),
{
    let parser = Parser::new(source);
    let ghost ts = parser.token_seq();
    let ghost ds = parser.reported_so_far();
    let r = parser.parse();
    proof {
        assert(token_stream(source.spec_bytes(), ts, ds));
    }
    r
}

} // verus!
