//! Source locations: byte spans, spanned values, and the line index that turns
//! byte offsets into 1-based line/column positions.

use vstd::prelude::*;
use vstd::string::*;
use vstd::utf8::*;
use crate::text::{lemma_ascii_boundary, lemma_ascii_next_boundary, lemma_str_valid_utf8, substr};

verus! {

broadcast use vstd::seq::group_seq_axioms;

/// A span representing a range of bytes in source code
#[derive(Debug, Clone, Copy, PartialEq, Eq, Hash, Structural)]
pub struct Span {
    /// Start byte offset (inclusive)
    pub start: u32,
    /// End byte offset (exclusive)
    pub end: u32,
}

/// The characters of `source` that `span` covers.
pub open spec fn span_chars(source: &str, span: Span) -> Seq<char> {
    decode_utf8(source.spec_bytes().subrange(span.start as int, span.end as int))
}

impl Span {
    /// Create a new span
    pub fn new(start: u32, end: u32) -> (r: Self)
        ensures
            r.start == start,
            r.end == end,
    {
        Span { start, end }
    }

    /// Create a span of length zero at a position (for insertion points)
    pub open spec fn point_spec(pos: u32) -> Self {
        Span { start: pos, end: pos }
    }

    pub fn point(pos: u32) -> (r: Self)
        ensures
            r.start == pos,
            r.end == pos,
    {
        Span { start: pos, end: pos }
    }

    /// Create a span covering two spans (from the smaller start to the larger end)
    pub fn merge(self, other: Span) -> (r: Span)
        ensures
            r == span_union(self, other),
    {
        let start = if self.start <= other.start { self.start } else { other.start };
        let end = if self.end >= other.end { self.end } else { other.end };
        Span { start, end }
    }

    /// Check if this span is empty (zero length)
    pub fn is_empty(&self) -> (r: bool)
        ensures
            r == (self.start == self.end),
    {
        self.start == self.end
    }

    /// Get the length of the span in bytes
    pub fn len(&self) -> (r: u32)
        requires
            self.start <= self.end,
        ensures
            r == self.end - self.start,
    {
        self.end - self.start
    }

    /// Whether this span delimits a slice of `source` on character boundaries.
    pub open spec fn fits(&self, source: &str) -> bool {
        &&& self.start <= self.end <= source.spec_bytes().len()
        &&& is_char_boundary(source.spec_bytes(), self.start as int)
        &&& is_char_boundary(source.spec_bytes(), self.end as int)
    }

    /// Extract the text this span covers from source
    pub fn text<'a>(&self, source: &'a str) -> (r: &'a str)
        requires
            self.fits(source),
        ensures
            r.spec_bytes() == source.spec_bytes().subrange(self.start as int, self.end as int),
            r@ == span_chars(source, *self),
    {
        let r = substr(source, self.start as usize, self.end as usize);
        proof {
            encode_utf8_decode_utf8(r@);
        }
        r
    }

    /// Check if this span is the default (0..0)
    pub fn is_default(&self) -> (r: bool)
        ensures
            r == (self.start == 0 && self.end == 0),
    {
        self.start == 0 && self.end == 0
    }
}

impl Default for Span {
    fn default() -> (r: Self)
        ensures
            r.start == 0 && r.end == 0,
    {
        Span { start: 0, end: 0 }
    }
}

/// The span from the smaller start to the larger end of two spans.
pub open spec fn span_union(a: Span, b: Span) -> Span {
    Span {
        start: if a.start <= b.start { a.start } else { b.start },
        end: if a.end >= b.end { a.end } else { b.end },
    }
}

/// A span whose start is not after its end.
pub open spec fn span_ordered(a: Span) -> bool {
    a.start <= a.end
}

/// Merging covers both spans: the merged span starts no later and ends no
/// earlier than each of them, and is ordered when they are.
pub proof fn law_merge_covers(a: Span, b: Span)
    ensures
        span_union(a, b).start <= a.start,
        span_union(a, b).start <= b.start,
        span_union(a, b).end >= a.end,
        span_union(a, b).end >= b.end,
        span_ordered(a) && span_ordered(b) ==> span_ordered(span_union(a, b)),
{
}

/// Merging does not depend on the order of the spans, nor on grouping, and
/// merging a span with itself gives it back.
pub proof fn law_merge_commutative_associative(a: Span, b: Span, c: Span)
    ensures
        span_union(a, b) == span_union(b, a),
        span_union(span_union(a, b), c) == span_union(a, span_union(b, c)),
        span_union(a, a) == a,
{
}

/// The smallest span that covers both: any span covering both covers the merge.
pub proof fn law_merge_least(a: Span, b: Span, c: Span)
    requires
        c.start <= a.start,
        c.start <= b.start,
        c.end >= a.end,
        c.end >= b.end,
    ensures
        c.start <= span_union(a, b).start,
        c.end >= span_union(a, b).end,
{
}

/// A value with an associated source span
#[derive(Debug, Clone)]
pub struct Spanned<T> {
    pub node: T,
    pub span: Span,
}

impl<T> Spanned<T> {
    pub fn new(node: T, span: Span) -> (r: Self)
        ensures
            r.node == node,
            r.span == span,
    {
        Spanned { node, span }
    }

    /// Apply `f` to the node, keeping the span.
    pub fn map<U, F: FnOnce(T) -> U>(self, f: F) -> (r: Spanned<U>)
        requires
            f.requires((self.node,)),
        ensures
            f.ensures((self.node,), r.node),
            r.span == self.span,
    {
        Spanned { node: f(self.node), span: self.span }
    }
}

/// Line and column information for human-readable error messages
#[derive(Debug, Clone, Copy, PartialEq, Eq, Structural)]
pub struct LineCol {
    /// 1-indexed line number
    pub line: u32,
    /// 1-indexed column number (in characters, not bytes)
    pub col: u32,
}

/// The byte offsets at which the lines of `bytes[..n]` start: 0, then one past
/// every newline byte.
pub open spec fn line_starts_upto(bytes: Seq<u8>, n: nat) -> Seq<u32>
    decreases n,
{
    if n == 0 {
        seq![0u32]
    } else {
        let prev = line_starts_upto(bytes, (n - 1) as nat);
        if bytes[n - 1] == 10u8 {
            prev.push(n as u32)
        } else {
            prev
        }
    }
}

/// The line starts of a whole source text.
pub open spec fn line_starts_of(bytes: Seq<u8>) -> Seq<u32> {
    line_starts_upto(bytes, bytes.len())
}

/// Whether line `l` (counted from 0) of a text with the given line starts holds
/// `offset`: it is the last line whose start is at or before `offset`.
pub open spec fn holds_offset(starts: Seq<u32>, offset: u32, l: int) -> bool {
    &&& 0 <= l < starts.len()
    &&& starts[l] <= offset
    &&& (l + 1 < starts.len() ==> starts[l + 1] > offset)
}

/// Whether a byte begins a character: it is not a UTF-8 continuation byte.
pub open spec fn lead_byte(b: u8) -> bool {
    b < 0x80 || b >= 0xC0
}

/// The number of characters that begin in `bytes[..n]`.
pub open spec fn chars_before(bytes: Seq<u8>, n: nat) -> nat
    decreases n,
{
    if n == 0 {
        0
    } else {
        chars_before(bytes, (n - 1) as nat) + if lead_byte(bytes[n - 1]) {
            1nat
        } else {
            0nat
        }
    }
}

/// The characters before byte offset `o`, where each offset past the end of
/// the text counts as one more character.
pub open spec fn chars_to(bytes: Seq<u8>, o: nat) -> nat {
    if o <= bytes.len() {
        chars_before(bytes, o)
    } else {
        chars_before(bytes, bytes.len()) + (o - bytes.len()) as nat
    }
}

/// The line/column position of `offset` in a text with the given line starts:
/// the line that holds it, and the number of characters from that line's
/// start to `offset`, both counted from 1.
pub open spec fn line_col_at(bytes: Seq<u8>, starts: Seq<u32>, offset: u32) -> LineCol {
    let l = choose|l: int| holds_offset(starts, offset, l);
    LineCol {
        line: (l + 1) as u32,
        col: (chars_to(bytes, offset as nat) - chars_to(bytes, starts[l] as nat) + 1) as u32,
    }
}

/// Fewer characters than bytes begin in a stretch of the text.
proof fn lemma_chars_before_mono(bytes: Seq<u8>, i: nat, j: nat)
    requires
        i <= j <= bytes.len(),
    ensures
        chars_before(bytes, i) <= chars_before(bytes, j),
        chars_before(bytes, j) - chars_before(bytes, i) <= j - i,
    decreases j - i,
{
    if i < j {
        lemma_chars_before_mono(bytes, i, (j - 1) as nat);
    }
}

/// The same for offsets that may lie past the end.
proof fn lemma_chars_to_mono(bytes: Seq<u8>, i: nat, j: nat)
    requires
        i <= j,
        i <= bytes.len(),
    ensures
        chars_to(bytes, i) <= chars_to(bytes, j),
        chars_to(bytes, j) - chars_to(bytes, i) <= j - i,
{
    if j <= bytes.len() {
        lemma_chars_before_mono(bytes, i, j);
    } else {
        lemma_chars_before_mono(bytes, i, bytes.len());
    }
}

/// Index for converting byte offsets to line/column positions
pub struct LineIndex {
    /// Byte offset of the start of each line
    line_starts: Vec<u32>,
    /// The number of characters that begin before each byte offset (one
    /// entry per offset, the end of the text included)
    char_counts: Vec<u32>,
    /// The text indexed
    text: Ghost<Seq<u8>>,
}

/// Facts about the line starts of a prefix of a text that fits in `u32` offsets.
proof fn lemma_line_starts_props(bytes: Seq<u8>, n: nat)
    requires
        n <= bytes.len(),
        bytes.len() < u32::MAX,
    ensures
        1 <= line_starts_upto(bytes, n).len() <= n + 1,
        line_starts_upto(bytes, n)[0] == 0,
        forall|i: int, j: int| 0 <= i < j < line_starts_upto(bytes, n).len()
            ==> line_starts_upto(bytes, n)[i] < line_starts_upto(bytes, n)[j],
        forall|i: int| 0 <= i < line_starts_upto(bytes, n).len()
            ==> line_starts_upto(bytes, n)[i] <= n,
        forall|i: int| 0 < i < line_starts_upto(bytes, n).len()
            ==> bytes[line_starts_upto(bytes, n)[i] - 1] == 10u8,
    decreases n,
{
    if n > 0 {
        lemma_line_starts_props(bytes, (n - 1) as nat);
    }
}

impl LineIndex {
    /// The line starts come from the text, and the character counts count
    /// its characters.
    #[verifier::type_invariant]
    spec fn inv(self) -> bool {
        &&& self.text@.len() < u32::MAX
        &&& self.line_starts@ == line_starts_of(self.text@)
        &&& self.char_counts@.len() == self.text@.len() + 1
        &&& forall|i: int| 0 <= i <= self.text@.len() ==> self.char_counts@[i] == chars_before(self.text@, i as nat)
    }

    /// The line starts, as a sequence.
    pub closed spec fn starts(&self) -> Seq<u32> {
        self.line_starts@
    }

    /// The bytes of the text indexed.
    pub closed spec fn text(&self) -> Seq<u8> {
        self.text@
    }


    /// Build a line index from source text
    pub fn new(source: &str) -> (r: Self)
        requires
            source.spec_bytes().len() < u32::MAX,
        ensures
            r.starts() == line_starts_of(source.spec_bytes()),
            r.text() == source.spec_bytes(),
    {
        let bytes = source.as_bytes();
        let mut line_starts: Vec<u32> = Vec::new();
        let mut char_counts: Vec<u32> = Vec::new();
        line_starts.push(0);
        char_counts.push(0);
        let n = bytes.len();
        let mut i: usize = 0;
        let mut count: u32 = 0;
        while i < n
            invariant
                n == bytes@.len(),
                bytes@ == source.spec_bytes(),
                n < u32::MAX,
                i <= n,
                line_starts@ == line_starts_upto(bytes@, i as nat),
                count == chars_before(bytes@, i as nat),
                char_counts@.len() == i + 1,
                forall|k: int| 0 <= k <= i ==> char_counts@[k] == chars_before(bytes@, k as nat),
            decreases n - i,
        {
            proof {
                lemma_chars_before_mono(bytes@, 0, (i + 1) as nat);
            }
            if bytes[i] == 10u8 {
                line_starts.push((i + 1) as u32);
            }
            let b = bytes[i];
            if b < 0x80 || b >= 0xC0 {
                count = count + 1;
            }
            char_counts.push(count);
            i = i + 1;
        }
        LineIndex { line_starts, char_counts, text: Ghost(bytes@) }
    }

    /// The shape every index built by `new` has: first start 0, strictly increasing.
    pub open spec fn wf(&self) -> bool {
        &&& self.starts().len() >= 1
        &&& self.starts()[0] == 0
        &&& forall|i: int, j: int| 0 <= i < j < self.starts().len()
            ==> self.starts()[i] < self.starts()[j]
    }

    /// Indexes built from a text have the shape `wf` describes, and each line start
    /// after the first follows a newline byte.
    pub proof fn lemma_new_wf(&self, bytes: Seq<u8>)
        requires
            self.starts() == line_starts_of(bytes),
            bytes.len() < u32::MAX,
        ensures
            self.wf(),
            self.starts().len() <= bytes.len() + 1,
            forall|i: int| 0 <= i < self.starts().len() ==> self.starts()[i] <= bytes.len(),
            forall|i: int| 0 < i < self.starts().len() ==> bytes[self.starts()[i] - 1] == 10u8,
    {
        lemma_line_starts_props(bytes, bytes.len());
    }

    /// The 0-based line holding `offset`: the last line whose start is at or
    /// before `offset`.
    pub open spec fn line_of(&self, offset: u32, l: int) -> bool {
        holds_offset(self.starts(), offset, l)
    }

    /// The line/column position of `offset`: the line that holds it and the
    /// distance from that line's start, both counted from 1.
    pub open spec fn line_col_spec(&self, offset: u32) -> LineCol {
        line_col_at(self.text(), self.starts(), offset)
    }

    /// In a well-formed index at most one line holds a given offset.
    pub proof fn lemma_line_of_unique(&self, offset: u32, l1: int, l2: int)
        requires
            self.wf(),
            self.line_of(offset, l1),
            self.line_of(offset, l2),
        ensures
            l1 == l2,
    {
        if l1 < l2 {
            assert(self.starts()[l1 + 1] <= self.starts()[l2]);
        } else if l2 < l1 {
            assert(self.starts()[l2 + 1] <= self.starts()[l1]);
        }
    }

    /// Convert a byte offset to line/column
    pub fn line_col(&self, offset: u32) -> (r: LineCol)
        requires
            offset < u32::MAX,
        ensures
            self.line_of(offset, r.line - 1),
            r.col == chars_to(self.text(), offset as nat) - chars_to(self.text(), self.starts()[r.line - 1] as nat) + 1,
            r == self.line_col_spec(offset),
    {
        proof {
            use_type_invariant(self);
            self.lemma_new_wf(self.text());
        }
        // Binary search for the number of line starts at or before `offset`.
        let mut lo: usize = 0;
        let mut hi: usize = self.line_starts.len();
        while lo < hi
            invariant
                self.wf(),
                0 <= lo <= hi <= self.line_starts@.len(),
                forall|i: int| 0 <= i < lo ==> self.line_starts@[i] <= offset,
                forall|i: int| hi <= i < self.line_starts@.len() ==> self.line_starts@[i] > offset,
            decreases hi - lo,
        {
            let mid = lo + (hi - lo) / 2;
            if self.line_starts[mid] <= offset {
                lo = mid + 1;
            } else {
                hi = mid;
            }
        }
        // starts()[0] == 0 <= offset, so at least one start qualifies.
        let line = lo - 1;
        let line_start = self.line_starts[line];
        let n = self.char_counts.len() - 1;
        proof {
            let l = choose|l: int| holds_offset(self.starts(), offset, l);
            assert(self.line_of(offset, line as int));
            self.lemma_line_of_unique(offset, l, line as int);
            lemma_chars_to_mono(self.text(), line_start as nat, offset as nat);
            assert(self.char_counts@[n as int] == chars_before(self.text(), n as nat));
            assert(self.char_counts@[line_start as int] == chars_before(self.text(), line_start as nat));
            assert(n == self.text().len());
            assert(line_start <= offset);
            lemma_chars_before_mono(self.text(), line_start as nat, n as nat);
        }
        // Characters from the line start to the offset; offsets past the end
        // count one each
        let from = self.char_counts[line_start as usize];
        let col = if (offset as usize) <= n {
            self.char_counts[offset as usize] - from + 1
        } else {
            self.char_counts[n] - from + (offset - n as u32) + 1
        };
        LineCol { line: lo as u32, col }
    }

    /// Get the byte offset of a line start (0-indexed line number)
    pub fn line_start(&self, line: usize) -> (r: Option<u32>)
        ensures
            r == if line < self.starts().len() { Some(self.starts()[line as int]) } else { None },
    {
        if line < self.line_starts.len() {
            Some(self.line_starts[line])
        } else {
            None
        }
    }

    /// Get the byte offset of a line end (0-indexed line number)
    pub fn line_end(&self, line: usize, source: &str) -> (r: Option<u32>)
        requires
            line + 1 < self.starts().len() ==> self.starts()[line + 1] >= 1,
        ensures
            r == if line + 1 < self.starts().len() {
                Some((self.starts()[line + 1] - 1) as u32)
            } else if line < self.starts().len() {
                Some(source.len() as u32)
            } else {
                None::<u32>
            },
    {
        if line < self.line_starts.len() && line + 1 < self.line_starts.len() {
            Some(self.line_starts[line + 1] - 1)
        } else if line < self.line_starts.len() {
            Some(source.len() as u32)
        } else {
            None
        }
    }

    /// Get the text of a specific line (0-indexed), for an index built from `source`
    pub fn line_text<'a>(&self, line: usize, source: &'a str) -> (r: Option<&'a str>)
        requires
            self.starts() == line_starts_of(source.spec_bytes()),
            source.spec_bytes().len() < u32::MAX,
        ensures
            match r {
                Some(t) => line < self.starts().len() && t.spec_bytes() == source.spec_bytes().subrange(
                    self.starts()[line as int] as int,
                    if line + 1 < self.starts().len() {
                        self.starts()[line + 1] - 1
                    } else {
                        source.spec_bytes().len() as int
                    },
                ),
                None => line >= self.starts().len(),
            },
    {
        proof {
            self.lemma_new_wf(source.spec_bytes());
            lemma_str_valid_utf8(source);
        }
        let ghost bytes = source.spec_bytes();
        let start = match self.line_start(line) {
            Some(s) => s,
            None => return None,
        };
        let end = match self.line_end(line, source) {
            Some(e) => e,
            None => return None,
        };
        proof {
            is_char_boundary_start_end_of_seq(bytes);
            if line > 0 {
                lemma_ascii_next_boundary(bytes, start - 1);
            }
            if line + 1 < self.starts().len() {
                assert(self.starts()[line as int] < self.starts()[line + 1]);
                lemma_ascii_boundary(bytes, self.starts()[line + 1] - 1);
            }
        }
        Some(substr(source, start as usize, end as usize))
    }

    /// Get the number of lines
    pub fn line_count(&self) -> (r: usize)
        ensures
            r == self.starts().len(),
    {
        self.line_starts.len()
    }
}

} // verus!
