//! Parser of the layout mini-DSL: the content of `"""layout ... """` blocks.
//!
//! The content is read line by line:
//! - instruction lines start with `..` and hold one instruction expression;
//! - a column sizes line holds size tokens (`24`, `~0.5`, `#`) and no `|`;
//! - grid row lines hold `| cell | cell |`, optionally after a row size;
//! - a cell holds an optional slot name, alignment modifiers
//!   (`<` `!` `>` `^` `=` `.` `_`) and merge indicators (`<--` `-->` `^--` `v--`).
//!
//! The model of the content is its sequence of characters; every result and
//! every diagnostic of a parse is stated over it, except what the main parser
//! makes of instruction lines.

use vstd::prelude::*;
use vstd::string::*;
use crate::ast::{HAlign, InstructionExpr, LayoutCell, LayoutRow, LayoutSize, LayoutStmt, MergeDirection, VAlign};
use crate::diagnostic::{Diagnostic, Diagnostics, Severity};
use crate::source::Span;
use crate::text::{
    chars_of, chars_utf8_len, decimal, lemma_encode_concat, lemma_utf8_len_one, lemma_utf8_len_subrange,
    parse_integer, parsed_integer, push_char, push_decimal, push_str, string_of_chars, trim_bounds, trimmed,
    utf8_len,
};
use super::common::instruction_expr_read;
use crate::lexer::scan::kind_fits;
use super::Parser;
use crate::lexer::Token;
use crate::lexer::spec::token_stream;

verus! {

/// The text of an instruction line: what follows its `..`, trimmed.
pub open spec fn instruction_text(line: Seq<char>) -> Seq<char> {
    trimmed(trimmed(line).subrange(2, trimmed(line).len() as int))
}

/// `r` is what the instruction line reads, for a tokenization of its text
/// whose tokens have the kinds their first bytes give.
pub open spec fn instruction_line_read(line: Seq<char>, r: Option<InstructionExpr>) -> bool {
    exists|src: &str, ts: Seq<Token>, d: Seq<Diagnostic>|
        #![trigger token_stream(src.spec_bytes(), ts, d), instruction_expr_read(src, ts, 0, r)]
        {
            &&& src@ == instruction_text(line)
            &&& token_stream(src.spec_bytes(), ts, d)
            &&& forall|i: int| 0 <= i < ts.len() ==> kind_fits(src.spec_bytes(), #[trigger] ts[i])
            &&& instruction_expr_read(src, ts, 0, r)
        }
}

/// The instructions came, in order, from instruction lines between `from`
/// and `to`: `origin` gives the line of each, and each is what its line reads.
pub open spec fn instructions_from(
    origin: Seq<int>,
    lines: Seq<Seq<char>>,
    from: int,
    to: int,
    instructions: Seq<InstructionExpr>,
) -> bool {
    &&& origin.len() == instructions.len()
    &&& forall|k: int| 0 <= k < origin.len() ==> from <= #[trigger] origin[k] < to && line_type(lines[origin[k]]) is Instruction
    &&& forall|k: int, m: int| 0 <= k < m < origin.len() ==> origin[k] < origin[m]
    &&& forall|k: int| 0 <= k < origin.len() ==> instruction_line_read(lines[#[trigger] origin[k]], Some(instructions[k]))
}

broadcast use vstd::seq::group_seq_axioms;

// =========================================================================
// Views of the layout syntax tree
// =========================================================================

/// A layout size as a value.
pub enum SizeView {
    Fixed(int),
    Weight(Seq<char>),
    Content,
}

impl View for LayoutSize {
    type V = SizeView;

    open spec fn view(&self) -> SizeView {
        match self {
            LayoutSize::Fixed(n) => SizeView::Fixed(*n as int),
            LayoutSize::Weight(t) => SizeView::Weight(t@),
            LayoutSize::Content => SizeView::Content,
        }
    }
}

/// A layout cell as a value.
pub struct CellView {
    pub slot_name: Option<Seq<char>>,
    pub h_align: HAlign,
    pub v_align: VAlign,
    pub merge: Option<MergeDirection>,
}

impl View for LayoutCell {
    type V = CellView;

    open spec fn view(&self) -> CellView {
        CellView {
            slot_name: match &self.slot_name {
                Some(s) => Some(s@),
                None => None,
            },
            h_align: self.h_align,
            v_align: self.v_align,
            merge: self.merge,
        }
    }
}

/// A layout row as a value.
pub struct RowView {
    pub size: Option<SizeView>,
    pub cells: Seq<CellView>,
}

impl View for LayoutRow {
    type V = RowView;

    open spec fn view(&self) -> RowView {
        RowView {
            size: match &self.size {
                Some(s) => Some(s@),
                None => None,
            },
            cells: self.cells@.map_values(|c: LayoutCell| c@),
        }
    }
}

/// The values of a sequence of sizes.
pub open spec fn sizes_view(v: Seq<LayoutSize>) -> Seq<SizeView> {
    v.map_values(|z: LayoutSize| z@)
}

/// The values of a sequence of rows.
pub open spec fn rows_view(v: Seq<LayoutRow>) -> Seq<RowView> {
    v.map_values(|r: LayoutRow| r@)
}

/// The value of an optional size.
pub open spec fn opt_size_view(o: Option<LayoutSize>) -> Option<SizeView> {
    match o {
        Some(z) => Some(z@),
        None => None,
    }
}

// =========================================================================
// Lines
// =========================================================================

/// A line without the carriage return of a `\r\n` ending.
pub open spec fn strip_cr(l: Seq<char>) -> Seq<char> {
    if l.len() > 0 && l.last() == '\r' {
        l.drop_last()
    } else {
        l
    }
}

/// The lines of `s` from a line that starts at `start`, where `s[start..i]`
/// holds no line feed. A line ends at `\n` or `\r\n`; the last line needs no
/// ending, and a final ending starts no empty line (what `str::lines` gives).
pub open spec fn lines_scan(s: Seq<char>, start: int, i: int) -> Seq<Seq<char>>
    decreases s.len() - i,
{
    if i >= s.len() {
        if start < s.len() {
            seq![s.subrange(start, s.len() as int)]
        } else {
            seq![]
        }
    } else if s[i] == '\n' {
        seq![strip_cr(s.subrange(start, i))] + lines_scan(s, i + 1, i + 1)
    } else {
        lines_scan(s, start, i + 1)
    }
}

/// The lines of a text.
pub open spec fn text_lines(s: Seq<char>) -> Seq<Seq<char>> {
    lines_scan(s, 0, 0)
}

/// The bytes that lines take in UTF-8, counting one byte of line ending each.
pub open spec fn lines_bytes(ls: Seq<Seq<char>>) -> nat
    decreases ls.len(),
{
    if ls.len() == 0 {
        0
    } else {
        utf8_len(ls[0]) + 1 + lines_bytes(ls.drop_first())
    }
}

proof fn lemma_lines_bytes_one(x: Seq<char>)
    ensures
        lines_bytes(seq![x]) == utf8_len(x) + 1,
{
    let one = seq![x];
    assert(one.drop_first() =~= Seq::<Seq<char>>::empty());
    assert(one[0] == x);
    assert(lines_bytes(one.drop_first()) == 0);
}

proof fn lemma_lines_bytes_concat(a: Seq<Seq<char>>, b: Seq<Seq<char>>)
    ensures
        lines_bytes(a + b) == lines_bytes(a) + lines_bytes(b),
    decreases a.len(),
{
    if a.len() == 0 {
        assert(a + b =~= b);
    } else {
        lemma_lines_bytes_concat(a.drop_first(), b);
        assert((a + b).drop_first() =~= a.drop_first() + b);
    }
}

/// The lines before one, and that line, take no more than all of them.
proof fn lemma_lines_bytes_prefix(ls: Seq<Seq<char>>, k: int)
    requires
        0 <= k <= ls.len(),
    ensures
        lines_bytes(ls.take(k)) <= lines_bytes(ls),
        k < ls.len() ==> lines_bytes(ls.take(k)) + utf8_len(ls[k]) + 1 <= lines_bytes(ls),
        k < ls.len() ==> lines_bytes(ls.take(k + 1)) == lines_bytes(ls.take(k)) + utf8_len(ls[k]) + 1,
{
    assert(ls =~= ls.take(k) + ls.skip(k));
    lemma_lines_bytes_concat(ls.take(k), ls.skip(k));
    if k < ls.len() {
        assert(ls.skip(k)[0] == ls[k]);
        assert(ls.take(k + 1) =~= ls.take(k) + seq![ls[k]]);
        lemma_lines_bytes_concat(ls.take(k), seq![ls[k]]);
        assert(seq![ls[k]].drop_first() =~= Seq::<Seq<char>>::empty());
        lemma_lines_bytes_one(ls[k]);
        assert(lines_bytes(ls.skip(k)) == utf8_len(ls[k]) + 1 + lines_bytes(ls.skip(k).drop_first()));
    }
}

proof fn lemma_newline_len()
    ensures
        utf8_len(seq!['\n']) == 1,
{
    lemma_utf8_len_one('\n');
}

/// The lines of a text take at most one byte more than the text.
proof fn lemma_lines_scan_bytes(s: Seq<char>, start: int, i: int)
    requires
        0 <= start <= i <= s.len(),
    ensures
        lines_bytes(lines_scan(s, start, i)) <= utf8_len(s.subrange(start, s.len() as int)) + 1,
    decreases s.len() - i,
{
    if i >= s.len() {
        if start < s.len() {
            let l = s.subrange(start, s.len() as int);
            assert(seq![l].drop_first() =~= Seq::<Seq<char>>::empty());
            lemma_lines_bytes_one(l);
        }
    } else if s[i] == '\n' {
        lemma_lines_scan_bytes(s, i + 1, i + 1);
        let l = s.subrange(start, i);
        let rest = lines_scan(s, i + 1, i + 1);
        assert((seq![strip_cr(l)] + rest).drop_first() =~= rest);
        assert((seq![strip_cr(l)] + rest)[0] == strip_cr(l));
        if l.len() > 0 && l.last() == '\r' {
            lemma_utf8_len_subrange(l, 0, l.len() - 1);
            assert(l.subrange(0, l.len() - 1) =~= l.drop_last());
        }
        let whole = s.subrange(start, s.len() as int);
        assert(whole =~= l + seq!['\n'] + s.subrange(i + 1, s.len() as int));
        lemma_encode_concat(l + seq!['\n'], s.subrange(i + 1, s.len() as int));
        lemma_encode_concat(l, seq!['\n']);
        lemma_newline_len();
        assert(lines_bytes(seq![strip_cr(l)] + rest) == utf8_len(strip_cr(l)) + 1 + lines_bytes(rest));
        assert(utf8_len(whole) == utf8_len(l) + 1 + utf8_len(s.subrange(i + 1, s.len() as int)));
    } else {
        lemma_lines_scan_bytes(s, start, i + 1);
    }
}

/// Each line of a text is part of the text's characters.
proof fn lemma_lines_scan_parts(s: Seq<char>, start: int, i: int, k: int)
    requires
        0 <= start <= i <= s.len(),
        0 <= k < lines_scan(s, start, i).len(),
    ensures
        utf8_len(lines_scan(s, start, i)[k]) <= utf8_len(s),
    decreases s.len() - i,
{
    if i >= s.len() {
        lemma_utf8_len_subrange(s, start, s.len() as int);
    } else if s[i] == '\n' {
        if k == 0 {
            let l = s.subrange(start, i);
            lemma_utf8_len_subrange(s, start, i);
            if l.len() > 0 && l.last() == '\r' {
                lemma_utf8_len_subrange(l, 0, l.len() - 1);
                assert(l.subrange(0, l.len() - 1) =~= l.drop_last());
            }
        } else {
            lemma_lines_scan_parts(s, i + 1, i + 1, k - 1);
        }
    } else {
        lemma_lines_scan_parts(s, start, i + 1, k);
    }
}

/// The characters `s[lo..hi]` as a vector.
fn chars_between(s: &[char], lo: usize, hi: usize) -> (r: Vec<char>)
    requires
        lo <= hi <= s@.len(),
    ensures
        r@ == s@.subrange(lo as int, hi as int),
{
    let mut out: Vec<char> = Vec::new();
    let mut i = lo;
    while i < hi
        invariant
            lo <= i <= hi,
            hi <= s@.len(),
            out@ == s@.subrange(lo as int, i as int),
        decreases hi - i,
    {
        out.push(s[i]);
        proof {
            assert(s@.subrange(lo as int, i + 1) =~= s@.subrange(lo as int, i as int).push(s@[i as int]));
        }
        i = i + 1;
    }
    out
}

/// The values of a sequence of character vectors.
pub open spec fn char_vecs_view(v: Seq<Vec<char>>) -> Seq<Seq<char>> {
    v.map_values(|l: Vec<char>| l@)
}

/// Splits a text into its lines.
fn split_lines(s: &[char]) -> (r: Vec<Vec<char>>)
    ensures
        char_vecs_view(r@) == text_lines(s@),
{
    let n = s.len();
    let mut out: Vec<Vec<char>> = Vec::new();
    let mut start: usize = 0;
    let mut i: usize = 0;
    while i < n
        invariant
            0 <= start <= i <= n,
            n == s@.len(),
            char_vecs_view(out@) + lines_scan(s@, start as int, i as int) == text_lines(s@),
        decreases n - i,
    {
        if s[i] == '\n' {
            let end = if i > start && s[i - 1] == '\r' { i - 1 } else { i };
            let line = chars_between(s, start, end);
            proof {
                let l = s@.subrange(start as int, i as int);
                assert(line@ == strip_cr(l)) by {
                    if l.len() > 0 && l.last() == '\r' {
                        assert(l.drop_last() =~= s@.subrange(start as int, i - 1));
                    }
                }
                let rest = lines_scan(s@, i + 1, i + 1);
                assert(char_vecs_view(out@.push(line)) =~= char_vecs_view(out@).push(line@));
                assert(char_vecs_view(out@) + (seq![line@] + rest) =~= char_vecs_view(out@).push(line@) + rest);
            }
            out.push(line);
            start = i + 1;
        }
        i = i + 1;
    }
    if start < n {
        let line = chars_between(s, start, n);
        proof {
            assert(char_vecs_view(out@.push(line)) =~= char_vecs_view(out@) + seq![line@]);
        }
        out.push(line);
    } else {
        proof {
            assert(char_vecs_view(out@) + Seq::<Seq<char>>::empty() =~= char_vecs_view(out@));
        }
    }
    out
}

// =========================================================================
// Classifying lines
// =========================================================================

/// The kind of a line of layout content.
#[derive(Debug, PartialEq, Eq, Structural)]
pub enum LineType {
    /// Empty or whitespace-only line (or one that is none of the others)
    Empty,
    /// Instruction line starting with `..`
    Instruction,
    /// Column sizes line (size tokens and no `|`)
    ColumnSizes,
    /// Grid row line (contains `|`)
    GridRow,
}

/// Whether the first character that is not a space or a tab starts a size
/// (`~`, `#` or a digit).
pub open spec fn looks_like_sizes_spec(s: Seq<char>) -> bool
    decreases s.len(),
{
    if s.len() == 0 {
        false
    } else if s[0] == ' ' || s[0] == '\t' {
        looks_like_sizes_spec(s.drop_first())
    } else {
        s[0] == '~' || s[0] == '#' || ('0' <= s[0] && s[0] <= '9')
    }
}

/// The kind of a line.
pub open spec fn line_type(line: Seq<char>) -> LineType {
    let t = trimmed(line);
    if t.len() == 0 {
        LineType::Empty
    } else if t.len() >= 2 && t[0] == '.' && t[1] == '.' {
        LineType::Instruction
    } else if line.contains('|') {
        LineType::GridRow
    } else if looks_like_sizes_spec(t) {
        LineType::ColumnSizes
    } else {
        LineType::Empty
    }
}

/// Whether `s[lo..hi]` holds the character `c`.
fn contains_char(s: &[char], lo: usize, hi: usize, c: char) -> (r: bool)
    requires
        lo <= hi <= s@.len(),
    ensures
        r == s@.subrange(lo as int, hi as int).contains(c),
{
    let mut i = lo;
    while i < hi
        invariant
            lo <= i <= hi,
            hi <= s@.len(),
            forall|j: int| lo <= j < i ==> s@[j] != c,
        decreases hi - i,
    {
        if s[i] == c {
            proof {
                assert(s@.subrange(lo as int, hi as int)[i - lo] == c);
            }
            return true;
        }
        i = i + 1;
    }
    proof {
        assert forall|j: int| 0 <= j < s@.subrange(lo as int, hi as int).len() implies
            s@.subrange(lo as int, hi as int)[j] != c by {
            assert(s@.subrange(lo as int, hi as int)[j] == s@[lo + j]);
        }
    }
    false
}

// =========================================================================
// Floating-point syntax (what `str::parse::<f64>` accepts)
// =========================================================================

/// A decimal digit.
pub open spec fn is_dec_digit(c: char) -> bool {
    '0' <= c && c <= '9'
}

/// Every character is a decimal digit.
pub open spec fn all_dec_digits(s: Seq<char>) -> bool {
    forall|i: int| 0 <= i < s.len() ==> #[trigger] is_dec_digit(s[i])
}

/// The first index at or after `i` that holds `a` or `b`; the length if none does.
pub open spec fn first_of(s: Seq<char>, a: char, b: char, i: int) -> int
    decreases s.len() - i,
{
    if i >= s.len() {
        s.len() as int
    } else if s[i] == a || s[i] == b {
        i
    } else {
        first_of(s, a, b, i + 1)
    }
}

/// Whether `c` lowered is `w`, a lower-case letter.
pub open spec fn same_letter(c: char, w: char) -> bool {
    c == w || ('A' <= c && c <= 'Z' && (c as u32) + 32 == (w as u32))
}

/// Whether `s` lowered is `word`, which is in lower case.
pub open spec fn equal_ignoring_case(s: Seq<char>, word: Seq<char>) -> bool {
    s.len() == word.len() && forall|i: int| 0 <= i < s.len() ==> #[trigger] same_letter(s[i], word[i])
}

/// `s` without a leading `+` or `-`.
pub open spec fn without_sign(s: Seq<char>) -> Seq<char> {
    if s.len() > 0 && (s[0] == '+' || s[0] == '-') {
        s.drop_first()
    } else {
        s
    }
}

/// Digits with at most one `.` among them, and at least one digit.
pub open spec fn mantissa_syntax(m: Seq<char>) -> bool {
    let p = first_of(m, '.', '.', 0);
    if p >= m.len() {
        m.len() > 0 && all_dec_digits(m)
    } else {
        all_dec_digits(m.take(p)) && all_dec_digits(m.skip(p + 1)) && m.len() >= 2
    }
}

/// A mantissa, then optionally `e` or `E`, an optional sign and digits.
pub open spec fn decimal_syntax(b: Seq<char>) -> bool {
    let e = first_of(b, 'e', 'E', 0);
    &&& mantissa_syntax(b.take(e))
    &&& (e >= b.len() || {
        let x = without_sign(b.skip(e + 1));
        x.len() > 0 && all_dec_digits(x)
    })
}

/// The text of a floating-point number: an optional sign, then `inf`,
/// `infinity` or `nan` in any case, or a decimal number with an optional
/// exponent. This is the grammar that `f64`'s `FromStr` documents.
pub open spec fn float_syntax(s: Seq<char>) -> bool {
    let b = without_sign(s);
    ||| equal_ignoring_case(b, seq!['i', 'n', 'f'])
    ||| equal_ignoring_case(b, seq!['i', 'n', 'f', 'i', 'n', 'i', 't', 'y'])
    ||| equal_ignoring_case(b, seq!['n', 'a', 'n'])
    ||| decimal_syntax(b)
}

} // verus!

verus! {

/// Whether `s[lo..hi]` is all decimal digits.
fn all_dec_digits_between(s: &[char], lo: usize, hi: usize) -> (r: bool)
    requires
        lo <= hi <= s@.len(),
    ensures
        r == all_dec_digits(s@.subrange(lo as int, hi as int)),
{
    let mut i = lo;
    while i < hi
        invariant
            lo <= i <= hi,
            hi <= s@.len(),
            forall|j: int| lo <= j < i ==> is_dec_digit(s@[j]),
        decreases hi - i,
    {
        if !('0' <= s[i] && s[i] <= '9') {
            proof {
                assert(!is_dec_digit(s@.subrange(lo as int, hi as int)[i - lo]));
            }
            return false;
        }
        i = i + 1;
    }
    proof {
        assert forall|j: int| 0 <= j < s@.subrange(lo as int, hi as int).len() implies
            #[trigger] is_dec_digit(s@.subrange(lo as int, hi as int)[j]) by {
            assert(s@.subrange(lo as int, hi as int)[j] == s@[lo + j]);
        }
    }
    true
}

/// The first index in `lo..hi` that holds `a` or `b`; `hi` if none does.
fn first_of_between(s: &[char], lo: usize, hi: usize, a: char, b: char) -> (r: usize)
    requires
        lo <= hi <= s@.len(),
    ensures
        lo <= r <= hi,
        r - lo == first_of(s@.subrange(lo as int, hi as int), a, b, 0),
{
    let ghost t = s@.subrange(lo as int, hi as int);
    let mut i = lo;
    while i < hi
        invariant
            lo <= i <= hi,
            hi <= s@.len(),
            t == s@.subrange(lo as int, hi as int),
            first_of(t, a, b, 0) == first_of(t, a, b, i - lo),
        decreases hi - i,
    {
        if s[i] == a || s[i] == b {
            proof {
                assert(t[i - lo] == s@[i as int]);
            }
            return i;
        }
        proof {
            assert(t[i - lo] == s@[i as int]);
        }
        i = i + 1;
    }
    i
}

/// Whether `s[lo..hi]` lowered is `word`, which is in lower case.
fn equals_ignoring_case(s: &[char], lo: usize, hi: usize, word: &[char]) -> (r: bool)
    requires
        lo <= hi <= s@.len(),
    ensures
        r == equal_ignoring_case(s@.subrange(lo as int, hi as int), word@),
{
    if hi - lo != word.len() {
        return false;
    }
    let mut i: usize = 0;
    while i < word.len()
        invariant
            lo <= hi <= s@.len(),
            hi - lo == word@.len(),
            i <= word@.len(),
            forall|j: int| 0 <= j < i ==> #[trigger] same_letter(s@[lo + j], word@[j]),
        decreases word@.len() - i,
    {
        let c = s[lo + i];
        let w = word[i];
        if !(c == w || ('A' <= c && c <= 'Z' && (c as u32) + 32 == (w as u32))) {
            proof {
                assert(s@.subrange(lo as int, hi as int)[i as int] == c);
                assert(!same_letter(s@.subrange(lo as int, hi as int)[i as int], word@[i as int]));
            }
            return false;
        }
        i = i + 1;
    }
    proof {
        assert forall|j: int| 0 <= j < s@.subrange(lo as int, hi as int).len() implies
            #[trigger] same_letter(s@.subrange(lo as int, hi as int)[j], word@[j]) by {
            assert(s@.subrange(lo as int, hi as int)[j] == s@[lo + j]);
        }
    }
    true
}

/// Whether `s[lo..hi]` is a mantissa: digits with at most one `.`, at least one digit.
fn mantissa_ok(s: &[char], lo: usize, hi: usize) -> (r: bool)
    requires
        lo <= hi <= s@.len(),
    ensures
        r == mantissa_syntax(s@.subrange(lo as int, hi as int)),
{
    let ghost m = s@.subrange(lo as int, hi as int);
    let p = first_of_between(s, lo, hi, '.', '.');
    if p >= hi {
        hi > lo && all_dec_digits_between(s, lo, hi)
    } else {
        proof {
            assert(m.take(p - lo) =~= s@.subrange(lo as int, p as int));
            assert(m.skip(p - lo + 1) =~= s@.subrange(p + 1, hi as int));
        }
        all_dec_digits_between(s, lo, p) && all_dec_digits_between(s, p + 1, hi) && hi - lo >= 2
    }
}

/// Whether `s[lo..hi]` has the syntax of a floating-point number.
fn float_ok(s: &[char], lo: usize, hi: usize) -> (r: bool)
    requires
        lo <= hi <= s@.len(),
    ensures
        r == float_syntax(s@.subrange(lo as int, hi as int)),
{
    let ghost whole = s@.subrange(lo as int, hi as int);
    let b_lo = if lo < hi && (s[lo] == '+' || s[lo] == '-') { lo + 1 } else { lo };
    let ghost b = s@.subrange(b_lo as int, hi as int);
    proof {
        assert(without_sign(whole) =~= b);
    }
    let inf: [char; 3] = ['i', 'n', 'f'];
    let infinity: [char; 8] = ['i', 'n', 'f', 'i', 'n', 'i', 't', 'y'];
    let nan: [char; 3] = ['n', 'a', 'n'];
    proof {
        assert(inf@ =~= seq!['i', 'n', 'f']);
        assert(infinity@ =~= seq!['i', 'n', 'f', 'i', 'n', 'i', 't', 'y']);
        assert(nan@ =~= seq!['n', 'a', 'n']);
    }
    if equals_ignoring_case(s, b_lo, hi, &inf) || equals_ignoring_case(s, b_lo, hi, &infinity)
        || equals_ignoring_case(s, b_lo, hi, &nan) {
        return true;
    }
    let e = first_of_between(s, b_lo, hi, 'e', 'E');
    proof {
        assert(b.take(e - b_lo) =~= s@.subrange(b_lo as int, e as int));
    }
    if !mantissa_ok(s, b_lo, e) {
        return false;
    }
    if e >= hi {
        return true;
    }
    let x_lo = if e + 1 < hi && (s[e + 1] == '+' || s[e + 1] == '-') { e + 2 } else { e + 1 };
    proof {
        assert(b.skip(e - b_lo + 1) =~= s@.subrange(e + 1, hi as int));
        assert(without_sign(b.skip(e - b_lo + 1)) =~= s@.subrange(x_lo as int, hi as int));
    }
    x_lo < hi && all_dec_digits_between(s, x_lo, hi)
}

// =========================================================================
// Sizes
// =========================================================================

/// What a size token stands for: with `~` before it a weight (a decimal
/// number), else a fixed size (an `i32`); `None` if it is neither.
pub open spec fn size_token(tok: Seq<char>, weight: bool) -> Option<SizeView> {
    if weight {
        if float_syntax(tok) {
            Some(SizeView::Weight(tok))
        } else {
            None
        }
    } else {
        match parsed_integer(tok, 10, i32::MIN as int, i32::MAX as int) {
            Some(n) => Some(SizeView::Fixed(n)),
            None => None,
        }
    }
}

/// The state of reading a column sizes line.
pub struct ColumnScan {
    pub sizes: Seq<SizeView>,
    pub current: Seq<char>,
    pub in_weight: bool,
}

/// The sizes read so far, with the pending token added if it stands for a size.
pub open spec fn flushed(st: ColumnScan) -> Seq<SizeView> {
    match size_token(st.current, st.in_weight) {
        Some(z) => st.sizes.push(z),
        None => st.sizes,
    }
}

/// One character of a column sizes line: a space or tab ends a token, `~`
/// marks a weight, `#` is a content size, digits and `.` make up a token;
/// anything else is skipped.
pub open spec fn column_step(st: ColumnScan, c: char) -> ColumnScan {
    if c == ' ' || c == '\t' {
        if st.current.len() > 0 {
            ColumnScan { sizes: flushed(st), current: seq![], in_weight: false }
        } else {
            st
        }
    } else if c == '~' {
        ColumnScan { sizes: st.sizes, current: st.current, in_weight: true }
    } else if c == '#' {
        ColumnScan { sizes: st.sizes.push(SizeView::Content), current: st.current, in_weight: st.in_weight }
    } else if is_dec_digit(c) || c == '.' {
        ColumnScan { sizes: st.sizes, current: st.current.push(c), in_weight: st.in_weight }
    } else {
        st
    }
}

/// The state after reading a line from its start.
pub open spec fn column_scan(line: Seq<char>) -> ColumnScan
    decreases line.len(),
{
    if line.len() == 0 {
        ColumnScan { sizes: seq![], current: seq![], in_weight: false }
    } else {
        column_step(column_scan(line.drop_last()), line.last())
    }
}

/// The sizes of a column sizes line.
pub open spec fn column_sizes_of(line: Seq<char>) -> Seq<SizeView> {
    let st = column_scan(line);
    if st.current.len() > 0 {
        flushed(st)
    } else {
        st.sizes
    }
}

/// The size of a row, from the text before its first `|`.
pub open spec fn row_size_of(s: Seq<char>) -> Option<SizeView> {
    let t = trimmed(s);
    if s.len() == 0 {
        None
    } else if t.len() > 0 && t[0] == '~' {
        let rest = trimmed(t.drop_first());
        if float_syntax(rest) {
            Some(SizeView::Weight(rest))
        } else {
            None
        }
    } else if t.len() == 1 && t[0] == '#' {
        Some(SizeView::Content)
    } else {
        match parsed_integer(t, 10, i32::MIN as int, i32::MAX as int) {
            Some(n) => Some(SizeView::Fixed(n)),
            None => None,
        }
    }
}

} // verus!

verus! {

/// What a size token stands for.
fn parse_size_token(token: &Vec<char>, is_weight: bool) -> (r: Option<LayoutSize>)
    ensures
        opt_size_view(r) == size_token(token@, is_weight),
{
    if is_weight {
        if float_ok(token.as_slice(), 0, token.len()) {
            proof {
                assert(token@.subrange(0, token@.len() as int) =~= token@);
            }
            Some(LayoutSize::Weight(string_of_chars(token.as_slice(), 0, token.len())))
        } else {
            proof {
                assert(token@.subrange(0, token@.len() as int) =~= token@);
            }
            None
        }
    } else {
        match parse_integer(token.as_slice(), 10, i32::MIN as i64, i32::MAX as i64) {
            Some(n) => Some(LayoutSize::Fixed(n as i32)),
            None => None,
        }
    }
}

/// The sizes of a column sizes line.
fn parse_column_sizes(line: &[char]) -> (r: Vec<LayoutSize>)
    ensures
        sizes_view(r@) == column_sizes_of(line@),
{
    let mut sizes: Vec<LayoutSize> = Vec::new();
    let mut current: Vec<char> = Vec::new();
    let mut in_weight = false;
    let mut i: usize = 0;
    while i < line.len()
        invariant
            i <= line@.len(),
            sizes_view(sizes@) == column_scan(line@.take(i as int)).sizes,
            current@ == column_scan(line@.take(i as int)).current,
            in_weight == column_scan(line@.take(i as int)).in_weight,
        decreases line@.len() - i,
    {
        let ch = line[i];
        let ghost before = column_scan(line@.take(i as int));
        proof {
            assert(line@.take(i + 1).drop_last() =~= line@.take(i as int));
            assert(line@.take(i + 1).last() == ch);
        }
        if ch == ' ' || ch == '\t' {
            if current.len() > 0 {
                match parse_size_token(&current, in_weight) {
                    Some(size) => {
                        proof {
                            assert(sizes_view(sizes@.push(size)) =~= sizes_view(sizes@).push(size@));
                        }
                        sizes.push(size);
                    },
                    None => {},
                }
                current = Vec::new();
                in_weight = false;
            }
        } else if ch == '~' {
            in_weight = true;
        } else if ch == '#' {
            proof {
                assert(sizes_view(sizes@.push(LayoutSize::Content)) =~= sizes_view(sizes@).push(SizeView::Content));
            }
            sizes.push(LayoutSize::Content);
        } else if ('0' <= ch && ch <= '9') || ch == '.' {
            current.push(ch);
        }
        i = i + 1;
    }
    proof {
        assert(line@.take(line@.len() as int) =~= line@);
    }
    if current.len() > 0 {
        match parse_size_token(&current, in_weight) {
            Some(size) => {
                proof {
                    assert(sizes_view(sizes@.push(size)) =~= sizes_view(sizes@).push(size@));
                }
                sizes.push(size);
            },
            None => {},
        }
    }
    sizes
}

/// The size of a row, from the text `s[lo..hi]` before its first `|`.
fn parse_optional_row_size(s: &[char], lo: usize, hi: usize) -> (r: Option<LayoutSize>)
    requires
        lo <= hi <= s@.len(),
    ensures
        opt_size_view(r) == row_size_of(s@.subrange(lo as int, hi as int)),
{
    if lo == hi {
        return None;
    }
    let (c, d) = trim_bounds(s, lo, hi);
    let ghost t = s@.subrange(c as int, d as int);
    if c < d && s[c] == '~' {
        proof {
            assert(t.drop_first() =~= s@.subrange(c + 1, d as int));
        }
        let (e, f) = trim_bounds(s, c + 1, d);
        if float_ok(s, e, f) {
            Some(LayoutSize::Weight(string_of_chars(s, e, f)))
        } else {
            None
        }
    } else if c < d && d - c == 1 && s[c] == '#' {
        Some(LayoutSize::Content)
    } else {
        let token = chars_between(s, c, d);
        match parse_integer(token.as_slice(), 10, i32::MIN as i64, i32::MAX as i64) {
            Some(n) => Some(LayoutSize::Fixed(n as i32)),
            None => None,
        }
    }
}

} // verus!

verus! {

// =========================================================================
// Cells and rows
// =========================================================================

/// The state of reading a cell.
pub struct CellScan {
    pub slot: Seq<char>,
    pub h_align: HAlign,
    pub v_align: VAlign,
    pub merge: Option<MergeDirection>,
}

/// Nothing read yet: no slot, default alignment, no merge.
pub open spec fn cell_start() -> CellScan {
    CellScan { slot: seq![], h_align: HAlign::Left, v_align: VAlign::Top, merge: None }
}

pub open spec fn with_h(st: CellScan, h: HAlign) -> CellScan {
    CellScan { slot: st.slot, h_align: h, v_align: st.v_align, merge: st.merge }
}

pub open spec fn with_v(st: CellScan, v: VAlign) -> CellScan {
    CellScan { slot: st.slot, h_align: st.h_align, v_align: v, merge: st.merge }
}

pub open spec fn with_merge(st: CellScan, m: MergeDirection) -> CellScan {
    CellScan { slot: st.slot, h_align: st.h_align, v_align: st.v_align, merge: Some(m) }
}

pub open spec fn with_slot_char(st: CellScan, c: char) -> CellScan {
    CellScan { slot: st.slot.push(c), h_align: st.h_align, v_align: st.v_align, merge: st.merge }
}

/// Whether `--` follows position `i`.
pub open spec fn arrow_after(s: Seq<char>, i: int) -> bool {
    i + 2 < s.len() && s[i + 1] == '-' && s[i + 2] == '-'
}

/// A character of a slot name (a `v` followed by `--` is a merge instead).
pub open spec fn slot_char(c: char) -> bool {
    ||| ('a' <= c && c <= 'u')
    ||| ('w' <= c && c <= 'z')
    ||| ('A' <= c && c <= 'Z')
    ||| ('0' <= c && c <= '9')
    ||| c == 'v'
}

/// Reads a cell from position `i`: `<--` `-->` `^--` `v--` merge left, right,
/// up and down; `<` `!` `>` align left, center and right; `^` `=` `.` `_`
/// align top, center, bottom and to the baseline; letters and digits make up
/// the slot name; anything else is skipped.
pub open spec fn cell_scan(s: Seq<char>, i: int, st: CellScan) -> CellScan
    decreases s.len() - i,
{
    if i < 0 || i >= s.len() {
        st
    } else {
        let c = s[i];
        if c == '<' {
            if arrow_after(s, i) {
                cell_scan(s, i + 3, with_merge(st, MergeDirection::Left))
            } else {
                cell_scan(s, i + 1, with_h(st, HAlign::Left))
            }
        } else if c == '>' {
            if arrow_after(s, i) {
                cell_scan(s, i + 3, with_merge(st, MergeDirection::Right))
            } else {
                cell_scan(s, i + 1, with_h(st, HAlign::Right))
            }
        } else if c == '^' {
            if arrow_after(s, i) {
                cell_scan(s, i + 3, with_merge(st, MergeDirection::Up))
            } else {
                cell_scan(s, i + 1, with_v(st, VAlign::Top))
            }
        } else if c == 'v' && arrow_after(s, i) {
            cell_scan(s, i + 3, with_merge(st, MergeDirection::Down))
        } else if c == '.' {
            cell_scan(s, i + 1, with_v(st, VAlign::Bottom))
        } else if c == '!' {
            cell_scan(s, i + 1, with_h(st, HAlign::Center))
        } else if c == '=' {
            cell_scan(s, i + 1, with_v(st, VAlign::Center))
        } else if c == '_' {
            cell_scan(s, i + 1, with_v(st, VAlign::Baseline))
        } else if slot_char(c) {
            cell_scan(s, i + 1, with_slot_char(st, c))
        } else {
            cell_scan(s, i + 1, st)
        }
    }
}

/// The cell that a cell's text describes.
pub open spec fn cell_of(content: Seq<char>) -> CellView {
    let st = cell_scan(trimmed(content), 0, cell_start());
    CellView {
        slot_name: if st.slot.len() > 0 { Some(st.slot) } else { None },
        h_align: st.h_align,
        v_align: st.v_align,
        merge: st.merge,
    }
}

/// The parts of `s` between `|` characters, from a part that starts at
/// `start`, where `s[start..i]` holds no `|`.
pub open spec fn split_scan(s: Seq<char>, start: int, i: int) -> Seq<Seq<char>>
    decreases s.len() - i,
{
    if i >= s.len() {
        seq![s.subrange(start, s.len() as int)]
    } else if s[i] == '|' {
        seq![s.subrange(start, i)] + split_scan(s, i + 1, i + 1)
    } else {
        split_scan(s, start, i + 1)
    }
}

/// The parts of `s` between `|` characters (what `str::split('|')` gives).
pub open spec fn bar_parts(s: Seq<char>) -> Seq<Seq<char>> {
    split_scan(s, 0, 0)
}

/// The cells of the parts after the first: a part that is blank and equal to
/// the last part is skipped.
pub open spec fn cells_upto(parts: Seq<Seq<char>>, n: int) -> Seq<CellView>
    decreases n,
{
    if n <= 1 {
        seq![]
    } else {
        let prev = cells_upto(parts, n - 1);
        let part = parts[n - 1];
        if trimmed(part).len() == 0 && part == parts.last() {
            prev
        } else {
            prev.push(cell_of(part))
        }
    }
}

/// The cells of the text `| cell | cell | ...` that starts at a row's first `|`.
pub open spec fn cells_of(s: Seq<char>) -> Seq<CellView> {
    cells_upto(bar_parts(s), bar_parts(s).len() as int)
}

/// The row that a grid row line describes; `None` if it holds no `|`.
pub open spec fn grid_row_of(line: Seq<char>) -> Option<RowView> {
    let p = first_of(line, '|', '|', 0);
    if p >= line.len() {
        None
    } else {
        Some(RowView { size: row_size_of(trimmed(line.take(p))), cells: cells_of(line.skip(p)) })
    }
}

/// `s[i]` is a vertical alignment marker: `^` (not the head of `^--`), `=`,
/// `.` or `_`.
pub open spec fn v_marker(s: Seq<char>, i: int) -> bool {
    ||| s[i] == '=' || s[i] == '.' || s[i] == '_'
    ||| s[i] == '^' && !arrow_after(s, i)
}

/// The vertical alignment a marker sets: `^` top, `=` center, `.` bottom,
/// `_` baseline.
pub open spec fn v_align_of_marker(c: char) -> VAlign {
    if c == '^' {
        VAlign::Top
    } else if c == '=' {
        VAlign::Center
    } else if c == '.' {
        VAlign::Bottom
    } else {
        VAlign::Baseline
    }
}

/// `s[i]` is a horizontal alignment marker: `<` or `>` (not the head of an
/// arrow), or `!`.
pub open spec fn h_marker(s: Seq<char>, i: int) -> bool {
    ||| s[i] == '!'
    ||| (s[i] == '<' || s[i] == '>') && !arrow_after(s, i)
}

/// The horizontal alignment a marker sets: `<` left, `!` center, `>` right.
pub open spec fn h_align_of_marker(c: char) -> HAlign {
    if c == '<' {
        HAlign::Left
    } else if c == '!' {
        HAlign::Center
    } else {
        HAlign::Right
    }
}

/// The scan moves from `i` to `i + 3` over a merge arrow, else to `i + 1`.
pub open spec fn arrow_at(s: Seq<char>, i: int) -> bool {
    (s[i] == '<' || s[i] == '>' || s[i] == '^' || s[i] == 'v') && arrow_after(s, i)
}

/// One step of the scan: over an arrow to `k + 3` with the alignments kept,
/// else to `k + 1`, where a marker sets the alignment it names and anything
/// else keeps both alignments.
proof fn lemma_scan_step(s: Seq<char>, k: int, st: CellScan)
    requires
        0 <= k < s.len(),
    ensures
        arrow_at(s, k) ==> ({
            let n = cell_scan(s, k + 3, with_merge(st, merge_of_arrow(s[k])));
            cell_scan(s, k, st) == n
        }),
        !arrow_at(s, k) ==> ({
            let v = if v_marker(s, k) { v_align_of_marker(s[k]) } else { st.v_align };
            let h = if h_marker(s, k) { h_align_of_marker(s[k]) } else { st.h_align };
            &&& cell_scan(s, k, st) == cell_scan(s, k + 1, step_state(s, k, st))
            &&& step_state(s, k, st).v_align == v
            &&& step_state(s, k, st).h_align == h
        }),
{
}

/// The merge direction an arrow head names: `<--` left, `-->` right, `^--`
/// up, `v--` down.
pub open spec fn merge_of_arrow(c: char) -> MergeDirection {
    if c == '<' {
        MergeDirection::Left
    } else if c == '>' {
        MergeDirection::Right
    } else if c == '^' {
        MergeDirection::Up
    } else {
        MergeDirection::Down
    }
}

/// The state after reading `s[k]` where it is no arrow head.
spec fn step_state(s: Seq<char>, k: int, st: CellScan) -> CellScan {
    let c = s[k];
    if c == '<' {
        with_h(st, HAlign::Left)
    } else if c == '>' {
        with_h(st, HAlign::Right)
    } else if c == '^' {
        with_v(st, VAlign::Top)
    } else if c == '.' {
        with_v(st, VAlign::Bottom)
    } else if c == '!' {
        with_h(st, HAlign::Center)
    } else if c == '=' {
        with_v(st, VAlign::Center)
    } else if c == '_' {
        with_v(st, VAlign::Baseline)
    } else if slot_char(c) {
        with_slot_char(st, c)
    } else {
        st
    }
}

/// With no vertical marker from `k` on, the scan keeps the vertical alignment.
proof fn lemma_scan_keeps_v(s: Seq<char>, k: int)
    requires
        0 <= k,
        forall|j: int| k <= j < s.len() ==> !v_marker(s, j),
    ensures
        forall|st: CellScan| (#[trigger] cell_scan(s, k, st)).v_align == st.v_align,
    decreases s.len() - k,
{
    if k < s.len() {
        assert(!v_marker(s, k));
        if arrow_at(s, k) {
            lemma_scan_keeps_v(s, k + 3);
        } else {
            lemma_scan_keeps_v(s, k + 1);
        }
        assert forall|st: CellScan| (#[trigger] cell_scan(s, k, st)).v_align == st.v_align by {
            lemma_scan_step(s, k, st);
        }
    }
}

/// With no horizontal marker from `k` on, the scan keeps the horizontal alignment.
proof fn lemma_scan_keeps_h(s: Seq<char>, k: int)
    requires
        0 <= k,
        forall|j: int| k <= j < s.len() ==> !h_marker(s, j),
    ensures
        forall|st: CellScan| (#[trigger] cell_scan(s, k, st)).h_align == st.h_align,
    decreases s.len() - k,
{
    if k < s.len() {
        assert(!h_marker(s, k));
        if arrow_at(s, k) {
            lemma_scan_keeps_h(s, k + 3);
        } else {
            lemma_scan_keeps_h(s, k + 1);
        }
        assert forall|st: CellScan| (#[trigger] cell_scan(s, k, st)).h_align == st.h_align by {
            lemma_scan_step(s, k, st);
        }
    }
}

/// A scan from `k` reaches the vertical marker at `i`, the last one, and ends
/// with the alignment it sets.
proof fn lemma_scan_last_v(s: Seq<char>, k: int, i: int)
    requires
        0 <= k <= i < s.len(),
        v_marker(s, i),
        forall|j: int| i < j < s.len() ==> !v_marker(s, j),
    ensures
        forall|st: CellScan| (#[trigger] cell_scan(s, k, st)).v_align == v_align_of_marker(s[i]),
    decreases i - k,
{
    if k == i {
        lemma_scan_keeps_v(s, i + 1);
    } else if arrow_at(s, k) {
        assert(i != k + 1 && i != k + 2);
        lemma_scan_last_v(s, k + 3, i);
    } else {
        lemma_scan_last_v(s, k + 1, i);
    }
    assert forall|st: CellScan| (#[trigger] cell_scan(s, k, st)).v_align == v_align_of_marker(s[i]) by {
        lemma_scan_step(s, k, st);
    }
}

/// A scan from `k` reaches the horizontal marker at `i`, the last one, and
/// ends with the alignment it sets.
proof fn lemma_scan_last_h(s: Seq<char>, k: int, i: int)
    requires
        0 <= k <= i < s.len(),
        h_marker(s, i),
        forall|j: int| i < j < s.len() ==> !h_marker(s, j),
    ensures
        forall|st: CellScan| (#[trigger] cell_scan(s, k, st)).h_align == h_align_of_marker(s[i]),
    decreases i - k,
{
    if k == i {
        lemma_scan_keeps_h(s, i + 1);
    } else if arrow_at(s, k) {
        assert(i != k + 1 && i != k + 2);
        lemma_scan_last_h(s, k + 3, i);
    } else {
        lemma_scan_last_h(s, k + 1, i);
    }
    assert forall|st: CellScan| (#[trigger] cell_scan(s, k, st)).h_align == h_align_of_marker(s[i]) by {
        lemma_scan_step(s, k, st);
    }
}

/// With no arrow from `k` on, the scan keeps the merge direction.
proof fn lemma_scan_keeps_merge(s: Seq<char>, k: int)
    requires
        0 <= k,
        forall|j: int| k <= j < s.len() ==> !arrow_at(s, j),
    ensures
        forall|st: CellScan| (#[trigger] cell_scan(s, k, st)).merge == st.merge,
    decreases s.len() - k,
{
    if k < s.len() {
        assert(!arrow_at(s, k));
        lemma_scan_keeps_merge(s, k + 1);
        assert forall|st: CellScan| (#[trigger] cell_scan(s, k, st)).merge == st.merge by {
            lemma_scan_step(s, k, st);
        }
    }
}

/// A scan from `k` reaches the arrow at `i`, the last one, and ends with the
/// merge direction it names.
proof fn lemma_scan_last_merge(s: Seq<char>, k: int, i: int)
    requires
        0 <= k <= i < s.len(),
        arrow_at(s, i),
        forall|j: int| i < j < s.len() ==> !arrow_at(s, j),
    ensures
        forall|st: CellScan| (#[trigger] cell_scan(s, k, st)).merge == Some(merge_of_arrow(s[i])),
    decreases i - k,
{
    if k == i {
        lemma_scan_keeps_merge(s, i + 3);
    } else if arrow_at(s, k) {
        assert(i != k + 1 && i != k + 2);
        lemma_scan_last_merge(s, k + 3, i);
    } else {
        lemma_scan_last_merge(s, k + 1, i);
    }
    assert forall|st: CellScan| (#[trigger] cell_scan(s, k, st)).merge == Some(merge_of_arrow(s[i])) by {
        lemma_scan_step(s, k, st);
    }
}

/// The last arrow of a cell (`<--`, `-->`, `^--`, `v--`) sets the direction
/// the cell merges in.
pub proof fn law_cell_merge_arrow(content: Seq<char>, i: int)
    requires
        0 <= i < trimmed(content).len(),
        arrow_at(trimmed(content), i),
        forall|j: int| i < j < trimmed(content).len() ==> !arrow_at(trimmed(content), j),
    ensures
        cell_of(content).merge == Some(merge_of_arrow(trimmed(content)[i])),
{
    lemma_scan_last_merge(trimmed(content), 0, i);
}

/// A cell without an arrow merges nowhere.
pub proof fn law_cell_no_merge(content: Seq<char>)
    requires
        forall|j: int| 0 <= j < trimmed(content).len() ==> !arrow_at(trimmed(content), j),
    ensures
        cell_of(content).merge is None,
{
    lemma_scan_keeps_merge(trimmed(content), 0);
}

/// The last vertical marker of a cell sets its vertical alignment: `^` top,
/// `=` center, `.` bottom, `_` baseline (so `| . slot1 |` is bottom-aligned).
pub proof fn law_cell_v_align_marker(content: Seq<char>, i: int)
    requires
        0 <= i < trimmed(content).len(),
        v_marker(trimmed(content), i),
        forall|j: int| i < j < trimmed(content).len() ==> !v_marker(trimmed(content), j),
    ensures
        cell_of(content).v_align == v_align_of_marker(trimmed(content)[i]),
{
    lemma_scan_last_v(trimmed(content), 0, i);
}

/// A cell without a vertical marker is top-aligned.
pub proof fn law_cell_v_align_default(content: Seq<char>)
    requires
        forall|j: int| 0 <= j < trimmed(content).len() ==> !v_marker(trimmed(content), j),
    ensures
        cell_of(content).v_align == VAlign::Top,
{
    lemma_scan_keeps_v(trimmed(content), 0);
}

/// The last horizontal marker of a cell sets its horizontal alignment: `<`
/// left, `!` center, `>` right.
pub proof fn law_cell_h_align_marker(content: Seq<char>, i: int)
    requires
        0 <= i < trimmed(content).len(),
        h_marker(trimmed(content), i),
        forall|j: int| i < j < trimmed(content).len() ==> !h_marker(trimmed(content), j),
    ensures
        cell_of(content).h_align == h_align_of_marker(trimmed(content)[i]),
{
    lemma_scan_last_h(trimmed(content), 0, i);
}

/// A cell without a horizontal marker is left-aligned.
pub proof fn law_cell_h_align_default(content: Seq<char>)
    requires
        forall|j: int| 0 <= j < trimmed(content).len() ==> !h_marker(trimmed(content), j),
    ensures
        cell_of(content).h_align == HAlign::Left,
{
    lemma_scan_keeps_h(trimmed(content), 0);
}

proof fn lemma_split_scan_nonempty(s: Seq<char>, start: int, i: int)
    ensures
        split_scan(s, start, i).len() >= 1,
    decreases s.len() - i,
{
    if i >= s.len() {
    } else if s[i] == '|' {
        lemma_split_scan_nonempty(s, i + 1, i + 1);
    } else {
        lemma_split_scan_nonempty(s, start, i + 1);
    }
}

/// The cell that a cell's text describes.
fn parse_cell(content: &[char]) -> (r: LayoutCell)
    ensures
        r@ == cell_of(content@),
{
    let (a, b) = trim_bounds(content, 0, content.len());
    proof {
        assert(content@.subrange(0, content@.len() as int) =~= content@);
    }
    let ghost t = content@.subrange(a as int, b as int);
    let mut h_align = HAlign::default();
    let mut v_align = VAlign::default();
    let mut merge: Option<MergeDirection> = None;
    let mut slot: Vec<char> = Vec::new();
    let mut i = a;
    while i < b
        invariant
            a <= i <= b,
            b <= content@.len(),
            t == content@.subrange(a as int, b as int),
            cell_scan(t, 0, cell_start()) == cell_scan(
                t,
                i - a,
                CellScan { slot: slot@, h_align, v_align, merge },
            ),
        decreases b - i,
    {
        let c = content[i];
        let arrow = b - i > 2 && content[i + 1] == '-' && content[i + 2] == '-';
        let ghost st = CellScan { slot: slot@, h_align, v_align, merge };
        proof {
            assert(t[i - a] == c);
            if i + 2 < b {
                assert(t[i - a + 1] == content@[i + 1]);
                assert(t[i - a + 2] == content@[i + 2]);
            }
            assert(arrow == arrow_after(t, i - a));
        }
        if c == '<' {
            if arrow {
                merge = Some(MergeDirection::Left);
                i = i + 3;
            } else {
                h_align = HAlign::Left;
                i = i + 1;
            }
        } else if c == '>' {
            if arrow {
                merge = Some(MergeDirection::Right);
                i = i + 3;
            } else {
                h_align = HAlign::Right;
                i = i + 1;
            }
        } else if c == '^' {
            if arrow {
                merge = Some(MergeDirection::Up);
                i = i + 3;
            } else {
                v_align = VAlign::Top;
                i = i + 1;
            }
        } else if c == 'v' && arrow {
            merge = Some(MergeDirection::Down);
            i = i + 3;
        } else if c == '.' {
            v_align = VAlign::Bottom;
            i = i + 1;
        } else if c == '!' {
            h_align = HAlign::Center;
            i = i + 1;
        } else if c == '=' {
            v_align = VAlign::Center;
            i = i + 1;
        } else if c == '_' {
            v_align = VAlign::Baseline;
            i = i + 1;
        } else if ('a' <= c && c <= 'u') || ('w' <= c && c <= 'z') || ('A' <= c && c <= 'Z')
            || ('0' <= c && c <= '9') || c == 'v' {
            slot.push(c);
            i = i + 1;
        } else {
            i = i + 1;
        }
    }
    let slot_name = if slot.len() > 0 {
        Some(string_of_chars(slot.as_slice(), 0, slot.len()))
    } else {
        None
    };
    proof {
        assert(slot@.subrange(0, slot@.len() as int) =~= slot@);
    }
    LayoutCell { slot_name, h_align, v_align, merge }
}

/// Whether two character sequences are equal.
fn chars_equal(x: &[char], y: &[char]) -> (r: bool)
    ensures
        r == (x@ == y@),
{
    if x.len() != y.len() {
        return false;
    }
    let mut i: usize = 0;
    while i < x.len()
        invariant
            x@.len() == y@.len(),
            i <= x@.len(),
            forall|j: int| 0 <= j < i ==> x@[j] == y@[j],
        decreases x@.len() - i,
    {
        if x[i] != y[i] {
            return false;
        }
        i = i + 1;
    }
    proof {
        assert(x@ =~= y@);
    }
    true
}

/// Splits a text at its `|` characters.
fn split_bars(s: &[char]) -> (r: Vec<Vec<char>>)
    ensures
        char_vecs_view(r@) == bar_parts(s@),
{
    let n = s.len();
    let mut out: Vec<Vec<char>> = Vec::new();
    let mut start: usize = 0;
    let mut i: usize = 0;
    while i < n
        invariant
            0 <= start <= i <= n,
            n == s@.len(),
            char_vecs_view(out@) + split_scan(s@, start as int, i as int) == bar_parts(s@),
        decreases n - i,
    {
        if s[i] == '|' {
            let part = chars_between(s, start, i);
            proof {
                let rest = split_scan(s@, i + 1, i + 1);
                assert(char_vecs_view(out@.push(part)) =~= char_vecs_view(out@).push(part@));
                assert(char_vecs_view(out@) + (seq![part@] + rest) =~= char_vecs_view(out@).push(part@) + rest);
            }
            out.push(part);
            start = i + 1;
        }
        i = i + 1;
    }
    let part = chars_between(s, start, n);
    proof {
        assert(char_vecs_view(out@.push(part)) =~= char_vecs_view(out@) + seq![part@]);
    }
    out.push(part);
    out
}

/// The values of a sequence of cells.
pub open spec fn cells_view(v: Seq<LayoutCell>) -> Seq<CellView> {
    v.map_values(|c: LayoutCell| c@)
}

/// The cells of `| cell | cell | ...`.
fn parse_cells(s: &[char]) -> (r: Vec<LayoutCell>)
    ensures
        cells_view(r@) == cells_of(s@),
{
    let parts = split_bars(s);
    let ghost pv = bar_parts(s@);
    proof {
        lemma_split_scan_nonempty(s@, 0, 0);
        assert(pv.len() == parts@.len());
    }
    let last = parts.len() - 1;
    let mut cells: Vec<LayoutCell> = Vec::new();
    let mut k: usize = 1;
    while k < parts.len()
        invariant
            1 <= k <= parts@.len(),
            last == parts@.len() - 1,
            char_vecs_view(parts@) == pv,
            pv == bar_parts(s@),
            cells_view(cells@) == cells_upto(pv, k as int),
        decreases parts@.len() - k,
    {
        let part = &parts[k];
        let (x, y) = trim_bounds(part.as_slice(), 0, part.len());
        proof {
            assert(pv[k as int] == part@);
            assert(pv.last() == parts@[last as int]@);
            assert(part@.subrange(0, part@.len() as int) =~= part@);
        }
        if x == y && chars_equal(part.as_slice(), parts[last].as_slice()) {
        } else {
            let cell = parse_cell(part.as_slice());
            proof {
                assert(cells_view(cells@.push(cell)) =~= cells_view(cells@).push(cell@));
            }
            cells.push(cell);
        }
        k = k + 1;
    }
    cells
}

/// The row that a grid row line describes; `None` if it holds no `|`.
fn parse_grid_row(line: &[char]) -> (r: Option<LayoutRow>)
    ensures
        match r {
            Some(row) => grid_row_of(line@) == Some(row@),
            None => grid_row_of(line@).is_none(),
        },
{
    let n = line.len();
    let first_pipe = first_of_between(line, 0, n, '|', '|');
    proof {
        assert(line@.subrange(0, n as int) =~= line@);
    }
    if first_pipe >= n {
        return None;
    }
    let (a, b) = trim_bounds(line, 0, first_pipe);
    proof {
        assert(line@.take(first_pipe as int) =~= line@.subrange(0, first_pipe as int));
    }
    let size = parse_optional_row_size(line, a, b);
    let rest = chars_between(line, first_pipe, n);
    proof {
        assert(line@.skip(first_pipe as int) =~= rest@);
    }
    let cells = parse_cells(rest.as_slice());
    Some(LayoutRow { size, cells })
}

} // verus!

verus! {

// =========================================================================
// The whole content
// =========================================================================

/// The column sizes of lines `from..to`: those of the first column sizes line
/// that gives any; a later one is reported and otherwise ignored.
pub open spec fn sizes_between(lines: Seq<Seq<char>>, from: int, to: int) -> Seq<SizeView>
    decreases to - from,
{
    if to <= from {
        seq![]
    } else {
        let prev = sizes_between(lines, from, to - 1);
        if line_type(lines[to - 1]) is ColumnSizes && prev.len() == 0 {
            column_sizes_of(lines[to - 1])
        } else {
            prev
        }
    }
}

/// The rows of the grid row lines among lines `from..to`.
pub open spec fn rows_between(lines: Seq<Seq<char>>, from: int, to: int) -> Seq<RowView>
    decreases to - from,
{
    if to <= from {
        seq![]
    } else {
        let prev = rows_between(lines, from, to - 1);
        if line_type(lines[to - 1]) is GridRow {
            match grid_row_of(lines[to - 1]) {
                Some(row) => prev.push(row),
                None => prev,
            }
        } else {
            prev
        }
    }
}

/// The number of instruction lines among lines `from..to`.
pub open spec fn instruction_lines(lines: Seq<Seq<char>>, from: int, to: int) -> nat
    decreases to - from,
{
    if to <= from {
        0
    } else {
        instruction_lines(lines, from, to - 1) + if line_type(lines[to - 1]) is Instruction { 1nat } else { 0nat }
    }
}

/// The indices of the column sizes lines among lines `from..to` that come
/// after sizes were already read (each is reported).
pub open spec fn warning_lines(lines: Seq<Seq<char>>, from: int, to: int) -> Seq<int>
    decreases to - from,
{
    if to <= from {
        seq![]
    } else {
        let prev = warning_lines(lines, from, to - 1);
        if line_type(lines[to - 1]) is ColumnSizes && sizes_between(lines, from, to - 1).len() > 0 {
            prev.push(to - 1)
        } else {
            prev
        }
    }
}

/// The span of line `idx`, from byte offsets that count one byte of line
/// ending per line; a line past the end has an empty span after all lines.
pub open spec fn line_span_of(lines: Seq<Seq<char>>, base: u32, idx: int) -> Span {
    let before = if idx < lines.len() { idx } else { lines.len() as int };
    let offset = base + lines_bytes(lines.take(before));
    let len = if 0 <= idx < lines.len() { utf8_len(lines[idx]) } else { 0 };
    Span { start: offset as u32, end: (offset + len) as u32 }
}

/// The number of cells that every row must have: as many as the first.
pub open spec fn expected_columns(rows: Seq<RowView>) -> nat {
    if rows.len() > 0 {
        rows[0].cells.len()
    } else {
        0
    }
}

/// The indices of the first `k` rows whose number of cells is not the expected one.
pub open spec fn mismatched_rows(rows: Seq<RowView>, k: int) -> Seq<int>
    decreases k,
{
    if k <= 0 {
        seq![]
    } else {
        let prev = mismatched_rows(rows, k - 1);
        if rows[k - 1].cells.len() != expected_columns(rows) {
            prev.push(k - 1)
        } else {
            prev
        }
    }
}

/// Whether column sizes were given and their number is not the number of columns.
pub open spec fn sizes_mismatch(rows: Seq<RowView>, sizes: Seq<SizeView>) -> bool {
    rows.len() > 0 && sizes.len() > 0 && sizes.len() != expected_columns(rows)
}

/// The message for a row whose number of cells is wrong.
pub open spec fn row_message(i: int, count: nat, expected: nat) -> Seq<char> {
    "row "@ + decimal((i + 1) as nat) + " has "@ + decimal(count) + " cells, expected "@ + decimal(expected)
        + " (matching first row)"@
}

/// The message for column sizes whose number is wrong.
pub open spec fn columns_message(count: nat, expected: nat) -> Seq<char> {
    "column sizes count ("@ + decimal(count) + ") doesn't match column count ("@ + decimal(expected) + ")"@
}

/// A diagnostic with a severity, a code, a message and a span, and nothing else.
pub open spec fn is_layout_diag(d: Diagnostic, severity: Severity, code: Seq<char>, message: Seq<char>, span: Span) -> bool {
    &&& d.code matches Some(c) && c@ == code
    &&& d.severity == severity
    &&& d.message@ == message
    &&& d.span == span
    &&& d.labels@.len() == 0
    &&& d.suggestions@.len() == 0
    &&& d.help.is_none()
    &&& d.related@.len() == 0
    &&& d.tags@.len() == 0
    &&& d.data.is_none()
}

/// What a parse of lines `from..` adds to the diagnostics `d0`, giving `d1`:
/// first, line by line, what the main parser reports of each instruction
/// line (at least one diagnostic where it yields no instruction) and a warning
/// for each column sizes line after the first; then an error for each row
/// whose number of cells differs from the first row's, and one if the number
/// of column sizes differs from it.
pub open spec fn layout_diagnostics(
    d0: Seq<Diagnostic>,
    d1: Seq<Diagnostic>,
    lines: Seq<Seq<char>>,
    text: Seq<char>,
    base: u32,
    from: int,
    instructions: nat,
) -> bool {
    let n = lines.len() as int;
    let rows = rows_between(lines, from, n);
    let sizes = sizes_between(lines, from, n);
    let warns = warning_lines(lines, from, n);
    let bad = mismatched_rows(rows, rows.len() as int);
    let tail = bad.len() + if sizes_mismatch(rows, sizes) { 1nat } else { 0nat };
    let icount = instruction_lines(lines, from, n);
    &&& d1.len() >= d0.len() + warns.len() + tail + (icount - instructions)
    &&& d1.subrange(0, d0.len() as int) == d0
    &&& forall|j: int|
        0 <= j < bad.len() ==> is_layout_diag(
            #[trigger] d1[d1.len() - tail + j],
            Severity::Error,
            "E0301"@,
            row_message(bad[j], rows[bad[j]].cells.len(), expected_columns(rows)),
            line_span_of(lines, base, bad[j]),
        )
    &&& sizes_mismatch(rows, sizes) ==> is_layout_diag(
        d1.last(),
        Severity::Error,
        "E0301"@,
        columns_message(sizes.len(), expected_columns(rows)),
        Span { start: base, end: (base + utf8_len(text)) as u32 },
    )
    &&& icount == 0 ==> {
        &&& d1.len() == d0.len() + warns.len() + tail
        &&& forall|j: int|
            0 <= j < warns.len() ==> is_layout_diag(
                #[trigger] d1[d0.len() + j],
                Severity::Warning,
                "E0303"@,
                "multiple column size lines, using the first one"@,
                line_span_of(lines, base, warns[j]),
            )
    }
}

/// Whether `s[lo..hi]`, after spaces and tabs, starts with a size.
fn looks_like_sizes(s: &[char], lo: usize, hi: usize) -> (r: bool)
    requires
        lo <= hi <= s@.len(),
    ensures
        r == looks_like_sizes_spec(s@.subrange(lo as int, hi as int)),
{
    let mut i = lo;
    while i < hi
        invariant
            lo <= i <= hi,
            hi <= s@.len(),
            looks_like_sizes_spec(s@.subrange(lo as int, hi as int)) == looks_like_sizes_spec(
                s@.subrange(i as int, hi as int),
            ),
        decreases hi - i,
    {
        let ch = s[i];
        proof {
            let t = s@.subrange(i as int, hi as int);
            assert(t[0] == ch);
            assert(t.drop_first() =~= s@.subrange(i + 1, hi as int));
        }
        if ch == ' ' || ch == '\t' {
            i = i + 1;
        } else {
            return ch == '~' || ch == '#' || ('0' <= ch && ch <= '9');
        }
    }
    false
}

/// The message for a row whose number of cells is wrong.
fn row_message_string(i: usize, count: usize, expected: usize) -> (r: String)
    requires
        i < usize::MAX,
    ensures
        r@ == row_message(i as int, count as nat, expected as nat),
{
    let mut out = String::new();
    push_str(&mut out, "row ");
    push_decimal(&mut out, i + 1);
    push_str(&mut out, " has ");
    push_decimal(&mut out, count);
    push_str(&mut out, " cells, expected ");
    push_decimal(&mut out, expected);
    push_str(&mut out, " (matching first row)");
    proof {
        assert(out@ =~= row_message(i as int, count as nat, expected as nat));
    }
    out
}

/// The message for column sizes whose number is wrong.
fn columns_message_string(count: usize, expected: usize) -> (r: String)
    ensures
        r@ == columns_message(count as nat, expected as nat),
{
    let mut out = String::new();
    push_str(&mut out, "column sizes count (");
    push_decimal(&mut out, count);
    push_str(&mut out, ") doesn't match column count (");
    push_decimal(&mut out, expected);
    push_str(&mut out, ")");
    proof {
        assert(out@ =~= columns_message(count as nat, expected as nat));
    }
    out
}

} // verus!

verus! {

/// Layout parser state
pub struct LayoutParser<'a> {
    /// The raw layout content (between `"""layout` and `"""`)
    content: &'a str,
    /// Lines of content
    lines: Vec<Vec<char>>,
    /// Current line index
    current_line: usize,
    /// Base span offset (start of the layout block in the enclosing source)
    base_offset: u32,
}

impl<'a> LayoutParser<'a> {
    /// The characters of the content.
    pub closed spec fn text(&self) -> Seq<char> {
        self.content@
    }

    /// The lines of the content.
    pub closed spec fn lines(&self) -> Seq<Seq<char>> {
        char_vecs_view(self.lines@)
    }

    /// The index of the next line to read.
    pub closed spec fn line_index(&self) -> int {
        self.current_line as int
    }

    /// The offset of the content in the source.
    pub closed spec fn base(&self) -> u32 {
        self.base_offset
    }

    /// The lines are those of the content, and the next line is one of them or the end.
    pub closed spec fn well_formed(&self) -> bool {
        &&& self.lines() == text_lines(self.content@)
        &&& self.current_line <= self.lines@.len()
    }

    /// Every offset into the content, and one past it, fits in a span.
    pub open spec fn offsets_fit(&self) -> bool {
        self.base() + utf8_len(self.text()) + 1 <= u32::MAX
    }

    /// Create a new layout parser
    pub fn new(content: &'a str, base_offset: u32) -> (r: Self)
        ensures
            r.well_formed(),
            r.text() == content@,
            r.lines() == text_lines(content@),
            r.line_index() == 0,
            r.base() == base_offset,
    {
        let chars = chars_of(content);
        let lines = split_lines(chars.as_slice());
        LayoutParser { content, lines, current_line: 0, base_offset }
    }

    /// Classify a line by its content
    fn classify_line(&self, line: &[char]) -> (r: LineType)
        ensures
            r == line_type(line@),
    {
        let n = line.len();
        let (a, b) = trim_bounds(line, 0, n);
        proof {
            assert(line@.subrange(0, n as int) =~= line@);
        }
        if a == b {
            return LineType::Empty;
        }
        // Check for instruction prefix
        if b - a >= 2 && line[a] == '.' && line[a + 1] == '.' {
            return LineType::Instruction;
        }
        // Check for grid row (has pipe characters)
        if contains_char(line, 0, n, '|') {
            return LineType::GridRow;
        }
        // Check for size tokens (numbers, ~number, #)
        if looks_like_sizes(line, a, b) {
            return LineType::ColumnSizes;
        }
        LineType::Empty
    }

    /// Parse an instruction line (starting with `..`) with the main parser,
    /// and add what that reports to the diagnostics.
    #[verifier::rlimit(30)]
    fn parse_instruction_line(&self, line: &[char], diagnostics: &mut Diagnostics) -> (r: Option<InstructionExpr>)
        requires
            line_type(line@) is Instruction,
            utf8_len(line@) < u32::MAX,
        ensures
            instruction_line_read(line@, r),
            final(diagnostics)@.len() >= old(diagnostics)@.len(),
            final(diagnostics)@.subrange(0, old(diagnostics)@.len() as int) == old(diagnostics)@,
            r.is_none() ==> final(diagnostics)@.len() > old(diagnostics)@.len(),
    {
        let n = line.len();
        let (a, b) = trim_bounds(line, 0, n);
        proof {
            assert(line@.subrange(0, n as int) =~= line@);
            assert(line@.subrange(a as int, b as int)[0] == line@[a as int]);
            assert(line@.subrange(a as int, b as int)[1] == line@[a + 1]);
        }
        // Strip the `..` prefix
        let (c, d) = trim_bounds(line, a + 2, b);
        let text = string_of_chars(line, c, d);
        proof {
            lemma_utf8_len_subrange(line@, c as int, d as int);
        }
        // Re-lex and re-parse using the main parser
        let src = text.as_str();
        let mut parser = Parser::new(src);
        let ghost ts = parser.token_seq();
        let ghost d = parser.reported_so_far();
        proof {
            parser.lemma_views();
        }
        let result = parser.parse_instruction_expr();
        proof {
            assert(line@.subrange(a as int, b as int).subrange(2, b - a) =~= line@.subrange(a + 2, b as int));
            assert(token_stream(src.spec_bytes(), ts, d));
            assert(instruction_expr_read(src, ts, 0, result));
            assert(forall|i: int| 0 <= i < ts.len() ==> kind_fits(src.spec_bytes(), #[trigger] ts[i]));
        }
        let ghost before = diagnostics@;
        diagnostics.merge(parser.diagnostics);
        proof {
            assert(diagnostics@.subrange(0, before.len() as int) =~= before);
        }
        result
    }

    /// Parse the layout content from the current line on; the result holds
    /// the instructions, the column sizes and the rows, and the rows are
    /// checked against the first one and the column sizes.
    pub fn parse(&mut self, diagnostics: &mut Diagnostics) -> (r: Option<LayoutStmt>)
        requires
            old(self).well_formed(),
            old(self).offsets_fit(),
        ensures
            final(self).well_formed(),
            final(self).text() == old(self).text(),
            final(self).lines() == old(self).lines(),
            final(self).base() == old(self).base(),
            final(self).line_index() == old(self).lines().len(),
            r is Some,
            r matches Some(stmt) ==> exists|origin: Seq<int>| #[trigger] instructions_from(
                origin,
                old(self).lines(),
                old(self).line_index(),
                old(self).lines().len() as int,
                stmt.instructions@,
            ),
            r matches Some(stmt) ==> {
                let lines = old(self).lines();
                let from = old(self).line_index();
                let n = lines.len() as int;
                &&& sizes_view(stmt.column_sizes@) == sizes_between(lines, from, n)
                &&& rows_view(stmt.rows@) == rows_between(lines, from, n)
                &&& stmt.instructions@.len() <= instruction_lines(lines, from, n)
                &&& layout_diagnostics(
                    old(diagnostics)@,
                    final(diagnostics)@,
                    lines,
                    old(self).text(),
                    old(self).base(),
                    from,
                    stmt.instructions@.len(),
                )
            },
    {
        let ghost lines = self.lines();
        let ghost text = self.text();
        let ghost base = self.base();
        let ghost from = self.current_line as int;
        let ghost n = lines.len() as int;
        let ghost d0 = diagnostics@;
        proof {
            lemma_lines_scan_bytes(text, 0, 0);
            assert(text.subrange(0, text.len() as int) =~= text);
        }
        let mut instructions: Vec<InstructionExpr> = Vec::new();
        let ghost mut origin: Seq<int> = Seq::empty();
        let mut column_sizes: Vec<LayoutSize> = Vec::new();
        let mut rows: Vec<LayoutRow> = Vec::new();

        while self.current_line < self.lines.len()
            invariant
                self.well_formed(),
                self.offsets_fit(),
                self.text() == text,
                self.lines() == lines,
                self.base() == base,
                n == lines.len(),
                n == self.lines@.len(),
                from <= self.current_line <= n,
                lines_bytes(lines) <= utf8_len(text) + 1,
                sizes_view(column_sizes@) == sizes_between(lines, from, self.current_line as int),
                rows_view(rows@) == rows_between(lines, from, self.current_line as int),
                instructions@.len() <= instruction_lines(lines, from, self.current_line as int),
                instructions_from(origin, lines, from, self.current_line as int, instructions@),
                diagnostics@.len() >= d0.len() + warning_lines(lines, from, self.current_line as int).len()
                    + (instruction_lines(lines, from, self.current_line as int) - instructions@.len()),
                diagnostics@.subrange(0, d0.len() as int) == d0,
                instruction_lines(lines, from, self.current_line as int) == 0 ==> {
                    let warns = warning_lines(lines, from, self.current_line as int);
                    &&& diagnostics@.len() == d0.len() + warns.len()
                    &&& forall|j: int|
                        0 <= j < warns.len() ==> is_layout_diag(
                            #[trigger] diagnostics@[d0.len() + j],
                            Severity::Warning,
                            "E0303"@,
                            "multiple column size lines, using the first one"@,
                            line_span_of(lines, base, warns[j]),
                        )
                },
            decreases n - self.current_line,
        {
            let k = self.current_line;
            let line = &self.lines[k];
            let line_type = self.classify_line(line.as_slice());
            let ghost before = diagnostics@;
            proof {
                assert(line@ == lines[k as int]);
                lemma_lines_bytes_prefix(lines, k as int);
            }
            match line_type {
                LineType::Empty => {},
                LineType::Instruction => {
                    if let Some(instr) = self.parse_instruction_line(line.as_slice(), diagnostics) {
                        proof {
                            origin = origin.push(k as int);
                        }
                        instructions.push(instr);
                    }
                    proof {
                        assert(diagnostics@.subrange(0, d0.len() as int)
                            =~= diagnostics@.subrange(0, before.len() as int).subrange(0, d0.len() as int));
                    }
                },
                LineType::ColumnSizes => {
                    if column_sizes.len() == 0 {
                        column_sizes = parse_column_sizes(line.as_slice());
                    } else {
                        // Multiple column size lines - emit warning and use the first
                        let span = self.line_span(k);
                        let d = Diagnostic::warning("multiple column size lines, using the first one", span)
                            .with_code("E0303");
                        diagnostics.add(d);
                        proof {
                            assert(diagnostics@.subrange(0, d0.len() as int) =~= before.subrange(0, d0.len() as int));
                        }
                    }
                },
                LineType::GridRow => {
                    if let Some(row) = parse_grid_row(line.as_slice()) {
                        proof {
                            assert(rows_view(rows@.push(row)) =~= rows_view(rows@).push(row@));
                        }
                        rows.push(row);
                    }
                },
            }
            self.current_line = k + 1;
        }

        // Validate column counts
        let ghost mid = diagnostics@;
        let ghost rv = rows_view(rows@);
        if rows.len() > 0 {
            let expected_cols = rows[0].cells.len();
            let mut i: usize = 0;
            while i < rows.len()
                invariant
                    instructions_from(origin, lines, from, n, instructions@),
                    i <= rows@.len(),
                    rv == rows_view(rows@),
                    rv.len() > 0,
                    expected_cols == expected_columns(rv),
                    self.well_formed(),
                    self.offsets_fit(),
                    self.lines() == lines,
                    self.base() == base,
                    diagnostics@.len() == mid.len() + mismatched_rows(rv, i as int).len(),
                    diagnostics@.subrange(0, mid.len() as int) == mid,
                    forall|j: int|
                        0 <= j < mismatched_rows(rv, i as int).len() ==> is_layout_diag(
                            #[trigger] diagnostics@[mid.len() + j],
                            Severity::Error,
                            "E0301"@,
                            row_message(
                                mismatched_rows(rv, i as int)[j],
                                rv[mismatched_rows(rv, i as int)[j]].cells.len(),
                                expected_cols as nat,
                            ),
                            line_span_of(lines, base, mismatched_rows(rv, i as int)[j]),
                        ),
                decreases rows@.len() - i,
            {
                let ghost before = diagnostics@;
                if rows[i].cells.len() != expected_cols {
                    let msg = row_message_string(i, rows[i].cells.len(), expected_cols);
                    let span = self.line_span(i);
                    let d = Diagnostic::error(msg.as_str(), span).with_code("E0301");
                    diagnostics.add(d);
                    proof {
                        assert(diagnostics@.subrange(0, mid.len() as int) =~= before.subrange(0, mid.len() as int));
                    }
                }
                i = i + 1;
            }

            // Validate column sizes count if specified
            if column_sizes.len() > 0 && column_sizes.len() != expected_cols {
                let ghost before = diagnostics@;
                let msg = columns_message_string(column_sizes.len(), expected_cols);
                let end = self.base_offset + (self.content.len() as u32);
                let d = Diagnostic::error(msg.as_str(), Span::new(self.base_offset, end)).with_code("E0301");
                diagnostics.add(d);
                proof {
                    assert(diagnostics@.subrange(0, mid.len() as int) =~= before.subrange(0, mid.len() as int));
                    assert forall|j: int| 0 <= j < before.len() implies diagnostics@[j] == before[j] by {}
                }
            }
        }
        proof {
            assert(instructions_from(origin, lines, from, n, instructions@));
            assert(lines == old(self).lines() && from == old(self).line_index() && n == old(self).lines().len());
            assert(instructions_from(origin, old(self).lines(), old(self).line_index(), old(self).lines().len() as int, instructions@));
            assert(diagnostics@.subrange(0, d0.len() as int) =~= mid.subrange(0, d0.len() as int));
            assert(rv == rows_between(lines, from, n));
            assert(sizes_view(column_sizes@).len() == column_sizes@.len());
            let bad = mismatched_rows(rv, rv.len() as int);
            let tail = bad.len() + if sizes_mismatch(rv, sizes_view(column_sizes@)) { 1nat } else { 0nat };
            if rv.len() == 0 {
                assert(bad.len() == 0);
                assert(diagnostics@ == mid);
            } else {
                assert(rv[0].cells.len() == rows@[0].cells@.len());
                assert(diagnostics@.len() == mid.len() + tail);
            }
            assert(diagnostics@.len() == mid.len() + tail);
            assert forall|j: int| 0 <= j < mid.len() implies #[trigger] diagnostics@[j] == mid[j] by {
                assert(diagnostics@.subrange(0, mid.len() as int)[j] == diagnostics@[j]);
            }
        }
        let stmt = LayoutStmt { instructions, column_sizes, rows };
        proof {
            assert(instructions_from(origin, old(self).lines(), old(self).line_index(), old(self).lines().len() as int, stmt.instructions@));
            assert(exists|o: Seq<int>| #[trigger] instructions_from(o, old(self).lines(), old(self).line_index(), old(self).lines().len() as int, stmt.instructions@));
        }
        let r = Some(stmt);
        proof {
            assert(r == Some(stmt));
            assert(r->0.instructions@ == stmt.instructions@);
            assert(r matches Some(st) ==> exists|o: Seq<int>| #[trigger] instructions_from(o, old(self).lines(), old(self).line_index(), old(self).lines().len() as int, st.instructions@));
        }
        r
    }

    /// Get a span for a line
    fn line_span(&self, line_idx: usize) -> (r: Span)
        requires
            self.well_formed(),
            self.offsets_fit(),
        ensures
            r == line_span_of(self.lines(), self.base(), line_idx as int),
    {
        let ghost lines = self.lines();
        proof {
            lemma_lines_scan_bytes(self.content@, 0, 0);
            assert(self.content@.subrange(0, self.content@.len() as int) =~= self.content@);
        }
        // Calculate approximate offset for this line
        let mut offset: u32 = 0;
        let mut i: usize = 0;
        while i < self.lines.len() && i < line_idx
            invariant
                i <= self.lines@.len(),
                i <= line_idx,
                lines == char_vecs_view(self.lines@),
                lines_bytes(lines) <= utf8_len(self.content@) + 1,
                self.base_offset + utf8_len(self.content@) + 1 <= u32::MAX,
                offset == lines_bytes(lines.take(i as int)),
            decreases self.lines@.len() - i,
        {
            proof {
                lemma_lines_bytes_prefix(lines, i as int);
                assert(lines[i as int] == self.lines@[i as int]@);
                assert(self.lines@[i as int]@.subrange(0, self.lines@[i as int]@.len() as int)
                    =~= self.lines@[i as int]@);
            }
            let len = chars_utf8_len(self.lines[i].as_slice(), 0, self.lines[i].len());
            offset = offset + len + 1;
            i = i + 1;
        }
        proof {
            lemma_lines_bytes_prefix(lines, i as int);
            if line_idx >= self.lines@.len() {
                assert(i == self.lines@.len());
            } else {
                assert(i == line_idx);
                assert(lines[i as int] == self.lines@[i as int]@);
            }
        }
        let line_len = if line_idx < self.lines.len() {
            proof {
                assert(self.lines@[line_idx as int]@.subrange(0, self.lines@[line_idx as int]@.len() as int)
                    =~= self.lines@[line_idx as int]@);
            }
            chars_utf8_len(self.lines[line_idx].as_slice(), 0, self.lines[line_idx].len())
        } else {
            0
        };
        Span::new(self.base_offset + offset, self.base_offset + offset + line_len)
    }
}

} // verus!
