//! Terminal formatting for diagnostics.
//!
//! A diagnostic renders as a header, its location, the source line it points
//! at with an underline, and then its notes, help text and suggestions. The
//! plain and the colored rendering share one layout; they differ only in the
//! escape codes placed around its parts.

pub mod ansi;
pub mod colors;

use vstd::prelude::*;
use vstd::string::*;
use vstd::utf8::*;
use crate::source::{line_col_at, line_starts_of, LineCol, LineIndex};
use crate::text::{decimal, push_char, push_decimal, push_repeat, push_str, repeat_char};
use super::{Diagnostic, Label, RelatedInfo, Suggestion};
use colors::{BLUE, BOLD, CYAN, GREEN, RESET, RED, YELLOW};

verus! {

broadcast use vstd::seq::group_seq_axioms;

/// The escape codes a rendering places around its parts; all empty for plain text.
pub struct Palette {
    /// Opens the emphasized parts (severity and message).
    pub emphasis: &'static str,
    /// Closes any colored part.
    pub reset: &'static str,
    /// The color of the severity and of the underline.
    pub severity: &'static str,
    /// The color of the location arrow and of the source gutter.
    pub frame: &'static str,
    /// The color of notes.
    pub note: &'static str,
    /// The color of help text and suggestions.
    pub help: &'static str,
}

/// The palette of plain text.
pub open spec fn plain_palette() -> Palette {
    Palette { emphasis: "", reset: "", severity: "", frame: "", note: "", help: "" }
}

/// The palette of a colored rendering of a diagnostic of the given severity.
pub open spec fn colored_palette(severity: super::Severity) -> Palette {
    Palette {
        emphasis: BOLD,
        reset: RESET,
        severity: match severity {
            super::Severity::Error => RED,
            super::Severity::Warning => YELLOW,
            super::Severity::Info => BLUE,
            super::Severity::Hint => CYAN,
        },
        frame: BLUE,
        note: CYAN,
        help: GREEN,
    }
}

fn plain() -> (r: Palette)
    ensures
        r == plain_palette(),
{
    Palette { emphasis: "", reset: "", severity: "", frame: "", note: "", help: "" }
}

fn colored(severity: super::Severity) -> (r: Palette)
    ensures
        r == colored_palette(severity),
{
    let sev = match severity {
        super::Severity::Error => RED,
        super::Severity::Warning => YELLOW,
        super::Severity::Info => BLUE,
        super::Severity::Hint => CYAN,
    };
    Palette { emphasis: BOLD, reset: RESET, severity: sev, frame: BLUE, note: CYAN, help: GREEN }
}

/// `n` spaces.
pub open spec fn spaces(n: nat) -> Seq<char> {
    repeat_char(' ', n)
}

/// The bracketed error code of the header, if the diagnostic has one.
pub open spec fn code_text(code: Option<String>) -> Seq<char> {
    match code {
        Some(c) => "["@ + c@ + "]"@,
        None => Seq::empty(),
    }
}

/// `severity[code]: message`
pub open spec fn header_text(diag: &Diagnostic, p: Palette) -> Seq<char> {
    p.emphasis@ + p.severity@ + diag.severity.as_str_spec() + code_text(diag.code) + p.reset@
        + ": "@ + p.emphasis@ + diag.message@ + p.reset@ + "\n"@
}

/// `line:col`
pub open spec fn at_text(pos: LineCol) -> Seq<char> {
    decimal(pos.line as nat) + ":"@ + decimal(pos.col as nat)
}

/// `  --> file:line:col`
pub open spec fn location_text(pos: LineCol, filename: &str, p: Palette) -> Seq<char> {
    "  "@ + p.frame@ + "-->"@ + p.reset@ + " "@ + filename@ + ":"@ + at_text(pos) + "\n"@
}

/// The characters of line `l` (counted from 0) of `source`, without its newline.
pub open spec fn line_chars(source: &str, starts: Seq<u32>, l: int) -> Seq<char> {
        let end = if l + 1 < starts.len() {
        starts[l + 1] - 1
    } else {
        source.spec_bytes().len() as int
    };
    decode_utf8(source.spec_bytes().subrange(starts[l] as int, end))
}

/// The number of carets under a span: its length, at least one.
pub open spec fn underline_width(diag: &Diagnostic) -> nat {
    if diag.span.end - diag.span.start >= 1 {
        (diag.span.end - diag.span.start) as nat
    } else {
        1
    }
}

/// The source line the diagnostic points at, framed by a gutter, and the
/// underline of its span.
pub open spec fn context_text(diag: &Diagnostic, source: &str, starts: Seq<u32>, p: Palette) -> Seq<char> {
    let pos = line_col_at(source.spec_bytes(), starts, diag.span.start);
    let l = pos.line - 1;
    let number = decimal(pos.line as nat);
    let gutter = spaces(number.len());
    (p.frame@ + gutter + " |"@ + p.reset@ + "\n"@)
        + (p.frame@ + number + " |"@ + p.reset@ + " "@ + line_chars(source, starts, l) + "\n"@)
        + (p.frame@ + gutter + " |"@ + p.reset@ + " "@
            + spaces((diag.span.start - starts[l]) as nat) + p.severity@
            + repeat_char('^', underline_width(diag)) + p.reset@ + "\n"@)
}

/// A note for a label; labels without a message print nothing.
pub open spec fn label_text(label: Label, bytes: Seq<u8>, starts: Seq<u32>, p: Palette) -> Seq<char> {
    if label.message@.len() == 0 {
        Seq::empty()
    } else {
        "  "@ + p.note@ + "= note:"@ + p.reset@ + " "@ + label.message@ + " (at "@
            + at_text(line_col_at(bytes, starts, label.span.start)) + ")\n"@
    }
}

pub open spec fn labels_text(labels: Seq<Label>, bytes: Seq<u8>, starts: Seq<u32>, p: Palette) -> Seq<char>
    decreases labels.len(),
{
    if labels.len() == 0 {
        Seq::empty()
    } else {
        labels_text(labels.drop_last(), bytes, starts, p) + label_text(labels.last(), bytes, starts, p)
    }
}

/// `file:` for related information that names its file.
pub open spec fn file_prefix(file: Option<String>) -> Seq<char> {
    match file {
        Some(f) => f@ + ":"@,
        None => Seq::empty(),
    }
}

/// A note for related information, with its file when it names one.
pub open spec fn related_text(related: RelatedInfo, bytes: Seq<u8>, starts: Seq<u32>, p: Palette) -> Seq<char> {
    "  "@ + p.note@ + "= note:"@ + p.reset@ + " "@ + related.message@ + " (at "@ + file_prefix(related.file)
        + at_text(line_col_at(bytes, starts, related.span.start)) + ")\n"@
}

pub open spec fn related_all_text(related: Seq<RelatedInfo>, bytes: Seq<u8>, starts: Seq<u32>, p: Palette) -> Seq<char>
    decreases related.len(),
{
    if related.len() == 0 {
        Seq::empty()
    } else {
        related_all_text(related.drop_last(), bytes, starts, p) + related_text(related.last(), bytes, starts, p)
    }
}

pub open spec fn help_text(help: Option<String>, p: Palette) -> Seq<char> {
    match help {
        Some(h) => "  "@ + p.help@ + "= help:"@ + p.reset@ + " "@ + h@ + "\n"@,
        None => Seq::empty(),
    }
}

/// A line for a suggestion; suggestions without a message print nothing.
pub open spec fn suggestion_text(suggestion: Suggestion, p: Palette) -> Seq<char> {
    if suggestion.message@.len() == 0 {
        Seq::empty()
    } else {
        "  "@ + p.help@ + "= suggestion:"@ + p.reset@ + " "@ + suggestion.message@ + "\n"@
    }
}

pub open spec fn suggestions_text(suggestions: Seq<Suggestion>, p: Palette) -> Seq<char>
    decreases suggestions.len(),
{
    if suggestions.len() == 0 {
        Seq::empty()
    } else {
        suggestions_text(suggestions.drop_last(), p) + suggestion_text(suggestions.last(), p)
    }
}

/// The full rendering of one diagnostic.
pub open spec fn diagnostic_text(
    diag: &Diagnostic,
    source: &str,
    filename: &str,
    starts: Seq<u32>,
    p: Palette,
) -> Seq<char> {
    header_text(diag, p)
        + location_text(line_col_at(source.spec_bytes(), starts, diag.span.start), filename, p)
        + context_text(diag, source, starts, p)
        + labels_text(diag.labels@, source.spec_bytes(), starts, p)
        + related_all_text(diag.related@, source.spec_bytes(), starts, p)
        + help_text(diag.help, p)
        + suggestions_text(diag.suggestions@, p)
}

/// What rendering a diagnostic against a source text needs: the line starts
/// of that text, offsets that fit in `u32`, and a span that does not end
/// before it starts.
pub open spec fn renderable(diag: &Diagnostic, source: &str, starts: Seq<u32>) -> bool {
    &&& starts == line_starts_of(source.spec_bytes())
    &&& source.spec_bytes().len() < u32::MAX
    &&& diag.span.start <= diag.span.end
    &&& diag.span.start < u32::MAX
    &&& forall|i: int| 0 <= i < diag.labels@.len() ==> #[trigger] diag.labels@[i].span.start < u32::MAX
    &&& forall|i: int| 0 <= i < diag.related@.len() ==> #[trigger] diag.related@[i].span.start < u32::MAX
}

/// The number of digits of `n` in decimal.
fn decimal_width(n: u32) -> (r: usize)
    ensures
        r == decimal(n as nat).len(),
        r <= n + 1,
    decreases n,
{
    if n < 10 {
        1
    } else {
        let w = decimal_width(n / 10);
        proof {
            assert(decimal(n as nat) == decimal((n / 10) as nat).push(crate::text::digit_char((n % 10) as nat)));
        }
        w + 1
    }
}

fn push_code(out: &mut String, code: &Option<String>)
    ensures
        final(out)@ == old(out)@ + code_text(*code),
{
    match code {
        Some(c) => {
            push_str(out, "[");
            push_str(out, c.as_str());
            push_str(out, "]");
            proof {
                assert(final(out)@ =~= old(out)@ + code_text(*code));
            }
        },
        None => {
            proof {
                assert(out@ =~= old(out)@ + code_text(*code));
            }
        },
    }
}

fn push_header(out: &mut String, diag: &Diagnostic, p: &Palette)
    ensures
        final(out)@ == old(out)@ + header_text(diag, *p),
{
    let ghost o = out@;
    push_str(out, p.emphasis);
    push_str(out, p.severity);
    push_str(out, diag.severity.as_str());
    let ghost o1 = out@;
    push_code(out, &diag.code);
    let ghost o2 = out@;
    push_str(out, p.reset);
    push_str(out, ": ");
    push_str(out, p.emphasis);
    push_str(out, diag.message.as_str());
    push_str(out, p.reset);
    push_str(out, "\n");
    proof {
        assert(o1 =~= o + (p.emphasis@ + p.severity@ + diag.severity.as_str_spec()));
        assert(o2 =~= o + (p.emphasis@ + p.severity@ + diag.severity.as_str_spec() + code_text(diag.code)));
        assert(out@ =~= o + header_text(diag, *p));
    }
}

fn push_at(out: &mut String, pos: LineCol)
    ensures
        final(out)@ == old(out)@ + at_text(pos),
{
    let ghost o = out@;
    push_decimal(out, pos.line as usize);
    push_str(out, ":");
    push_decimal(out, pos.col as usize);
    proof {
        assert(out@ =~= o + at_text(pos));
    }
}

fn push_location(out: &mut String, pos: LineCol, filename: &str, p: &Palette)
    ensures
        final(out)@ == old(out)@ + location_text(pos, filename, *p),
{
    let ghost o = out@;
    push_str(out, "  ");
    push_str(out, p.frame);
    push_str(out, "-->");
    push_str(out, p.reset);
    push_str(out, " ");
    push_str(out, filename);
    push_str(out, ":");
    let ghost o1 = out@;
    push_at(out, pos);
    push_str(out, "\n");
    proof {
        assert(out@ =~= o + location_text(pos, filename, *p));
    }
}

/// `   |` on its own line: the gutter above the source line.
fn push_gutter(out: &mut String, width: usize, p: &Palette)
    ensures
        final(out)@ == old(out)@ + (p.frame@ + spaces(width as nat) + " |"@ + p.reset@ + "\n"@),
{
    let ghost o = out@;
    push_str(out, p.frame);
    push_repeat(out, ' ', width);
    push_str(out, " |");
    push_str(out, p.reset);
    push_str(out, "\n");
    proof {
        assert(out@ =~= o + (p.frame@ + spaces(width as nat) + " |"@ + p.reset@ + "\n"@));
    }
}

/// `n | text`: the numbered source line.
fn push_source_line(out: &mut String, number: u32, text: &str, p: &Palette)
    ensures
        final(out)@ == old(out)@ + (p.frame@ + decimal(number as nat) + " |"@ + p.reset@ + " "@ + text@ + "\n"@),
{
    let ghost o = out@;
    push_str(out, p.frame);
    push_decimal(out, number as usize);
    push_str(out, " |");
    push_str(out, p.reset);
    push_str(out, " ");
    push_str(out, text);
    push_str(out, "\n");
    proof {
        assert(out@ =~= o + (p.frame@ + decimal(number as nat) + " |"@ + p.reset@ + " "@ + text@ + "\n"@));
    }
}

/// `   |    ^^^`: the underline below the source line.
fn push_underline(out: &mut String, width: usize, start: usize, len: usize, p: &Palette)
    ensures
        final(out)@ == old(out)@ + (p.frame@ + spaces(width as nat) + " |"@ + p.reset@ + " "@
            + spaces(start as nat) + p.severity@ + repeat_char('^', len as nat) + p.reset@ + "\n"@),
{
    let ghost o = out@;
    push_str(out, p.frame);
    push_repeat(out, ' ', width);
    push_str(out, " |");
    push_str(out, p.reset);
    push_str(out, " ");
    push_repeat(out, ' ', start);
    push_str(out, p.severity);
    push_repeat(out, '^', len);
    push_str(out, p.reset);
    push_str(out, "\n");
    proof {
        assert(out@ =~= o + (p.frame@ + spaces(width as nat) + " |"@ + p.reset@ + " "@
            + spaces(start as nat) + p.severity@ + repeat_char('^', len as nat) + p.reset@ + "\n"@));
    }
}

fn push_context(out: &mut String, diag: &Diagnostic, source: &str, index: &LineIndex, pos: LineCol, p: &Palette)
    requires
        renderable(diag, source, index.starts()),
        index.text() == source.spec_bytes(),
        index.wf(),
        index.line_of(diag.span.start, pos.line - 1),
        pos == index.line_col_spec(diag.span.start),
    ensures
        final(out)@ == old(out)@ + context_text(diag, source, index.starts(), *p),
{
    let ghost o = out@;
    let l = (pos.line - 1) as usize;
    if let Some(line_text) = index.line_text(l, source) {
        proof {
            encode_utf8_decode_utf8(line_text@);
            assert(line_text@ == line_chars(source, index.starts(), l as int));
        }
        let width = decimal_width(pos.line);
        let line_start = match index.line_start(l) {
            Some(s) => s,
            None => 0,
        };
        let underline_start = diag.span.start - line_start;
        let span_len = diag.span.end - diag.span.start;
        let underline_len = if span_len >= 1 { span_len } else { 1 };
        push_gutter(out, width, p);
        let ghost o1 = out@;
        push_source_line(out, pos.line, line_text, p);
        let ghost o2 = out@;
        push_underline(out, width, underline_start as usize, underline_len as usize, p);
        proof {
            assert(underline_len as nat == underline_width(diag));
            assert(out@ =~= o + context_text(diag, source, index.starts(), *p));
        }
    }
}

fn push_labels(out: &mut String, labels: &Vec<Label>, index: &LineIndex, p: &Palette)
    requires
        index.wf(),
        index.starts().len() <= u32::MAX,
        forall|i: int| 0 <= i < labels@.len() ==> #[trigger] labels@[i].span.start < u32::MAX,
    ensures
        final(out)@ == old(out)@ + labels_text(labels@, index.text(), index.starts(), *p),
{
    let ghost o = out@;
    let mut i: usize = 0;
    while i < labels.len()
        invariant
            index.wf(),
            index.starts().len() <= u32::MAX,
            forall|i: int| 0 <= i < labels@.len() ==> #[trigger] labels@[i].span.start < u32::MAX,
            i <= labels@.len(),
            out@ == o + labels_text(labels@.subrange(0, i as int), index.text(), index.starts(), *p),
        decreases labels@.len() - i,
    {
        let label = &labels[i];
        let ghost before = out@;
        let pos = index.line_col(label.span.start);
        if !label.message.as_str().is_empty() {
            push_str(out, "  ");
            push_str(out, p.note);
            push_str(out, "= note:");
            push_str(out, p.reset);
            push_str(out, " ");
            push_str(out, label.message.as_str());
            push_str(out, " (at ");
            push_at(out, pos);
            push_str(out, ")\n");
        }
        proof {
            assert(out@ =~= before + label_text(*label, index.text(), index.starts(), *p));
            assert(labels@.subrange(0, i + 1).drop_last() =~= labels@.subrange(0, i as int));
        }
        i = i + 1;
    }
    proof {
        assert(labels@.subrange(0, labels@.len() as int) =~= labels@);
    }
}

fn push_related(out: &mut String, related: &Vec<RelatedInfo>, index: &LineIndex, p: &Palette)
    requires
        index.wf(),
        index.starts().len() <= u32::MAX,
        forall|i: int| 0 <= i < related@.len() ==> #[trigger] related@[i].span.start < u32::MAX,
    ensures
        final(out)@ == old(out)@ + related_all_text(related@, index.text(), index.starts(), *p),
{
    let ghost o = out@;
    let mut i: usize = 0;
    while i < related.len()
        invariant
            index.wf(),
            index.starts().len() <= u32::MAX,
            forall|i: int| 0 <= i < related@.len() ==> #[trigger] related@[i].span.start < u32::MAX,
            i <= related@.len(),
            out@ == o + related_all_text(related@.subrange(0, i as int), index.text(), index.starts(), *p),
        decreases related@.len() - i,
    {
        let info = &related[i];
        let ghost before = out@;
        let pos = index.line_col(info.span.start);
        push_str(out, "  ");
        push_str(out, p.note);
        push_str(out, "= note:");
        push_str(out, p.reset);
        push_str(out, " ");
        push_str(out, info.message.as_str());
        push_str(out, " (at ");
        let ghost mid = out@;
        match &info.file {
            Some(file) => {
                push_str(out, file.as_str());
                push_str(out, ":");
            },
            None => {},
        }
        let ghost after_file = out@;
        push_at(out, pos);
        push_str(out, ")\n");
        proof {
            assert(after_file =~= mid + file_prefix(info.file));
            assert(out@ =~= before + related_text(*info, index.text(), index.starts(), *p));
            assert(related@.subrange(0, i + 1).drop_last() =~= related@.subrange(0, i as int));
        }
        i = i + 1;
    }
    proof {
        assert(related@.subrange(0, related@.len() as int) =~= related@);
    }
}

fn push_help(out: &mut String, help: &Option<String>, p: &Palette)
    ensures
        final(out)@ == old(out)@ + help_text(*help, *p),
{
    let ghost o = out@;
    match help {
        Some(h) => {
            push_str(out, "  ");
            push_str(out, p.help);
            push_str(out, "= help:");
            push_str(out, p.reset);
            push_str(out, " ");
            push_str(out, h.as_str());
            push_str(out, "\n");
        },
        None => {},
    }
    proof {
        assert(out@ =~= o + help_text(*help, *p));
    }
}

fn push_suggestions(out: &mut String, suggestions: &Vec<Suggestion>, p: &Palette)
    ensures
        final(out)@ == old(out)@ + suggestions_text(suggestions@, *p),
{
    let ghost o = out@;
    let mut i: usize = 0;
    while i < suggestions.len()
        invariant
            i <= suggestions@.len(),
            out@ == o + suggestions_text(suggestions@.subrange(0, i as int), *p),
        decreases suggestions@.len() - i,
    {
        let suggestion = &suggestions[i];
        let ghost before = out@;
        if !suggestion.message.as_str().is_empty() {
            push_str(out, "  ");
            push_str(out, p.help);
            push_str(out, "= suggestion:");
            push_str(out, p.reset);
            push_str(out, " ");
            push_str(out, suggestion.message.as_str());
            push_str(out, "\n");
        }
        proof {
            assert(out@ =~= before + suggestion_text(*suggestion, *p));
            assert(suggestions@.subrange(0, i + 1).drop_last() =~= suggestions@.subrange(0, i as int));
        }
        i = i + 1;
    }
    proof {
        assert(suggestions@.subrange(0, suggestions@.len() as int) =~= suggestions@);
    }
}

/// Renders one diagnostic with the given palette.
fn render(diag: &Diagnostic, source: &str, filename: &str, index: &LineIndex, p: &Palette) -> (r: String)
    requires
        renderable(diag, source, index.starts()),
        index.text() == source.spec_bytes(),
    ensures
        r@ == diagnostic_text(diag, source, filename, index.starts(), *p),
{
    proof {
        index.lemma_new_wf(source.spec_bytes());
    }
    let mut output = String::new();
    push_header(&mut output, diag, p);
    let pos = index.line_col(diag.span.start);
    push_location(&mut output, pos, filename, p);
    push_context(&mut output, diag, source, index, pos, p);
    push_labels(&mut output, &diag.labels, index, p);
    push_related(&mut output, &diag.related, index, p);
    push_help(&mut output, &diag.help, p);
    push_suggestions(&mut output, &diag.suggestions, p);
    proof {
        assert(Seq::<char>::empty() + header_text(diag, *p) =~= header_text(diag, *p));
    }
    output
}

/// Format a single diagnostic for terminal output
pub fn format_diagnostic(diag: &Diagnostic, source: &str, filename: &str, index: &LineIndex) -> (r: String)
    requires
        renderable(diag, source, index.starts()),
        index.text() == source.spec_bytes(),
    ensures
        r@ == diagnostic_text(diag, source, filename, index.starts(), plain_palette()),
{
    render(diag, source, filename, index, &plain())
}

/// Format a diagnostic with ANSI colors
pub fn format_diagnostic_colored(diag: &Diagnostic, source: &str, filename: &str, index: &LineIndex) -> (r: String)
    requires
        renderable(diag, source, index.starts()),
        index.text() == source.spec_bytes(),
    ensures
        r@ == diagnostic_text(diag, source, filename, index.starts(), colored_palette(diag.severity)),
{
    render(diag, source, filename, index, &colored(diag.severity))
}

/// The renderings of a list of diagnostics, each followed by an empty line.
pub open spec fn diagnostics_text(
    diagnostics: Seq<Diagnostic>,
    source: &str,
    filename: &str,
    starts: Seq<u32>,
    colored: bool,
) -> Seq<char>
    decreases diagnostics.len(),
{
    if diagnostics.len() == 0 {
        Seq::empty()
    } else {
        let d = diagnostics.last();
        let p = if colored { colored_palette(d.severity) } else { plain_palette() };
        diagnostics_text(diagnostics.drop_last(), source, filename, starts, colored)
            + diagnostic_text(&d, source, filename, starts, p) + "\n"@
    }
}

/// Whether every diagnostic of a list can be rendered against `source`.
pub open spec fn all_renderable(diagnostics: Seq<Diagnostic>, source: &str) -> bool {
    &&& source.spec_bytes().len() < u32::MAX
    &&& forall|i: int| 0 <= i < diagnostics.len() ==> {
        let d = #[trigger] diagnostics[i];
        &&& d.span.start <= d.span.end
        &&& d.span.start < u32::MAX
        &&& forall|j: int| 0 <= j < d.labels@.len() ==> #[trigger] d.labels@[j].span.start < u32::MAX
        &&& forall|j: int| 0 <= j < d.related@.len() ==> #[trigger] d.related@[j].span.start < u32::MAX
    }
}

/// Renders each diagnostic of a list, plain or colored, each followed by an empty line.
pub(crate) fn render_all(diagnostics: &[Diagnostic], source: &str, filename: &str, colored: bool) -> (r: String)
    requires
        all_renderable(diagnostics@, source),
    ensures
        r@ == diagnostics_text(diagnostics@, source, filename, line_starts_of(source.spec_bytes()), colored),
{
    let line_index = LineIndex::new(source);
    let mut output = String::new();
    let mut i: usize = 0;
    while i < diagnostics.len()
        invariant
            all_renderable(diagnostics@, source),
            line_index.starts() == line_starts_of(source.spec_bytes()),
            line_index.text() == source.spec_bytes(),
            i <= diagnostics@.len(),
            output@ == diagnostics_text(diagnostics@.subrange(0, i as int), source, filename, line_index.starts(), colored),
        decreases diagnostics@.len() - i,
    {
        let diag = &diagnostics[i];
        let ghost before = output@;
        let text = if colored {
            format_diagnostic_colored(diag, source, filename, &line_index)
        } else {
            format_diagnostic(diag, source, filename, &line_index)
        };
        push_str(&mut output, text.as_str());
        push_char(&mut output, '\n');
        proof {
            let sub = diagnostics@.subrange(0, i + 1);
            assert(sub.drop_last() =~= diagnostics@.subrange(0, i as int));
            assert(sub.last() == *diag);
            assert(output@ =~= before + text@ + "\n"@) by {
                reveal_strlit("\n");
            }
        }
        i = i + 1;
    }
    proof {
        assert(diagnostics@.subrange(0, diagnostics@.len() as int) =~= diagnostics@);
    }
    output
}

/// Format multiple diagnostics for terminal output
pub fn format_diagnostics(diagnostics: &[Diagnostic], source: &str, filename: &str) -> (r: String)
    requires
        all_renderable(diagnostics@, source),
    ensures
        r@ == diagnostics_text(diagnostics@, source, filename, line_starts_of(source.spec_bytes()), false),
{
    render_all(diagnostics, source, filename, false)
}

/// `1 thing` or `n things`.
pub open spec fn count_text(n: nat, noun: Seq<char>) -> Seq<char> {
    decimal(n) + " "@ + noun + if n == 1 { Seq::empty() } else { "s"@ }
}

/// The summary line that closes a compiler run.
pub open spec fn summary_text(errors: nat, warnings: nat) -> Seq<char> {
    if errors == 0 && warnings == 0 {
        Seq::empty()
    } else if errors == 0 {
        "warning: "@ + count_text(warnings, "warning"@) + " emitted\n"@
    } else if warnings == 0 {
        "error: could not compile due to "@ + count_text(errors, "error"@) + "\n"@
    } else {
        "error: could not compile due to "@ + count_text(errors, "error"@) + " and "@
            + count_text(warnings, "warning"@) + "\n"@
    }
}

fn push_count(out: &mut String, n: usize, noun: &str)
    ensures
        final(out)@ == old(out)@ + count_text(n as nat, noun@),
{
    let ghost o = out@;
    push_decimal(out, n);
    push_str(out, " ");
    push_str(out, noun);
    if n != 1 {
        push_str(out, "s");
    }
    proof {
        assert(out@ =~= o + count_text(n as nat, noun@));
    }
}

/// Format a summary line for diagnostics
pub fn format_summary(errors: usize, warnings: usize) -> (r: String)
    ensures
        r@ == summary_text(errors as nat, warnings as nat),
{
    let mut out = String::new();
    if errors == 0 && warnings == 0 {
        return out;
    }
    if errors == 0 {
        push_str(&mut out, "warning: ");
        push_count(&mut out, warnings, "warning");
        push_str(&mut out, " emitted\n");
    } else if warnings == 0 {
        push_str(&mut out, "error: could not compile due to ");
        push_count(&mut out, errors, "error");
        push_str(&mut out, "\n");
    } else {
        push_str(&mut out, "error: could not compile due to ");
        push_count(&mut out, errors, "error");
        push_str(&mut out, " and ");
        push_count(&mut out, warnings, "warning");
        push_str(&mut out, "\n");
    }
    proof {
        assert(out@ =~= summary_text(errors as nat, warnings as nat));
    }
    out
}

} // verus!
