//! Taking the color codes out of a colored rendering gives the plain one.

use vstd::prelude::*;
use vstd::string::*;
use crate::text::{decimal, repeat_char};
use super::colors::{BLUE, BOLD, CYAN, GREEN, RESET, RED, YELLOW};
use super::{
    at_text, code_text, colored_palette, context_text, diagnostic_text, file_prefix, header_text, help_text,
    label_text, labels_text, line_chars, location_text, plain_palette, related_all_text, related_text, spaces,
    suggestion_text, suggestions_text, Palette,
};
use crate::diagnostic::{Diagnostic, Label, RelatedInfo, Suggestion};
use crate::source::line_col_at;

verus! {

/// Whether `s` holds no escape character.
pub open spec fn no_esc(s: Seq<char>) -> bool {
    forall|i: int| 0 <= i < s.len() ==> s[i] != '\x1b'
}

/// The length of the color code at the front of `s` (`ESC [ 0 m`,
/// `ESC [ 1 m`, or `ESC [ 3x m` for a color), or 0 where none is.
pub open spec fn code_len(s: Seq<char>) -> nat {
    if s.len() >= 4 && s[0] == '\x1b' && s[1] == '[' && (s[2] == '0' || s[2] == '1') && s[3] == 'm' {
        4
    } else if s.len() >= 5 && s[0] == '\x1b' && s[1] == '[' && s[2] == '3' && (s[3] == '1' || s[3] == '2'
        || s[3] == '3' || s[3] == '4' || s[3] == '6') && s[4] == 'm' {
        5
    } else {
        0
    }
}

/// `s` with its color codes taken out.
pub open spec fn strip_colors(s: Seq<char>) -> Seq<char>
    decreases s.len(),
{
    if s.len() == 0 {
        s
    } else if code_len(s) > 0 {
        strip_colors(s.skip(code_len(s) as int))
    } else {
        seq![s[0]] + strip_colors(s.skip(1))
    }
}

/// Whether every escape character of `s` begins a color code.
pub open spec fn clean(s: Seq<char>) -> bool
    decreases s.len(),
{
    if s.len() == 0 {
        true
    } else if code_len(s) > 0 {
        clean(s.skip(code_len(s) as int))
    } else {
        s[0] != '\x1b' && clean(s.skip(1))
    }
}

/// Stripping a clean text followed by another strips each, and clean texts
/// stay clean when joined.
proof fn lemma_strip_concat(a: Seq<char>, b: Seq<char>)
    requires
        clean(a),
    ensures
        strip_colors(a + b) == strip_colors(a) + strip_colors(b),
        clean(b) ==> clean(a + b),
    decreases a.len(),
{
    if a.len() == 0 {
        assert(a + b =~= b);
        assert(strip_colors(a) + strip_colors(b) =~= strip_colors(b));
    } else {
        let ab = a + b;
        if code_len(a) > 0 {
            let k = code_len(a) as int;
            assert(code_len(ab) == code_len(a)) by {
                assert(ab[0] == a[0] && ab[1] == a[1] && ab[2] == a[2] && ab[3] == a[3]);
                if a.len() >= 5 {
                    assert(ab[4] == a[4]);
                }
            }
            assert(ab.skip(k) =~= a.skip(k) + b);
            lemma_strip_concat(a.skip(k), b);
        } else {
            assert(ab[0] == a[0]);
            assert(code_len(ab) == 0);
            assert(ab.skip(1) =~= a.skip(1) + b);
            lemma_strip_concat(a.skip(1), b);
            assert(seq![a[0]] + strip_colors(a.skip(1)) + strip_colors(b) =~= seq![a[0]] + (strip_colors(a.skip(1))
                + strip_colors(b)));
        }
    }
}

/// A text without escape characters is clean, and stripping keeps it.
proof fn lemma_strip_plain(s: Seq<char>)
    requires
        no_esc(s),
    ensures
        clean(s),
        strip_colors(s) == s,
    decreases s.len(),
{
    if s.len() > 0 {
        assert(s[0] != '\x1b');
        assert(no_esc(s.skip(1)));
        lemma_strip_plain(s.skip(1));
        assert(seq![s[0]] + s.skip(1) =~= s);
    }
}

/// A color code is clean and strips to nothing.
proof fn lemma_code(c: Seq<char>)
    requires
        code_len(c) == c.len(),
        c.len() > 0,
    ensures
        clean(c),
        strip_colors(c) == Seq::<char>::empty(),
{
    let rest = c.skip(code_len(c) as int);
    assert(rest =~= Seq::<char>::empty());
    assert(clean(rest));
    assert(strip_colors(rest) == Seq::<char>::empty());
}

/// Decimal numbers hold no escape character.
proof fn lemma_decimal_plain(n: nat)
    ensures
        no_esc(decimal(n)),
    decreases n,
{
    if n >= 10 {
        lemma_decimal_plain(n / 10);
    }
}

/// Each part of the colored palette strips to the same part of the plain
/// palette, and is clean.
proof fn lemma_palettes(severity: crate::diagnostic::Severity)
    ensures
        forall|f: Seq<char>|
            f == colored_palette(severity).emphasis@ || f == colored_palette(severity).reset@ || f
                == colored_palette(severity).severity@ || f == colored_palette(severity).frame@ || f
                == colored_palette(severity).note@ || f == colored_palette(severity).help@ ==> #[trigger] clean(f)
                && strip_colors(f) == Seq::<char>::empty(),
        plain_palette().emphasis@ == Seq::<char>::empty(),
        plain_palette().reset@ == Seq::<char>::empty(),
        plain_palette().severity@ == Seq::<char>::empty(),
        plain_palette().frame@ == Seq::<char>::empty(),
        plain_palette().note@ == Seq::<char>::empty(),
        plain_palette().help@ == Seq::<char>::empty(),
{
    reveal_strlit("");
    reveal_strlit("\x1b[0m");
    reveal_strlit("\x1b[1m");
    reveal_strlit("\x1b[31m");
    reveal_strlit("\x1b[33m");
    reveal_strlit("\x1b[34m");
    reveal_strlit("\x1b[36m");
    reveal_strlit("\x1b[32m");
    lemma_code(RESET@);
    lemma_code(BOLD@);
    lemma_code(RED@);
    lemma_code(YELLOW@);
    lemma_code(BLUE@);
    lemma_code(CYAN@);
    lemma_code(GREEN@);
}


/// `a` is clean and strips to `b`.
pub open spec fn strips(a: Seq<char>, b: Seq<char>) -> bool {
    clean(a) && strip_colors(a) == b
}

/// Joined texts strip to the joined results.
proof fn lemma_join(a1: Seq<char>, b1: Seq<char>, a2: Seq<char>, b2: Seq<char>)
    requires
        strips(a1, b1),
        strips(a2, b2),
    ensures
        strips(a1 + a2, b1 + b2),
{
    lemma_strip_concat(a1, a2);
}

/// A text without escape characters strips to itself.
proof fn lemma_keep(s: Seq<char>)
    requires
        no_esc(s),
    ensures
        strips(s, s),
{
    lemma_strip_plain(s);
}

/// The literal texts of a rendering hold no escape character.
proof fn lemma_literals_plain()
    ensures
        no_esc("["@),
        no_esc("]"@),
        no_esc(": "@),
        no_esc("\n"@),
        no_esc("  "@),
        no_esc("-->"@),
        no_esc(" "@),
        no_esc(":"@),
        no_esc(" |"@),
        no_esc("= note:"@),
        no_esc(" (at "@),
        no_esc(")\n"@),
        no_esc("= help:"@),
        no_esc("= suggestion:"@),
        no_esc("error"@),
        no_esc("warning"@),
        no_esc("info"@),
        no_esc("hint"@),
        no_esc(Seq::<char>::empty()),
{
    reveal_strlit("[");
    reveal_strlit("]");
    reveal_strlit(": ");
    reveal_strlit("\n");
    reveal_strlit("  ");
    reveal_strlit("-->");
    reveal_strlit(" ");
    reveal_strlit(":");
    reveal_strlit(" |");
    reveal_strlit("= note:");
    reveal_strlit(" (at ");
    reveal_strlit(")\n");
    reveal_strlit("= help:");
    reveal_strlit("= suggestion:");
    reveal_strlit("error");
    reveal_strlit("warning");
    reveal_strlit("info");
    reveal_strlit("hint");
}

/// Each part of palette `p` is clean and strips to that part of `q`.
pub open spec fn strips_to(p: Palette, q: Palette) -> bool {
    &&& strips(p.emphasis@, q.emphasis@)
    &&& strips(p.reset@, q.reset@)
    &&& strips(p.severity@, q.severity@)
    &&& strips(p.frame@, q.frame@)
    &&& strips(p.note@, q.note@)
    &&& strips(p.help@, q.help@)
}

/// The colored palette strips to the plain one.
proof fn lemma_palette_strips(severity: crate::diagnostic::Severity)
    ensures
        strips_to(colored_palette(severity), plain_palette()),
{
    lemma_palettes(severity);
    let p = colored_palette(severity);
    assert(clean(p.emphasis@) && clean(p.reset@) && clean(p.severity@));
    assert(clean(p.frame@) && clean(p.note@) && clean(p.help@));
}

/// `line:col` holds no escape character.
proof fn lemma_at_plain(pos: crate::source::LineCol)
    ensures
        strips(at_text(pos), at_text(pos)),
{
    lemma_decimal_plain(pos.line as nat);
    lemma_decimal_plain(pos.col as nat);
    lemma_literals_plain();
    lemma_keep(decimal(pos.line as nat));
    lemma_keep(":"@);
    lemma_keep(decimal(pos.col as nat));
    lemma_join(decimal(pos.line as nat), decimal(pos.line as nat), ":"@, ":"@);
    lemma_join(decimal(pos.line as nat) + ":"@, decimal(pos.line as nat) + ":"@, decimal(pos.col as nat), decimal(pos.col as nat));
}

/// The header strips to its plain form.
proof fn lemma_header(diag: &Diagnostic, p: Palette, q: Palette)
    requires
        strips_to(p, q),
        no_esc(diag.message@),
        diag.code matches Some(c) ==> no_esc(c@),
    ensures
        strips(header_text(diag, p), header_text(diag, q)),
{
    lemma_literals_plain();
    let sev = diag.severity.as_str_spec();
    lemma_keep(sev);
    match diag.code {
        Some(c) => {
            lemma_keep("["@);
            lemma_keep(c@);
            lemma_keep("]"@);
            lemma_join("["@, "["@, c@, c@);
            lemma_join("["@ + c@, "["@ + c@, "]"@, "]"@);
        },
        None => lemma_keep(Seq::<char>::empty()),
    }
    let ct = code_text(diag.code);
    lemma_keep(": "@);
    lemma_keep(diag.message@);
    lemma_keep("\n"@);
    lemma_join(p.emphasis@, q.emphasis@, p.severity@, q.severity@);
    let (a1, b1) = (p.emphasis@ + p.severity@, q.emphasis@ + q.severity@);
    lemma_join(a1, b1, sev, sev);
    lemma_join(a1 + sev, b1 + sev, ct, ct);
    lemma_join(a1 + sev + ct, b1 + sev + ct, p.reset@, q.reset@);
    let (a2, b2) = (a1 + sev + ct + p.reset@, b1 + sev + ct + q.reset@);
    lemma_join(a2, b2, ": "@, ": "@);
    lemma_join(a2 + ": "@, b2 + ": "@, p.emphasis@, q.emphasis@);
    let (a3, b3) = (a2 + ": "@ + p.emphasis@, b2 + ": "@ + q.emphasis@);
    lemma_join(a3, b3, diag.message@, diag.message@);
    lemma_join(a3 + diag.message@, b3 + diag.message@, p.reset@, q.reset@);
    lemma_join(a3 + diag.message@ + p.reset@, b3 + diag.message@ + q.reset@, "\n"@, "\n"@);
}

/// The location line strips to its plain form.
proof fn lemma_location(pos: crate::source::LineCol, filename: &str, p: Palette, q: Palette)
    requires
        strips_to(p, q),
        no_esc(filename@),
    ensures
        strips(location_text(pos, filename, p), location_text(pos, filename, q)),
{
    lemma_literals_plain();
    lemma_at_plain(pos);
    lemma_keep("  "@);
    lemma_keep("-->"@);
    lemma_keep(" "@);
    lemma_keep(filename@);
    lemma_keep(":"@);
    lemma_keep("\n"@);
    lemma_join("  "@, "  "@, p.frame@, q.frame@);
    let (a1, b1) = ("  "@ + p.frame@, "  "@ + q.frame@);
    lemma_join(a1, b1, "-->"@, "-->"@);
    lemma_join(a1 + "-->"@, b1 + "-->"@, p.reset@, q.reset@);
    let (a2, b2) = (a1 + "-->"@ + p.reset@, b1 + "-->"@ + q.reset@);
    lemma_join(a2, b2, " "@, " "@);
    lemma_join(a2 + " "@, b2 + " "@, filename@, filename@);
    let (a3, b3) = (a2 + " "@ + filename@, b2 + " "@ + filename@);
    lemma_join(a3, b3, ":"@, ":"@);
    lemma_join(a3 + ":"@, b3 + ":"@, at_text(pos), at_text(pos));
    lemma_join(a3 + ":"@ + at_text(pos), b3 + ":"@ + at_text(pos), "\n"@, "\n"@);
}

/// A run of one character other than escape strips to itself.
proof fn lemma_repeat_keep(c: char, n: nat)
    requires
        c != '\x1b',
    ensures
        strips(repeat_char(c, n), repeat_char(c, n)),
{
    assert(no_esc(repeat_char(c, n)));
    lemma_keep(repeat_char(c, n));
}

/// The source context strips to its plain form.
proof fn lemma_context(diag: &Diagnostic, source: &str, starts: Seq<u32>, p: Palette, q: Palette)
    requires
        strips_to(p, q),
        no_esc(line_chars(source, starts, line_col_at(source.spec_bytes(), starts, diag.span.start).line - 1)),
    ensures
        strips(context_text(diag, source, starts, p), context_text(diag, source, starts, q)),
{
    lemma_literals_plain();
    let pos = line_col_at(source.spec_bytes(), starts, diag.span.start);
    let l = pos.line - 1;
    let number = decimal(pos.line as nat);
    let gutter = spaces(number.len());
    let text = line_chars(source, starts, l);
    let lead = spaces((diag.span.start - starts[l]) as nat);
    let carets = repeat_char('^', super::underline_width(diag));
    lemma_decimal_plain(pos.line as nat);
    lemma_keep(number);
    lemma_repeat_keep(' ', number.len());
    lemma_repeat_keep(' ', (diag.span.start - starts[l]) as nat);
    lemma_repeat_keep('^', super::underline_width(diag));
    lemma_keep(text);
    lemma_keep(" |"@);
    lemma_keep(" "@);
    lemma_keep("\n"@);
    // First line
    lemma_join(p.frame@, q.frame@, gutter, gutter);
    lemma_join(p.frame@ + gutter, q.frame@ + gutter, " |"@, " |"@);
    lemma_join(p.frame@ + gutter + " |"@, q.frame@ + gutter + " |"@, p.reset@, q.reset@);
    lemma_join(p.frame@ + gutter + " |"@ + p.reset@, q.frame@ + gutter + " |"@ + q.reset@, "\n"@, "\n"@);
    let (x1, y1) = (p.frame@ + gutter + " |"@ + p.reset@ + "\n"@, q.frame@ + gutter + " |"@ + q.reset@ + "\n"@);
    // Second line
    lemma_join(p.frame@, q.frame@, number, number);
    lemma_join(p.frame@ + number, q.frame@ + number, " |"@, " |"@);
    lemma_join(p.frame@ + number + " |"@, q.frame@ + number + " |"@, p.reset@, q.reset@);
    let (a2, b2) = (p.frame@ + number + " |"@ + p.reset@, q.frame@ + number + " |"@ + q.reset@);
    lemma_join(a2, b2, " "@, " "@);
    lemma_join(a2 + " "@, b2 + " "@, text, text);
    lemma_join(a2 + " "@ + text, b2 + " "@ + text, "\n"@, "\n"@);
    let (x2, y2) = (a2 + " "@ + text + "\n"@, b2 + " "@ + text + "\n"@);
    // Third line
    lemma_join(p.frame@, q.frame@, gutter, gutter);
    lemma_join(p.frame@ + gutter, q.frame@ + gutter, " |"@, " |"@);
    lemma_join(p.frame@ + gutter + " |"@, q.frame@ + gutter + " |"@, p.reset@, q.reset@);
    let (a3, b3) = (p.frame@ + gutter + " |"@ + p.reset@, q.frame@ + gutter + " |"@ + q.reset@);
    lemma_join(a3, b3, " "@, " "@);
    lemma_join(a3 + " "@, b3 + " "@, lead, lead);
    lemma_join(a3 + " "@ + lead, b3 + " "@ + lead, p.severity@, q.severity@);
    let (a4, b4) = (a3 + " "@ + lead + p.severity@, b3 + " "@ + lead + q.severity@);
    lemma_join(a4, b4, carets, carets);
    lemma_join(a4 + carets, b4 + carets, p.reset@, q.reset@);
    lemma_join(a4 + carets + p.reset@, b4 + carets + q.reset@, "\n"@, "\n"@);
    let (x3, y3) = (a4 + carets + p.reset@ + "\n"@, b4 + carets + q.reset@ + "\n"@);
    lemma_join(x1, y1, x2, y2);
    lemma_join(x1 + x2, y1 + y2, x3, y3);
}

/// A note (label, related information, help or suggestion) strips to its
/// plain form: `  <color>head<reset> message` followed by `tail`.
proof fn lemma_note(color: Seq<char>, plain_color: Seq<char>, p: Palette, q: Palette, head: Seq<char>, body: Seq<char>)
    requires
        strips_to(p, q),
        strips(color, plain_color),
        no_esc(head),
        strips(body, body),
    ensures
        strips("  "@ + color + head + p.reset@ + " "@ + body, "  "@ + plain_color + head + q.reset@ + " "@ + body),
{
    lemma_literals_plain();
    lemma_keep("  "@);
    lemma_keep(head);
    lemma_keep(" "@);
    lemma_join("  "@, "  "@, color, plain_color);
    lemma_join("  "@ + color, "  "@ + plain_color, head, head);
    lemma_join("  "@ + color + head, "  "@ + plain_color + head, p.reset@, q.reset@);
    lemma_join("  "@ + color + head + p.reset@, "  "@ + plain_color + head + q.reset@, " "@, " "@);
    lemma_join(
        "  "@ + color + head + p.reset@ + " "@,
        "  "@ + plain_color + head + q.reset@ + " "@,
        body,
        body,
    );
}

/// The notes of labels whose messages hold no escape character strip to
/// their plain form.
proof fn lemma_labels_strip(labels: Seq<Label>, bytes: Seq<u8>, starts: Seq<u32>, p: Palette, q: Palette)
    requires
        strips_to(p, q),
        forall|i: int| 0 <= i < labels.len() ==> no_esc(#[trigger] labels[i].message@),
    ensures
        strips(labels_text(labels, bytes, starts, p), labels_text(labels, bytes, starts, q)),
    decreases labels.len(),
{
    lemma_literals_plain();
    lemma_keep(Seq::<char>::empty());
    if labels.len() > 0 {
        let l = labels.last();
        assert(no_esc(l.message@));
        lemma_labels_strip(labels.drop_last(), bytes, starts, p, q);
        if l.message@.len() > 0 {
            let pos = line_col_at(bytes, starts, l.span.start);
            lemma_at_plain(pos);
            lemma_keep(l.message@);
            lemma_keep(" (at "@);
            lemma_keep(")\n"@);
            lemma_join(l.message@, l.message@, " (at "@, " (at "@);
            lemma_join(l.message@ + " (at "@, l.message@ + " (at "@, at_text(pos), at_text(pos));
            let body = l.message@ + " (at "@ + at_text(pos);
            lemma_join(body, body, ")\n"@, ")\n"@);
            lemma_note(p.note@, q.note@, p, q, "= note:"@, body + ")\n"@);
            let t = "  "@ + p.note@ + "= note:"@ + p.reset@ + " "@ + (body + ")\n"@);
            assert(label_text(l, bytes, starts, p) =~= t);
            assert(label_text(l, bytes, starts, q) =~= "  "@ + q.note@ + "= note:"@ + q.reset@ + " "@ + (body + ")\n"@));
        }
        lemma_join(
            labels_text(labels.drop_last(), bytes, starts, p),
            labels_text(labels.drop_last(), bytes, starts, q),
            label_text(l, bytes, starts, p),
            label_text(l, bytes, starts, q),
        );
    }
}

/// The notes of related information whose texts hold no escape character
/// strip to their plain form.
proof fn lemma_related_strip(related: Seq<RelatedInfo>, bytes: Seq<u8>, starts: Seq<u32>, p: Palette, q: Palette)
    requires
        strips_to(p, q),
        forall|i: int| 0 <= i < related.len() ==> no_esc(#[trigger] related[i].message@) && no_esc(
            file_prefix(related[i].file),
        ),
    ensures
        strips(related_all_text(related, bytes, starts, p), related_all_text(related, bytes, starts, q)),
    decreases related.len(),
{
    lemma_literals_plain();
    lemma_keep(Seq::<char>::empty());
    if related.len() > 0 {
        let r = related.last();
        assert(no_esc(r.message@) && no_esc(file_prefix(r.file)));
        lemma_related_strip(related.drop_last(), bytes, starts, p, q);
        let pos = line_col_at(bytes, starts, r.span.start);
        lemma_at_plain(pos);
        lemma_keep(r.message@);
        lemma_keep(" (at "@);
        lemma_keep(file_prefix(r.file));
        lemma_keep(")\n"@);
        lemma_join(r.message@, r.message@, " (at "@, " (at "@);
        lemma_join(r.message@ + " (at "@, r.message@ + " (at "@, file_prefix(r.file), file_prefix(r.file));
        let m = r.message@ + " (at "@ + file_prefix(r.file);
        lemma_join(m, m, at_text(pos), at_text(pos));
        lemma_join(m + at_text(pos), m + at_text(pos), ")\n"@, ")\n"@);
        let body = m + at_text(pos) + ")\n"@;
        lemma_note(p.note@, q.note@, p, q, "= note:"@, body);
        assert(related_text(r, bytes, starts, p) =~= "  "@ + p.note@ + "= note:"@ + p.reset@ + " "@ + body);
        assert(related_text(r, bytes, starts, q) =~= "  "@ + q.note@ + "= note:"@ + q.reset@ + " "@ + body);
        lemma_join(
            related_all_text(related.drop_last(), bytes, starts, p),
            related_all_text(related.drop_last(), bytes, starts, q),
            related_text(r, bytes, starts, p),
            related_text(r, bytes, starts, q),
        );
    }
}

/// Suggestions whose messages hold no escape character strip to their plain form.
proof fn lemma_suggestions_strip(suggestions: Seq<Suggestion>, p: Palette, q: Palette)
    requires
        strips_to(p, q),
        forall|i: int| 0 <= i < suggestions.len() ==> no_esc(#[trigger] suggestions[i].message@),
    ensures
        strips(suggestions_text(suggestions, p), suggestions_text(suggestions, q)),
    decreases suggestions.len(),
{
    lemma_literals_plain();
    lemma_keep(Seq::<char>::empty());
    if suggestions.len() > 0 {
        let s = suggestions.last();
        assert(no_esc(s.message@));
        lemma_suggestions_strip(suggestions.drop_last(), p, q);
        if s.message@.len() > 0 {
            lemma_keep(s.message@);
            lemma_keep("\n"@);
            lemma_join(s.message@, s.message@, "\n"@, "\n"@);
            lemma_note(p.help@, q.help@, p, q, "= suggestion:"@, s.message@ + "\n"@);
            assert(suggestion_text(s, p) =~= "  "@ + p.help@ + "= suggestion:"@ + p.reset@ + " "@ + (s.message@ + "\n"@));
            assert(suggestion_text(s, q) =~= "  "@ + q.help@ + "= suggestion:"@ + q.reset@ + " "@ + (s.message@ + "\n"@));
        }
        lemma_join(
            suggestions_text(suggestions.drop_last(), p),
            suggestions_text(suggestions.drop_last(), q),
            suggestion_text(s, p),
            suggestion_text(s, q),
        );
    }
}

/// Help text that holds no escape character strips to its plain form.
proof fn lemma_help(help: Option<String>, p: Palette, q: Palette)
    requires
        strips_to(p, q),
        help matches Some(h) ==> no_esc(h@),
    ensures
        strips(help_text(help, p), help_text(help, q)),
{
    lemma_literals_plain();
    match help {
        Some(h) => {
            lemma_keep(h@);
            lemma_keep("\n"@);
            lemma_join(h@, h@, "\n"@, "\n"@);
            lemma_note(p.help@, q.help@, p, q, "= help:"@, h@ + "\n"@);
            assert(help_text(help, p) =~= "  "@ + p.help@ + "= help:"@ + p.reset@ + " "@ + (h@ + "\n"@));
            assert(help_text(help, q) =~= "  "@ + q.help@ + "= help:"@ + q.reset@ + " "@ + (h@ + "\n"@));
        },
        None => lemma_keep(Seq::<char>::empty()),
    }
}

/// The texts a diagnostic brings to its rendering hold no escape character:
/// its message, code, help, the messages (and files) of its notes and
/// suggestions, the file name and the source line shown.
pub open spec fn escape_free(diag: &Diagnostic, source: &str, filename: &str, starts: Seq<u32>) -> bool {
    let pos = line_col_at(source.spec_bytes(), starts, diag.span.start);
    &&& no_esc(diag.message@)
    &&& diag.code matches Some(c) ==> no_esc(c@)
    &&& diag.help matches Some(h) ==> no_esc(h@)
    &&& no_esc(filename@)
    &&& no_esc(line_chars(source, starts, pos.line - 1))
    &&& forall|i: int| 0 <= i < diag.labels@.len() ==> no_esc(#[trigger] diag.labels@[i].message@)
    &&& forall|i: int| 0 <= i < diag.related@.len() ==> no_esc(#[trigger] diag.related@[i].message@) && no_esc(
        file_prefix(diag.related@[i].file),
    )
    &&& forall|i: int| 0 <= i < diag.suggestions@.len() ==> no_esc(#[trigger] diag.suggestions@[i].message@)
}

/// With its color codes taken out, the colored rendering of a diagnostic is
/// its plain rendering (where the diagnostic's own texts hold no escape
/// character).
pub proof fn law_colored_strips_to_plain(diag: &Diagnostic, source: &str, filename: &str, starts: Seq<u32>)
    requires
        escape_free(diag, source, filename, starts),
    ensures
        strip_colors(diagnostic_text(diag, source, filename, starts, colored_palette(diag.severity)))
            == diagnostic_text(diag, source, filename, starts, plain_palette()),
{
    let p = colored_palette(diag.severity);
    let q = plain_palette();
    lemma_palette_strips(diag.severity);
    let bytes = source.spec_bytes();
    let pos = line_col_at(bytes, starts, diag.span.start);
    lemma_header(diag, p, q);
    lemma_location(pos, filename, p, q);
    lemma_context(diag, source, starts, p, q);
    lemma_labels_strip(diag.labels@, bytes, starts, p, q);
    lemma_related_strip(diag.related@, bytes, starts, p, q);
    lemma_help(diag.help, p, q);
    lemma_suggestions_strip(diag.suggestions@, p, q);
    let h = (header_text(diag, p), header_text(diag, q));
    let lo = (location_text(pos, filename, p), location_text(pos, filename, q));
    let c = (context_text(diag, source, starts, p), context_text(diag, source, starts, q));
    let lb = (labels_text(diag.labels@, bytes, starts, p), labels_text(diag.labels@, bytes, starts, q));
    let r = (related_all_text(diag.related@, bytes, starts, p), related_all_text(diag.related@, bytes, starts, q));
    let hp = (help_text(diag.help, p), help_text(diag.help, q));
    let sg = (suggestions_text(diag.suggestions@, p), suggestions_text(diag.suggestions@, q));
    lemma_join(h.0, h.1, lo.0, lo.1);
    lemma_join(h.0 + lo.0, h.1 + lo.1, c.0, c.1);
    lemma_join(h.0 + lo.0 + c.0, h.1 + lo.1 + c.1, lb.0, lb.1);
    lemma_join(h.0 + lo.0 + c.0 + lb.0, h.1 + lo.1 + c.1 + lb.1, r.0, r.1);
    lemma_join(h.0 + lo.0 + c.0 + lb.0 + r.0, h.1 + lo.1 + c.1 + lb.1 + r.1, hp.0, hp.1);
    lemma_join(h.0 + lo.0 + c.0 + lb.0 + r.0 + hp.0, h.1 + lo.1 + c.1 + lb.1 + r.1 + hp.1, sg.0, sg.1);
}

} // verus!
