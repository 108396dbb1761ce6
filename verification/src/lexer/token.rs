//! Token definitions: the token kinds the lexer produces, and the keyword tables.

use vstd::prelude::*;
use vstd::string::*;
use crate::source::Span;
use crate::text::str_eq;
use super::contextual::{ARENA, BACKEND, BLUEPRINT, CONTRACT, ENUM, IMPORT, MODULE, SCHEME, THEME};

verus! {

/// A token with its kind and source span
#[derive(Debug, Clone, Copy, PartialEq, Eq, Structural)]
pub struct Token {
    pub kind: TokenKind,
    pub span: Span,
}

impl Token {
    pub fn new(kind: TokenKind, span: Span) -> (r: Self)
        ensures
            r.kind == kind,
            r.span == span,
    {
        Token { kind, span }
    }

    /// Get the text of this token from source
    pub fn text<'a>(&self, source: &'a str) -> (r: &'a str)
        requires
            self.span.fits(source),
        ensures
            r.spec_bytes() == source.spec_bytes().subrange(self.span.start as int, self.span.end as int),
            r@ == crate::source::span_chars(source, self.span),
    {
        self.span.text(source)
    }
}

/// Token kinds produced by the lexer.
///
/// Top-level declaration keywords (module, import, blueprint, backend, contract,
/// scheme, enum, theme, arena) are contextual: they are lexed as `Identifier`.
#[derive(Debug, Clone, Copy, PartialEq, Eq, Structural)]
pub enum TokenKind {
    /// keyword `with`
    With,
    /// keyword `include`
    Include,
    /// keyword `method`
    Method,
    /// keyword `command`
    Command,
    /// keyword `virtual`
    Virtual,
    /// keyword `set`
    SetKw,
    /// keyword `variant`
    Variant,
    /// keyword `for`
    For,
    /// keyword `when`
    When,
    /// keyword `else`
    Else,
    /// keyword `repeat`
    Repeat,
    /// keyword `on`
    On,
    /// keyword `as`
    As,
    /// keyword `by`
    By,
    /// keyword `select`
    Select,
    /// keyword `ref`
    Ref,
    /// keyword `draft`
    Draft,
    /// keyword `asset`
    Asset,
    /// keyword `true`
    True,
    /// keyword `false`
    False,
    /// keyword `null`
    Null,
    /// keyword `at`
    At,
    /// `+`
    Plus,
    /// `-`
    Minus,
    /// `*`
    Star,
    /// `/`
    Slash,
    /// `%`
    Percent,
    /// `**`
    StarStar,
    /// `=`
    Eq,
    /// `==`
    EqEq,
    /// `!=`
    BangEq,
    /// `<`
    Lt,
    /// `<=`
    LtEq,
    /// `>`
    Gt,
    /// `>=`
    GtEq,
    /// `!`
    Bang,
    /// `&&`
    AmpAmp,
    /// `||`
    PipePipe,
    /// `?`
    Question,
    /// `?:`
    QuestionColon,
    /// `?.`
    QuestionDot,
    /// `->`
    Arrow,
    /// `=>`
    FatArrow,
    /// `..`
    DotDot,
    /// `(`
    LParen,
    /// `)`
    RParen,
    /// `{`
    LBrace,
    /// `}`
    RBrace,
    /// `[`
    LBracket,
    /// `]`
    RBracket,
    /// `,`
    Comma,
    /// `:`
    Colon,
    /// `.`
    Dot,
    /// 42, 0x2A, 0b101010, 0o52
    IntLiteral,
    /// 3.14, 1.0e10
    FloatLiteral,
    /// #RRGGBB, #RRGGBBAA
    ColorLiteral,
    /// "hello"
    StringLiteral,
    /// "text ${
    StringTemplateStart,
    /// } more ${
    StringTemplateMiddle,
    /// } end"
    StringTemplateEnd,
    /// a triple-quoted layout block
    LayoutBlock,
    /// identifier
    Identifier,
    /// significant in some contexts (slot separators)
    Newline,
    /// end of file
    Eof,
    /// lexer error token
    Error,
}

/// The always-reserved keyword spelled by `s`, if any.
pub open spec fn keyword_of(s: Seq<char>) -> Option<TokenKind> {
    if s == "with"@ {
        Some(TokenKind::With)
    } else if s == "include"@ {
        Some(TokenKind::Include)
    } else if s == "method"@ {
        Some(TokenKind::Method)
    } else if s == "command"@ {
        Some(TokenKind::Command)
    } else if s == "virtual"@ {
        Some(TokenKind::Virtual)
    } else if s == "set"@ {
        Some(TokenKind::SetKw)
    } else if s == "variant"@ {
        Some(TokenKind::Variant)
    } else if s == "for"@ {
        Some(TokenKind::For)
    } else if s == "when"@ {
        Some(TokenKind::When)
    } else if s == "else"@ {
        Some(TokenKind::Else)
    } else if s == "repeat"@ {
        Some(TokenKind::Repeat)
    } else if s == "on"@ {
        Some(TokenKind::On)
    } else if s == "as"@ {
        Some(TokenKind::As)
    } else if s == "by"@ {
        Some(TokenKind::By)
    } else if s == "select"@ {
        Some(TokenKind::Select)
    } else if s == "ref"@ {
        Some(TokenKind::Ref)
    } else if s == "draft"@ {
        Some(TokenKind::Draft)
    } else if s == "asset"@ {
        Some(TokenKind::Asset)
    } else if s == "true"@ {
        Some(TokenKind::True)
    } else if s == "false"@ {
        Some(TokenKind::False)
    } else if s == "null"@ {
        Some(TokenKind::Null)
    } else if s == "at"@ {
        Some(TokenKind::At)
    } else {
        None
    }
}

/// Whether `s` is one of the contextual (top-level) keywords.
pub open spec fn is_contextual_keyword_spec(s: Seq<char>) -> bool {
    s == MODULE@ || s == IMPORT@ || s == BLUEPRINT@ || s == BACKEND@ || s == CONTRACT@
        || s == SCHEME@ || s == ENUM@ || s == THEME@ || s == ARENA@
}

/// Whether `s` can start a top-level declaration.
pub open spec fn is_top_level_start_spec(s: Seq<char>) -> bool {
    s == BLUEPRINT@ || s == BACKEND@ || s == CONTRACT@ || s == SCHEME@ || s == ENUM@
        || s == THEME@ || s == ARENA@
}

impl TokenKind {
    /// Whether this kind is an always-reserved keyword.
    pub open spec fn spec_is_keyword(&self) -> bool {
        match self {
            TokenKind::With => true,
            TokenKind::Include => true,
            TokenKind::Method => true,
            TokenKind::Command => true,
            TokenKind::Virtual => true,
            TokenKind::SetKw => true,
            TokenKind::Variant => true,
            TokenKind::For => true,
            TokenKind::When => true,
            TokenKind::Else => true,
            TokenKind::Repeat => true,
            TokenKind::On => true,
            TokenKind::As => true,
            TokenKind::By => true,
            TokenKind::Select => true,
            TokenKind::Ref => true,
            TokenKind::Draft => true,
            TokenKind::Asset => true,
            TokenKind::True => true,
            TokenKind::False => true,
            TokenKind::Null => true,
            TokenKind::At => true,
            _ => false,
        }
    }

    /// Check if this token is a keyword (always reserved)
    #[verifier::when_used_as_spec(spec_is_keyword)]
    pub fn is_keyword(&self) -> (r: bool)
        ensures
            r == self.spec_is_keyword(),
    {
        match self {
            TokenKind::With => true,
            TokenKind::Include => true,
            TokenKind::Method => true,
            TokenKind::Command => true,
            TokenKind::Virtual => true,
            TokenKind::SetKw => true,
            TokenKind::Variant => true,
            TokenKind::For => true,
            TokenKind::When => true,
            TokenKind::Else => true,
            TokenKind::Repeat => true,
            TokenKind::On => true,
            TokenKind::As => true,
            TokenKind::By => true,
            TokenKind::Select => true,
            TokenKind::Ref => true,
            TokenKind::Draft => true,
            TokenKind::Asset => true,
            TokenKind::True => true,
            TokenKind::False => true,
            TokenKind::Null => true,
            TokenKind::At => true,
            _ => false,
        }
    }

    /// Check if this is an identifier that could be a contextual keyword at top-level.
    pub fn is_contextual_keyword(s: &str) -> (r: bool)
        ensures
            r == is_contextual_keyword_spec(s@),
    {
        str_eq(s, MODULE) || str_eq(s, IMPORT) || str_eq(s, BLUEPRINT) || str_eq(s, BACKEND)
            || str_eq(s, CONTRACT) || str_eq(s, SCHEME) || str_eq(s, ENUM) || str_eq(s, THEME)
            || str_eq(s, ARENA)
    }

    /// Check if this identifier can start a top-level declaration
    pub fn is_top_level_start_str(s: &str) -> (r: bool)
        ensures
            r == is_top_level_start_spec(s@),
    {
        str_eq(s, BLUEPRINT) || str_eq(s, BACKEND) || str_eq(s, CONTRACT) || str_eq(s, SCHEME)
            || str_eq(s, ENUM) || str_eq(s, THEME) || str_eq(s, ARENA)
    }

    /// Get the keyword for an identifier, if any. Contextual keywords are not
    /// included: they are lexed as `Identifier`.
    pub fn keyword_from_str(s: &str) -> (r: Option<TokenKind>)
        ensures
            r == keyword_of(s@),
    {
        if str_eq(s, "with") {
            Some(TokenKind::With)
        } else if str_eq(s, "include") {
            Some(TokenKind::Include)
        } else if str_eq(s, "method") {
            Some(TokenKind::Method)
        } else if str_eq(s, "command") {
            Some(TokenKind::Command)
        } else if str_eq(s, "virtual") {
            Some(TokenKind::Virtual)
        } else if str_eq(s, "set") {
            Some(TokenKind::SetKw)
        } else if str_eq(s, "variant") {
            Some(TokenKind::Variant)
        } else if str_eq(s, "for") {
            Some(TokenKind::For)
        } else if str_eq(s, "when") {
            Some(TokenKind::When)
        } else if str_eq(s, "else") {
            Some(TokenKind::Else)
        } else if str_eq(s, "repeat") {
            Some(TokenKind::Repeat)
        } else if str_eq(s, "on") {
            Some(TokenKind::On)
        } else if str_eq(s, "as") {
            Some(TokenKind::As)
        } else if str_eq(s, "by") {
            Some(TokenKind::By)
        } else if str_eq(s, "select") {
            Some(TokenKind::Select)
        } else if str_eq(s, "ref") {
            Some(TokenKind::Ref)
        } else if str_eq(s, "draft") {
            Some(TokenKind::Draft)
        } else if str_eq(s, "asset") {
            Some(TokenKind::Asset)
        } else if str_eq(s, "true") {
            Some(TokenKind::True)
        } else if str_eq(s, "false") {
            Some(TokenKind::False)
        } else if str_eq(s, "null") {
            Some(TokenKind::Null)
        } else if str_eq(s, "at") {
            Some(TokenKind::At)
        } else {
            None
        }
    }

    /// The name used for this kind in error messages.
    pub open spec fn display_name_spec(&self) -> Seq<char> {
        match self {
            TokenKind::With => "'with'"@,
            TokenKind::Include => "'include'"@,
            TokenKind::Method => "'method'"@,
            TokenKind::Command => "'command'"@,
            TokenKind::Virtual => "'virtual'"@,
            TokenKind::SetKw => "'set'"@,
            TokenKind::Variant => "'variant'"@,
            TokenKind::For => "'for'"@,
            TokenKind::When => "'when'"@,
            TokenKind::Else => "'else'"@,
            TokenKind::Repeat => "'repeat'"@,
            TokenKind::On => "'on'"@,
            TokenKind::As => "'as'"@,
            TokenKind::By => "'by'"@,
            TokenKind::Select => "'select'"@,
            TokenKind::Ref => "'ref'"@,
            TokenKind::Draft => "'draft'"@,
            TokenKind::Asset => "'asset'"@,
            TokenKind::True => "'true'"@,
            TokenKind::False => "'false'"@,
            TokenKind::Null => "'null'"@,
            TokenKind::At => "'at'"@,
            TokenKind::Plus => "'+'"@,
            TokenKind::Minus => "'-'"@,
            TokenKind::Star => "'*'"@,
            TokenKind::Slash => "'/'"@,
            TokenKind::Percent => "'%'"@,
            TokenKind::StarStar => "'**'"@,
            TokenKind::Eq => "'='"@,
            TokenKind::EqEq => "'=='"@,
            TokenKind::BangEq => "'!='"@,
            TokenKind::Lt => "'<'"@,
            TokenKind::LtEq => "'<='"@,
            TokenKind::Gt => "'>'"@,
            TokenKind::GtEq => "'>='"@,
            TokenKind::Bang => "'!'"@,
            TokenKind::AmpAmp => "'&&'"@,
            TokenKind::PipePipe => "'||'"@,
            TokenKind::Question => "'?'"@,
            TokenKind::QuestionColon => "'?:'"@,
            TokenKind::QuestionDot => "'?.'"@,
            TokenKind::Arrow => "'->'"@,
            TokenKind::FatArrow => "'=>'"@,
            TokenKind::DotDot => "'..'"@,
            TokenKind::LParen => "'('"@,
            TokenKind::RParen => "')'"@,
            TokenKind::LBrace => "'{'"@,
            TokenKind::RBrace => "'}'"@,
            TokenKind::LBracket => "'['"@,
            TokenKind::RBracket => "']'"@,
            TokenKind::Comma => "','"@,
            TokenKind::Colon => "':'"@,
            TokenKind::Dot => "'.'"@,
            TokenKind::IntLiteral => "integer"@,
            TokenKind::FloatLiteral => "float"@,
            TokenKind::ColorLiteral => "color"@,
            TokenKind::StringLiteral => "string"@,
            TokenKind::StringTemplateStart => "string template"@,
            TokenKind::StringTemplateMiddle => "string template"@,
            TokenKind::StringTemplateEnd => "string template"@,
            TokenKind::LayoutBlock => "layout block"@,
            TokenKind::Identifier => "identifier"@,
            TokenKind::Newline => "newline"@,
            TokenKind::Eof => "end of file"@,
            TokenKind::Error => "error"@,
        }
    }

    /// Get display name for error messages
    pub fn display_name(&self) -> (r: &'static str)
        ensures
            r@ == self.display_name_spec(),
    {
        match self {
            TokenKind::With => "'with'",
            TokenKind::Include => "'include'",
            TokenKind::Method => "'method'",
            TokenKind::Command => "'command'",
            TokenKind::Virtual => "'virtual'",
            TokenKind::SetKw => "'set'",
            TokenKind::Variant => "'variant'",
            TokenKind::For => "'for'",
            TokenKind::When => "'when'",
            TokenKind::Else => "'else'",
            TokenKind::Repeat => "'repeat'",
            TokenKind::On => "'on'",
            TokenKind::As => "'as'",
            TokenKind::By => "'by'",
            TokenKind::Select => "'select'",
            TokenKind::Ref => "'ref'",
            TokenKind::Draft => "'draft'",
            TokenKind::Asset => "'asset'",
            TokenKind::True => "'true'",
            TokenKind::False => "'false'",
            TokenKind::Null => "'null'",
            TokenKind::At => "'at'",
            TokenKind::Plus => "'+'",
            TokenKind::Minus => "'-'",
            TokenKind::Star => "'*'",
            TokenKind::Slash => "'/'",
            TokenKind::Percent => "'%'",
            TokenKind::StarStar => "'**'",
            TokenKind::Eq => "'='",
            TokenKind::EqEq => "'=='",
            TokenKind::BangEq => "'!='",
            TokenKind::Lt => "'<'",
            TokenKind::LtEq => "'<='",
            TokenKind::Gt => "'>'",
            TokenKind::GtEq => "'>='",
            TokenKind::Bang => "'!'",
            TokenKind::AmpAmp => "'&&'",
            TokenKind::PipePipe => "'||'",
            TokenKind::Question => "'?'",
            TokenKind::QuestionColon => "'?:'",
            TokenKind::QuestionDot => "'?.'",
            TokenKind::Arrow => "'->'",
            TokenKind::FatArrow => "'=>'",
            TokenKind::DotDot => "'..'",
            TokenKind::LParen => "'('",
            TokenKind::RParen => "')'",
            TokenKind::LBrace => "'{'",
            TokenKind::RBrace => "'}'",
            TokenKind::LBracket => "'['",
            TokenKind::RBracket => "']'",
            TokenKind::Comma => "','",
            TokenKind::Colon => "':'",
            TokenKind::Dot => "'.'",
            TokenKind::IntLiteral => "integer",
            TokenKind::FloatLiteral => "float",
            TokenKind::ColorLiteral => "color",
            TokenKind::StringLiteral => "string",
            TokenKind::StringTemplateStart => "string template",
            TokenKind::StringTemplateMiddle => "string template",
            TokenKind::StringTemplateEnd => "string template",
            TokenKind::LayoutBlock => "layout block",
            TokenKind::Identifier => "identifier",
            TokenKind::Newline => "newline",
            TokenKind::Eof => "end of file",
            TokenKind::Error => "error",
        }
    }
}


/// Keyword lookup agrees with the keyword kinds: a word's keyword is a
/// keyword kind and never a contextual keyword's word.
pub proof fn law_keyword_is_keyword(s: Seq<char>)
    ensures
        keyword_of(s) matches Some(k) ==> k.spec_is_keyword() && !is_contextual_keyword_spec(s),
{
    reveal_strlit("with");
    reveal_strlit("include");
    reveal_strlit("method");
    reveal_strlit("command");
    reveal_strlit("virtual");
    reveal_strlit("set");
    reveal_strlit("variant");
    reveal_strlit("for");
    reveal_strlit("when");
    reveal_strlit("else");
    reveal_strlit("repeat");
    reveal_strlit("on");
    reveal_strlit("as");
    reveal_strlit("by");
    reveal_strlit("select");
    reveal_strlit("ref");
    reveal_strlit("draft");
    reveal_strlit("asset");
    reveal_strlit("true");
    reveal_strlit("false");
    reveal_strlit("null");
    reveal_strlit("at");
    reveal_strlit("module");
    reveal_strlit("import");
    reveal_strlit("blueprint");
    reveal_strlit("backend");
    reveal_strlit("contract");
    reveal_strlit("scheme");
    reveal_strlit("enum");
    reveal_strlit("theme");
    reveal_strlit("arena");
    assert("with"@.len() == 4 && "with"@[0] == 'w' && "with"@[1] == 'i' && "with"@[2] == 't' && "with"@[3] == 'h');
    assert("include"@.len() == 7 && "include"@[0] == 'i' && "include"@[1] == 'n' && "include"@[2] == 'c' && "include"@[3] == 'l' && "include"@[4] == 'u' && "include"@[5] == 'd' && "include"@[6] == 'e');
    assert("method"@.len() == 6 && "method"@[0] == 'm' && "method"@[1] == 'e' && "method"@[2] == 't' && "method"@[3] == 'h' && "method"@[4] == 'o' && "method"@[5] == 'd');
    assert("command"@.len() == 7 && "command"@[0] == 'c' && "command"@[1] == 'o' && "command"@[2] == 'm' && "command"@[3] == 'm' && "command"@[4] == 'a' && "command"@[5] == 'n' && "command"@[6] == 'd');
    assert("virtual"@.len() == 7 && "virtual"@[0] == 'v' && "virtual"@[1] == 'i' && "virtual"@[2] == 'r' && "virtual"@[3] == 't' && "virtual"@[4] == 'u' && "virtual"@[5] == 'a' && "virtual"@[6] == 'l');
    assert("set"@.len() == 3 && "set"@[0] == 's' && "set"@[1] == 'e' && "set"@[2] == 't');
    assert("variant"@.len() == 7 && "variant"@[0] == 'v' && "variant"@[1] == 'a' && "variant"@[2] == 'r' && "variant"@[3] == 'i' && "variant"@[4] == 'a' && "variant"@[5] == 'n' && "variant"@[6] == 't');
    assert("for"@.len() == 3 && "for"@[0] == 'f' && "for"@[1] == 'o' && "for"@[2] == 'r');
    assert("when"@.len() == 4 && "when"@[0] == 'w' && "when"@[1] == 'h' && "when"@[2] == 'e' && "when"@[3] == 'n');
    assert("else"@.len() == 4 && "else"@[0] == 'e' && "else"@[1] == 'l' && "else"@[2] == 's' && "else"@[3] == 'e');
    assert("repeat"@.len() == 6 && "repeat"@[0] == 'r' && "repeat"@[1] == 'e' && "repeat"@[2] == 'p' && "repeat"@[3] == 'e' && "repeat"@[4] == 'a' && "repeat"@[5] == 't');
    assert("on"@.len() == 2 && "on"@[0] == 'o' && "on"@[1] == 'n');
    assert("as"@.len() == 2 && "as"@[0] == 'a' && "as"@[1] == 's');
    assert("by"@.len() == 2 && "by"@[0] == 'b' && "by"@[1] == 'y');
    assert("select"@.len() == 6 && "select"@[0] == 's' && "select"@[1] == 'e' && "select"@[2] == 'l' && "select"@[3] == 'e' && "select"@[4] == 'c' && "select"@[5] == 't');
    assert("ref"@.len() == 3 && "ref"@[0] == 'r' && "ref"@[1] == 'e' && "ref"@[2] == 'f');
    assert("draft"@.len() == 5 && "draft"@[0] == 'd' && "draft"@[1] == 'r' && "draft"@[2] == 'a' && "draft"@[3] == 'f' && "draft"@[4] == 't');
    assert("asset"@.len() == 5 && "asset"@[0] == 'a' && "asset"@[1] == 's' && "asset"@[2] == 's' && "asset"@[3] == 'e' && "asset"@[4] == 't');
    assert("true"@.len() == 4 && "true"@[0] == 't' && "true"@[1] == 'r' && "true"@[2] == 'u' && "true"@[3] == 'e');
    assert("false"@.len() == 5 && "false"@[0] == 'f' && "false"@[1] == 'a' && "false"@[2] == 'l' && "false"@[3] == 's' && "false"@[4] == 'e');
    assert("null"@.len() == 4 && "null"@[0] == 'n' && "null"@[1] == 'u' && "null"@[2] == 'l' && "null"@[3] == 'l');
    assert("at"@.len() == 2 && "at"@[0] == 'a' && "at"@[1] == 't');
    assert("module"@.len() == 6 && "module"@[0] == 'm' && "module"@[1] == 'o' && "module"@[2] == 'd' && "module"@[3] == 'u' && "module"@[4] == 'l' && "module"@[5] == 'e');
    assert("import"@.len() == 6 && "import"@[0] == 'i' && "import"@[1] == 'm' && "import"@[2] == 'p' && "import"@[3] == 'o' && "import"@[4] == 'r' && "import"@[5] == 't');
    assert("blueprint"@.len() == 9 && "blueprint"@[0] == 'b' && "blueprint"@[1] == 'l' && "blueprint"@[2] == 'u' && "blueprint"@[3] == 'e' && "blueprint"@[4] == 'p' && "blueprint"@[5] == 'r' && "blueprint"@[6] == 'i' && "blueprint"@[7] == 'n' && "blueprint"@[8] == 't');
    assert("backend"@.len() == 7 && "backend"@[0] == 'b' && "backend"@[1] == 'a' && "backend"@[2] == 'c' && "backend"@[3] == 'k' && "backend"@[4] == 'e' && "backend"@[5] == 'n' && "backend"@[6] == 'd');
    assert("contract"@.len() == 8 && "contract"@[0] == 'c' && "contract"@[1] == 'o' && "contract"@[2] == 'n' && "contract"@[3] == 't' && "contract"@[4] == 'r' && "contract"@[5] == 'a' && "contract"@[6] == 'c' && "contract"@[7] == 't');
    assert("scheme"@.len() == 6 && "scheme"@[0] == 's' && "scheme"@[1] == 'c' && "scheme"@[2] == 'h' && "scheme"@[3] == 'e' && "scheme"@[4] == 'm' && "scheme"@[5] == 'e');
    assert("enum"@.len() == 4 && "enum"@[0] == 'e' && "enum"@[1] == 'n' && "enum"@[2] == 'u' && "enum"@[3] == 'm');
    assert("theme"@.len() == 5 && "theme"@[0] == 't' && "theme"@[1] == 'h' && "theme"@[2] == 'e' && "theme"@[3] == 'm' && "theme"@[4] == 'e');
    assert("arena"@.len() == 5 && "arena"@[0] == 'a' && "arena"@[1] == 'r' && "arena"@[2] == 'e' && "arena"@[3] == 'n' && "arena"@[4] == 'a');
    assert(MODULE@ == "module"@ && IMPORT@ == "import"@ && BLUEPRINT@ == "blueprint"@ && BACKEND@ == "backend"@);
    assert(CONTRACT@ == "contract"@ && SCHEME@ == "scheme"@ && ENUM@ == "enum"@ && THEME@ == "theme"@ && ARENA@ == "arena"@);
    assert("with"@ != "module"@);
    assert("with"@ != "import"@);
    assert("with"@ != "blueprint"@);
    assert("with"@ != "backend"@);
    assert("with"@ != "contract"@);
    assert("with"@ != "scheme"@);
    assert("with"@ != "enum"@);
    assert("with"@ != "theme"@);
    assert("with"@ != "arena"@);
    assert("include"@ != "module"@);
    assert("include"@ != "import"@);
    assert("include"@ != "blueprint"@);
    assert("include"@ != "backend"@);
    assert("include"@ != "contract"@);
    assert("include"@ != "scheme"@);
    assert("include"@ != "enum"@);
    assert("include"@ != "theme"@);
    assert("include"@ != "arena"@);
    assert("method"@ != "module"@);
    assert("method"@ != "import"@);
    assert("method"@ != "blueprint"@);
    assert("method"@ != "backend"@);
    assert("method"@ != "contract"@);
    assert("method"@ != "scheme"@);
    assert("method"@ != "enum"@);
    assert("method"@ != "theme"@);
    assert("method"@ != "arena"@);
    assert("command"@ != "module"@);
    assert("command"@ != "import"@);
    assert("command"@ != "blueprint"@);
    assert("command"@ != "backend"@);
    assert("command"@ != "contract"@);
    assert("command"@ != "scheme"@);
    assert("command"@ != "enum"@);
    assert("command"@ != "theme"@);
    assert("command"@ != "arena"@);
    assert("virtual"@ != "module"@);
    assert("virtual"@ != "import"@);
    assert("virtual"@ != "blueprint"@);
    assert("virtual"@ != "backend"@);
    assert("virtual"@ != "contract"@);
    assert("virtual"@ != "scheme"@);
    assert("virtual"@ != "enum"@);
    assert("virtual"@ != "theme"@);
    assert("virtual"@ != "arena"@);
    assert("set"@ != "module"@);
    assert("set"@ != "import"@);
    assert("set"@ != "blueprint"@);
    assert("set"@ != "backend"@);
    assert("set"@ != "contract"@);
    assert("set"@ != "scheme"@);
    assert("set"@ != "enum"@);
    assert("set"@ != "theme"@);
    assert("set"@ != "arena"@);
    assert("variant"@ != "module"@);
    assert("variant"@ != "import"@);
    assert("variant"@ != "blueprint"@);
    assert("variant"@ != "backend"@);
    assert("variant"@ != "contract"@);
    assert("variant"@ != "scheme"@);
    assert("variant"@ != "enum"@);
    assert("variant"@ != "theme"@);
    assert("variant"@ != "arena"@);
    assert("for"@ != "module"@);
    assert("for"@ != "import"@);
    assert("for"@ != "blueprint"@);
    assert("for"@ != "backend"@);
    assert("for"@ != "contract"@);
    assert("for"@ != "scheme"@);
    assert("for"@ != "enum"@);
    assert("for"@ != "theme"@);
    assert("for"@ != "arena"@);
    assert("when"@ != "module"@);
    assert("when"@ != "import"@);
    assert("when"@ != "blueprint"@);
    assert("when"@ != "backend"@);
    assert("when"@ != "contract"@);
    assert("when"@ != "scheme"@);
    assert("when"@ != "enum"@);
    assert("when"@ != "theme"@);
    assert("when"@ != "arena"@);
    assert("else"@ != "module"@);
    assert("else"@ != "import"@);
    assert("else"@ != "blueprint"@);
    assert("else"@ != "backend"@);
    assert("else"@ != "contract"@);
    assert("else"@ != "scheme"@);
    assert("else"@ != "enum"@);
    assert("else"@ != "theme"@);
    assert("else"@ != "arena"@);
    assert("repeat"@ != "module"@);
    assert("repeat"@ != "import"@);
    assert("repeat"@ != "blueprint"@);
    assert("repeat"@ != "backend"@);
    assert("repeat"@ != "contract"@);
    assert("repeat"@ != "scheme"@);
    assert("repeat"@ != "enum"@);
    assert("repeat"@ != "theme"@);
    assert("repeat"@ != "arena"@);
    assert("on"@ != "module"@);
    assert("on"@ != "import"@);
    assert("on"@ != "blueprint"@);
    assert("on"@ != "backend"@);
    assert("on"@ != "contract"@);
    assert("on"@ != "scheme"@);
    assert("on"@ != "enum"@);
    assert("on"@ != "theme"@);
    assert("on"@ != "arena"@);
    assert("as"@ != "module"@);
    assert("as"@ != "import"@);
    assert("as"@ != "blueprint"@);
    assert("as"@ != "backend"@);
    assert("as"@ != "contract"@);
    assert("as"@ != "scheme"@);
    assert("as"@ != "enum"@);
    assert("as"@ != "theme"@);
    assert("as"@ != "arena"@);
    assert("by"@ != "module"@);
    assert("by"@ != "import"@);
    assert("by"@ != "blueprint"@);
    assert("by"@ != "backend"@);
    assert("by"@ != "contract"@);
    assert("by"@ != "scheme"@);
    assert("by"@ != "enum"@);
    assert("by"@ != "theme"@);
    assert("by"@ != "arena"@);
    assert("select"@ != "module"@);
    assert("select"@ != "import"@);
    assert("select"@ != "blueprint"@);
    assert("select"@ != "backend"@);
    assert("select"@ != "contract"@);
    assert("select"@ != "scheme"@);
    assert("select"@ != "enum"@);
    assert("select"@ != "theme"@);
    assert("select"@ != "arena"@);
    assert("ref"@ != "module"@);
    assert("ref"@ != "import"@);
    assert("ref"@ != "blueprint"@);
    assert("ref"@ != "backend"@);
    assert("ref"@ != "contract"@);
    assert("ref"@ != "scheme"@);
    assert("ref"@ != "enum"@);
    assert("ref"@ != "theme"@);
    assert("ref"@ != "arena"@);
    assert("draft"@ != "module"@);
    assert("draft"@ != "import"@);
    assert("draft"@ != "blueprint"@);
    assert("draft"@ != "backend"@);
    assert("draft"@ != "contract"@);
    assert("draft"@ != "scheme"@);
    assert("draft"@ != "enum"@);
    assert("draft"@ != "theme"@);
    assert("draft"@ != "arena"@);
    assert("asset"@ != "module"@);
    assert("asset"@ != "import"@);
    assert("asset"@ != "blueprint"@);
    assert("asset"@ != "backend"@);
    assert("asset"@ != "contract"@);
    assert("asset"@ != "scheme"@);
    assert("asset"@ != "enum"@);
    assert("asset"@ != "theme"@);
    assert("asset"@ != "arena"@);
    assert("true"@ != "module"@);
    assert("true"@ != "import"@);
    assert("true"@ != "blueprint"@);
    assert("true"@ != "backend"@);
    assert("true"@ != "contract"@);
    assert("true"@ != "scheme"@);
    assert("true"@ != "enum"@);
    assert("true"@ != "theme"@);
    assert("true"@ != "arena"@);
    assert("false"@ != "module"@);
    assert("false"@ != "import"@);
    assert("false"@ != "blueprint"@);
    assert("false"@ != "backend"@);
    assert("false"@ != "contract"@);
    assert("false"@ != "scheme"@);
    assert("false"@ != "enum"@);
    assert("false"@ != "theme"@);
    assert("false"@ != "arena"@);
    assert("null"@ != "module"@);
    assert("null"@ != "import"@);
    assert("null"@ != "blueprint"@);
    assert("null"@ != "backend"@);
    assert("null"@ != "contract"@);
    assert("null"@ != "scheme"@);
    assert("null"@ != "enum"@);
    assert("null"@ != "theme"@);
    assert("null"@ != "arena"@);
    assert("at"@ != "module"@);
    assert("at"@ != "import"@);
    assert("at"@ != "blueprint"@);
    assert("at"@ != "backend"@);
    assert("at"@ != "contract"@);
    assert("at"@ != "scheme"@);
    assert("at"@ != "enum"@);
    assert("at"@ != "theme"@);
    assert("at"@ != "arena"@);
}

/// Every keyword kind is the keyword of a word.
pub proof fn law_keyword_has_word(k: TokenKind)
    requires
        k.spec_is_keyword(),
    ensures
        exists|w: Seq<char>| keyword_of(w) == Some(k),
{
    reveal_strlit("with");
    reveal_strlit("include");
    reveal_strlit("method");
    reveal_strlit("command");
    reveal_strlit("virtual");
    reveal_strlit("set");
    reveal_strlit("variant");
    reveal_strlit("for");
    reveal_strlit("when");
    reveal_strlit("else");
    reveal_strlit("repeat");
    reveal_strlit("on");
    reveal_strlit("as");
    reveal_strlit("by");
    reveal_strlit("select");
    reveal_strlit("ref");
    reveal_strlit("draft");
    reveal_strlit("asset");
    reveal_strlit("true");
    reveal_strlit("false");
    reveal_strlit("null");
    reveal_strlit("at");
    reveal_strlit("module");
    reveal_strlit("import");
    reveal_strlit("blueprint");
    reveal_strlit("backend");
    reveal_strlit("contract");
    reveal_strlit("scheme");
    reveal_strlit("enum");
    reveal_strlit("theme");
    reveal_strlit("arena");
    assert("with"@.len() == 4 && "with"@[0] == 'w' && "with"@[1] == 'i' && "with"@[2] == 't' && "with"@[3] == 'h');
    assert("include"@.len() == 7 && "include"@[0] == 'i' && "include"@[1] == 'n' && "include"@[2] == 'c' && "include"@[3] == 'l' && "include"@[4] == 'u' && "include"@[5] == 'd' && "include"@[6] == 'e');
    assert("method"@.len() == 6 && "method"@[0] == 'm' && "method"@[1] == 'e' && "method"@[2] == 't' && "method"@[3] == 'h' && "method"@[4] == 'o' && "method"@[5] == 'd');
    assert("command"@.len() == 7 && "command"@[0] == 'c' && "command"@[1] == 'o' && "command"@[2] == 'm' && "command"@[3] == 'm' && "command"@[4] == 'a' && "command"@[5] == 'n' && "command"@[6] == 'd');
    assert("virtual"@.len() == 7 && "virtual"@[0] == 'v' && "virtual"@[1] == 'i' && "virtual"@[2] == 'r' && "virtual"@[3] == 't' && "virtual"@[4] == 'u' && "virtual"@[5] == 'a' && "virtual"@[6] == 'l');
    assert("set"@.len() == 3 && "set"@[0] == 's' && "set"@[1] == 'e' && "set"@[2] == 't');
    assert("variant"@.len() == 7 && "variant"@[0] == 'v' && "variant"@[1] == 'a' && "variant"@[2] == 'r' && "variant"@[3] == 'i' && "variant"@[4] == 'a' && "variant"@[5] == 'n' && "variant"@[6] == 't');
    assert("for"@.len() == 3 && "for"@[0] == 'f' && "for"@[1] == 'o' && "for"@[2] == 'r');
    assert("when"@.len() == 4 && "when"@[0] == 'w' && "when"@[1] == 'h' && "when"@[2] == 'e' && "when"@[3] == 'n');
    assert("else"@.len() == 4 && "else"@[0] == 'e' && "else"@[1] == 'l' && "else"@[2] == 's' && "else"@[3] == 'e');
    assert("repeat"@.len() == 6 && "repeat"@[0] == 'r' && "repeat"@[1] == 'e' && "repeat"@[2] == 'p' && "repeat"@[3] == 'e' && "repeat"@[4] == 'a' && "repeat"@[5] == 't');
    assert("on"@.len() == 2 && "on"@[0] == 'o' && "on"@[1] == 'n');
    assert("as"@.len() == 2 && "as"@[0] == 'a' && "as"@[1] == 's');
    assert("by"@.len() == 2 && "by"@[0] == 'b' && "by"@[1] == 'y');
    assert("select"@.len() == 6 && "select"@[0] == 's' && "select"@[1] == 'e' && "select"@[2] == 'l' && "select"@[3] == 'e' && "select"@[4] == 'c' && "select"@[5] == 't');
    assert("ref"@.len() == 3 && "ref"@[0] == 'r' && "ref"@[1] == 'e' && "ref"@[2] == 'f');
    assert("draft"@.len() == 5 && "draft"@[0] == 'd' && "draft"@[1] == 'r' && "draft"@[2] == 'a' && "draft"@[3] == 'f' && "draft"@[4] == 't');
    assert("asset"@.len() == 5 && "asset"@[0] == 'a' && "asset"@[1] == 's' && "asset"@[2] == 's' && "asset"@[3] == 'e' && "asset"@[4] == 't');
    assert("true"@.len() == 4 && "true"@[0] == 't' && "true"@[1] == 'r' && "true"@[2] == 'u' && "true"@[3] == 'e');
    assert("false"@.len() == 5 && "false"@[0] == 'f' && "false"@[1] == 'a' && "false"@[2] == 'l' && "false"@[3] == 's' && "false"@[4] == 'e');
    assert("null"@.len() == 4 && "null"@[0] == 'n' && "null"@[1] == 'u' && "null"@[2] == 'l' && "null"@[3] == 'l');
    assert("at"@.len() == 2 && "at"@[0] == 'a' && "at"@[1] == 't');
    assert("module"@.len() == 6 && "module"@[0] == 'm' && "module"@[1] == 'o' && "module"@[2] == 'd' && "module"@[3] == 'u' && "module"@[4] == 'l' && "module"@[5] == 'e');
    assert("import"@.len() == 6 && "import"@[0] == 'i' && "import"@[1] == 'm' && "import"@[2] == 'p' && "import"@[3] == 'o' && "import"@[4] == 'r' && "import"@[5] == 't');
    assert("blueprint"@.len() == 9 && "blueprint"@[0] == 'b' && "blueprint"@[1] == 'l' && "blueprint"@[2] == 'u' && "blueprint"@[3] == 'e' && "blueprint"@[4] == 'p' && "blueprint"@[5] == 'r' && "blueprint"@[6] == 'i' && "blueprint"@[7] == 'n' && "blueprint"@[8] == 't');
    assert("backend"@.len() == 7 && "backend"@[0] == 'b' && "backend"@[1] == 'a' && "backend"@[2] == 'c' && "backend"@[3] == 'k' && "backend"@[4] == 'e' && "backend"@[5] == 'n' && "backend"@[6] == 'd');
    assert("contract"@.len() == 8 && "contract"@[0] == 'c' && "contract"@[1] == 'o' && "contract"@[2] == 'n' && "contract"@[3] == 't' && "contract"@[4] == 'r' && "contract"@[5] == 'a' && "contract"@[6] == 'c' && "contract"@[7] == 't');
    assert("scheme"@.len() == 6 && "scheme"@[0] == 's' && "scheme"@[1] == 'c' && "scheme"@[2] == 'h' && "scheme"@[3] == 'e' && "scheme"@[4] == 'm' && "scheme"@[5] == 'e');
    assert("enum"@.len() == 4 && "enum"@[0] == 'e' && "enum"@[1] == 'n' && "enum"@[2] == 'u' && "enum"@[3] == 'm');
    assert("theme"@.len() == 5 && "theme"@[0] == 't' && "theme"@[1] == 'h' && "theme"@[2] == 'e' && "theme"@[3] == 'm' && "theme"@[4] == 'e');
    assert("arena"@.len() == 5 && "arena"@[0] == 'a' && "arena"@[1] == 'r' && "arena"@[2] == 'e' && "arena"@[3] == 'n' && "arena"@[4] == 'a');
    match k {
        TokenKind::With => {
            assert(keyword_of("with"@) == Some(TokenKind::With));
        },
        TokenKind::Include => {
            assert("include"@ != "with"@);
            assert(keyword_of("include"@) == Some(TokenKind::Include));
        },
        TokenKind::Method => {
            assert("method"@ != "with"@);
            assert("method"@ != "include"@);
            assert(keyword_of("method"@) == Some(TokenKind::Method));
        },
        TokenKind::Command => {
            assert("command"@ != "with"@);
            assert("command"@ != "include"@);
            assert("command"@ != "method"@);
            assert(keyword_of("command"@) == Some(TokenKind::Command));
        },
        TokenKind::Virtual => {
            assert("virtual"@ != "with"@);
            assert("virtual"@ != "include"@);
            assert("virtual"@ != "method"@);
            assert("virtual"@ != "command"@);
            assert(keyword_of("virtual"@) == Some(TokenKind::Virtual));
        },
        TokenKind::SetKw => {
            assert("set"@ != "with"@);
            assert("set"@ != "include"@);
            assert("set"@ != "method"@);
            assert("set"@ != "command"@);
            assert("set"@ != "virtual"@);
            assert(keyword_of("set"@) == Some(TokenKind::SetKw));
        },
        TokenKind::Variant => {
            assert("variant"@ != "with"@);
            assert("variant"@ != "include"@);
            assert("variant"@ != "method"@);
            assert("variant"@ != "command"@);
            assert("variant"@ != "virtual"@);
            assert("variant"@ != "set"@);
            assert(keyword_of("variant"@) == Some(TokenKind::Variant));
        },
        TokenKind::For => {
            assert("for"@ != "with"@);
            assert("for"@ != "include"@);
            assert("for"@ != "method"@);
            assert("for"@ != "command"@);
            assert("for"@ != "virtual"@);
            assert("for"@ != "set"@);
            assert("for"@ != "variant"@);
            assert(keyword_of("for"@) == Some(TokenKind::For));
        },
        TokenKind::When => {
            assert("when"@ != "with"@);
            assert("when"@ != "include"@);
            assert("when"@ != "method"@);
            assert("when"@ != "command"@);
            assert("when"@ != "virtual"@);
            assert("when"@ != "set"@);
            assert("when"@ != "variant"@);
            assert("when"@ != "for"@);
            assert(keyword_of("when"@) == Some(TokenKind::When));
        },
        TokenKind::Else => {
            assert("else"@ != "with"@);
            assert("else"@ != "include"@);
            assert("else"@ != "method"@);
            assert("else"@ != "command"@);
            assert("else"@ != "virtual"@);
            assert("else"@ != "set"@);
            assert("else"@ != "variant"@);
            assert("else"@ != "for"@);
            assert("else"@ != "when"@);
            assert(keyword_of("else"@) == Some(TokenKind::Else));
        },
        TokenKind::Repeat => {
            assert("repeat"@ != "with"@);
            assert("repeat"@ != "include"@);
            assert("repeat"@ != "method"@);
            assert("repeat"@ != "command"@);
            assert("repeat"@ != "virtual"@);
            assert("repeat"@ != "set"@);
            assert("repeat"@ != "variant"@);
            assert("repeat"@ != "for"@);
            assert("repeat"@ != "when"@);
            assert("repeat"@ != "else"@);
            assert(keyword_of("repeat"@) == Some(TokenKind::Repeat));
        },
        TokenKind::On => {
            assert("on"@ != "with"@);
            assert("on"@ != "include"@);
            assert("on"@ != "method"@);
            assert("on"@ != "command"@);
            assert("on"@ != "virtual"@);
            assert("on"@ != "set"@);
            assert("on"@ != "variant"@);
            assert("on"@ != "for"@);
            assert("on"@ != "when"@);
            assert("on"@ != "else"@);
            assert("on"@ != "repeat"@);
            assert(keyword_of("on"@) == Some(TokenKind::On));
        },
        TokenKind::As => {
            assert("as"@ != "with"@);
            assert("as"@ != "include"@);
            assert("as"@ != "method"@);
            assert("as"@ != "command"@);
            assert("as"@ != "virtual"@);
            assert("as"@ != "set"@);
            assert("as"@ != "variant"@);
            assert("as"@ != "for"@);
            assert("as"@ != "when"@);
            assert("as"@ != "else"@);
            assert("as"@ != "repeat"@);
            assert("as"@ != "on"@);
            assert(keyword_of("as"@) == Some(TokenKind::As));
        },
        TokenKind::By => {
            assert("by"@ != "with"@);
            assert("by"@ != "include"@);
            assert("by"@ != "method"@);
            assert("by"@ != "command"@);
            assert("by"@ != "virtual"@);
            assert("by"@ != "set"@);
            assert("by"@ != "variant"@);
            assert("by"@ != "for"@);
            assert("by"@ != "when"@);
            assert("by"@ != "else"@);
            assert("by"@ != "repeat"@);
            assert("by"@ != "on"@);
            assert("by"@ != "as"@);
            assert(keyword_of("by"@) == Some(TokenKind::By));
        },
        TokenKind::Select => {
            assert("select"@ != "with"@);
            assert("select"@ != "include"@);
            assert("select"@ != "method"@);
            assert("select"@ != "command"@);
            assert("select"@ != "virtual"@);
            assert("select"@ != "set"@);
            assert("select"@ != "variant"@);
            assert("select"@ != "for"@);
            assert("select"@ != "when"@);
            assert("select"@ != "else"@);
            assert("select"@ != "repeat"@);
            assert("select"@ != "on"@);
            assert("select"@ != "as"@);
            assert("select"@ != "by"@);
            assert(keyword_of("select"@) == Some(TokenKind::Select));
        },
        TokenKind::Ref => {
            assert("ref"@ != "with"@);
            assert("ref"@ != "include"@);
            assert("ref"@ != "method"@);
            assert("ref"@ != "command"@);
            assert("ref"@ != "virtual"@);
            assert("ref"@ != "set"@);
            assert("ref"@ != "variant"@);
            assert("ref"@ != "for"@);
            assert("ref"@ != "when"@);
            assert("ref"@ != "else"@);
            assert("ref"@ != "repeat"@);
            assert("ref"@ != "on"@);
            assert("ref"@ != "as"@);
            assert("ref"@ != "by"@);
            assert("ref"@ != "select"@);
            assert(keyword_of("ref"@) == Some(TokenKind::Ref));
        },
        TokenKind::Draft => {
            assert("draft"@ != "with"@);
            assert("draft"@ != "include"@);
            assert("draft"@ != "method"@);
            assert("draft"@ != "command"@);
            assert("draft"@ != "virtual"@);
            assert("draft"@ != "set"@);
            assert("draft"@ != "variant"@);
            assert("draft"@ != "for"@);
            assert("draft"@ != "when"@);
            assert("draft"@ != "else"@);
            assert("draft"@ != "repeat"@);
            assert("draft"@ != "on"@);
            assert("draft"@ != "as"@);
            assert("draft"@ != "by"@);
            assert("draft"@ != "select"@);
            assert("draft"@ != "ref"@);
            assert(keyword_of("draft"@) == Some(TokenKind::Draft));
        },
        TokenKind::Asset => {
            assert("asset"@ != "with"@);
            assert("asset"@ != "include"@);
            assert("asset"@ != "method"@);
            assert("asset"@ != "command"@);
            assert("asset"@ != "virtual"@);
            assert("asset"@ != "set"@);
            assert("asset"@ != "variant"@);
            assert("asset"@ != "for"@);
            assert("asset"@ != "when"@);
            assert("asset"@ != "else"@);
            assert("asset"@ != "repeat"@);
            assert("asset"@ != "on"@);
            assert("asset"@ != "as"@);
            assert("asset"@ != "by"@);
            assert("asset"@ != "select"@);
            assert("asset"@ != "ref"@);
            assert("asset"@ != "draft"@);
            assert(keyword_of("asset"@) == Some(TokenKind::Asset));
        },
        TokenKind::True => {
            assert("true"@ != "with"@);
            assert("true"@ != "include"@);
            assert("true"@ != "method"@);
            assert("true"@ != "command"@);
            assert("true"@ != "virtual"@);
            assert("true"@ != "set"@);
            assert("true"@ != "variant"@);
            assert("true"@ != "for"@);
            assert("true"@ != "when"@);
            assert("true"@ != "else"@);
            assert("true"@ != "repeat"@);
            assert("true"@ != "on"@);
            assert("true"@ != "as"@);
            assert("true"@ != "by"@);
            assert("true"@ != "select"@);
            assert("true"@ != "ref"@);
            assert("true"@ != "draft"@);
            assert("true"@ != "asset"@);
            assert(keyword_of("true"@) == Some(TokenKind::True));
        },
        TokenKind::False => {
            assert("false"@ != "with"@);
            assert("false"@ != "include"@);
            assert("false"@ != "method"@);
            assert("false"@ != "command"@);
            assert("false"@ != "virtual"@);
            assert("false"@ != "set"@);
            assert("false"@ != "variant"@);
            assert("false"@ != "for"@);
            assert("false"@ != "when"@);
            assert("false"@ != "else"@);
            assert("false"@ != "repeat"@);
            assert("false"@ != "on"@);
            assert("false"@ != "as"@);
            assert("false"@ != "by"@);
            assert("false"@ != "select"@);
            assert("false"@ != "ref"@);
            assert("false"@ != "draft"@);
            assert("false"@ != "asset"@);
            assert("false"@ != "true"@);
            assert(keyword_of("false"@) == Some(TokenKind::False));
        },
        TokenKind::Null => {
            assert("null"@ != "with"@);
            assert("null"@ != "include"@);
            assert("null"@ != "method"@);
            assert("null"@ != "command"@);
            assert("null"@ != "virtual"@);
            assert("null"@ != "set"@);
            assert("null"@ != "variant"@);
            assert("null"@ != "for"@);
            assert("null"@ != "when"@);
            assert("null"@ != "else"@);
            assert("null"@ != "repeat"@);
            assert("null"@ != "on"@);
            assert("null"@ != "as"@);
            assert("null"@ != "by"@);
            assert("null"@ != "select"@);
            assert("null"@ != "ref"@);
            assert("null"@ != "draft"@);
            assert("null"@ != "asset"@);
            assert("null"@ != "true"@);
            assert("null"@ != "false"@);
            assert(keyword_of("null"@) == Some(TokenKind::Null));
        },
        TokenKind::At => {
            assert("at"@ != "with"@);
            assert("at"@ != "include"@);
            assert("at"@ != "method"@);
            assert("at"@ != "command"@);
            assert("at"@ != "virtual"@);
            assert("at"@ != "set"@);
            assert("at"@ != "variant"@);
            assert("at"@ != "for"@);
            assert("at"@ != "when"@);
            assert("at"@ != "else"@);
            assert("at"@ != "repeat"@);
            assert("at"@ != "on"@);
            assert("at"@ != "as"@);
            assert("at"@ != "by"@);
            assert("at"@ != "select"@);
            assert("at"@ != "ref"@);
            assert("at"@ != "draft"@);
            assert("at"@ != "asset"@);
            assert("at"@ != "true"@);
            assert("at"@ != "false"@);
            assert("at"@ != "null"@);
            assert(keyword_of("at"@) == Some(TokenKind::At));
        },
        _ => {},
    }
}

} // verus!
