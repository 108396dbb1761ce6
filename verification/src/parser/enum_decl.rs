//! Enum parser: `enum Name { Variant ... }`.

use vstd::prelude::*;
use vstd::string::*;
use crate::ast::Enum;
use crate::lexer::contextual::ENUM;
use crate::lexer::TokenKind;
use crate::source::Span;
use super::Parser;

verus! {

impl<'a> Parser<'a> {
    /// Parse enum declaration
    pub(super) fn parse_enum(&mut self) -> (r: Option<Enum>)
        requires
            old(self).wf(),
            old(self).at_word(ENUM@),
        ensures
            r matches Some(d) ==> d.name@ == super::types::token_text(old(self).source, old(self).tokens@, super::after_token(old(self).tokens@, old(self).cursor as int)),
            final(self).progress(old(self)),
            final(self).moved(old(self)),
            r.is_none() ==> final(self).reported(old(self)),
    {
        let start = self.current_span().start;
        self.expect_contextual(ENUM)?;
        let name = self.expect_identifier()?;
        self.expect(TokenKind::LBrace)?;

        let mut variants: Vec<String> = Vec::new();
        while !self.check(TokenKind::RBrace) && !self.at_end()
            invariant
                self.progress(old(self)),
                self.moved(old(self)),
            decreases self.remaining(),
        {
            if self.check(TokenKind::Identifier) {
                variants.push(self.expect_identifier()?);
            } else {
                self.error_expected("enum variant");
                break;
            }
        }

        let end_span = self.current_span();
        self.expect(TokenKind::RBrace)?;
        Some(Enum { name, variants, span: Span::new(start, end_span.end) })
    }
}

} // verus!
