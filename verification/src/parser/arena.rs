//! Arena parser: `arena Name { for Scheme [with Contract] }`.

use vstd::prelude::*;
use vstd::string::*;
use crate::ast::Arena;
use crate::lexer::contextual::ARENA;
use crate::lexer::TokenKind;
use super::Parser;

verus! {

impl<'a> Parser<'a> {
    /// Parse arena declaration
    pub(super) fn parse_arena(&mut self) -> (r: Option<Arena>)
        requires
            old(self).wf(),
            old(self).at_word(ARENA@),
        ensures
            r matches Some(d) ==> d.name@ == super::types::token_text(old(self).source, old(self).tokens@, super::after_token(old(self).tokens@, old(self).cursor as int)),
            final(self).progress(old(self)),
            final(self).moved(old(self)),
            r.is_none() ==> final(self).reported(old(self)),
    {
        self.expect_contextual(ARENA)?;
        let name = self.expect_identifier()?;
        self.expect(TokenKind::LBrace)?;
        self.expect(TokenKind::For)?;
        let scheme_name = self.expect_identifier()?;
        let contract = if self.consume(TokenKind::With).is_some() {
            Some(self.expect_identifier()?)
        } else {
            None
        };
        self.expect(TokenKind::RBrace)?;
        Some(Arena { name, scheme_name, contract })
    }
}

} // verus!
