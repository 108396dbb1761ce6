//! Contract parser: `contract Name { methods }`.

use vstd::prelude::*;
use vstd::string::*;
use crate::ast::{Contract, ContractMethod};
use crate::lexer::contextual::CONTRACT;
use crate::lexer::TokenKind;
use crate::source::Span;
use super::Parser;

verus! {

impl<'a> Parser<'a> {
    /// Parse contract declaration
    pub(super) fn parse_contract(&mut self) -> (r: Option<Contract>)
        requires
            old(self).wf(),
            old(self).at_word(CONTRACT@),
        ensures
            r matches Some(d) ==> d.name@ == super::types::token_text(old(self).source, old(self).tokens@, super::after_token(old(self).tokens@, old(self).cursor as int)),
            final(self).progress(old(self)),
            final(self).moved(old(self)),
            r.is_none() ==> final(self).reported(old(self)),
    {
        let start = self.current_span().start;
        self.expect_contextual(CONTRACT)?;
        let name = self.expect_identifier()?;
        self.expect(TokenKind::LBrace)?;

        let mut methods: Vec<ContractMethod> = Vec::new();
        while !self.check(TokenKind::RBrace) && !self.at_end()
            invariant
                self.progress(old(self)),
                self.moved(old(self)),
            decreases self.remaining(),
        {
            let ghost before = self.cursor;
            if let Some(method) = self.parse_contract_method() {
                methods.push(method);
            } else {
                self.advance();
            }
            proof {
                assert(self.cursor > before);
            }
        }

        let end_span = self.current_span();
        self.expect(TokenKind::RBrace)?;
        Some(Contract { name, methods, span: Span::new(start, end_span.end) })
    }

    /// Parse a contract method: name(params) [: return type]
    fn parse_contract_method(&mut self) -> (r: Option<ContractMethod>)
        requires
            old(self).wf(),
        ensures
            final(self).progress(old(self)),
            r.is_some() ==> final(self).moved(old(self)),
            r.is_none() ==> final(self).reported(old(self)),
    {
        let start = self.current_span().start;
        let name = self.expect_identifier()?;
        let params = self.parse_param_list()?;
        let return_type = if self.consume(TokenKind::Colon).is_some() {
            Some(self.parse_type_expr()?)
        } else {
            None
        };
        let span = Span::new(start, self.previous_span().end);
        Some(ContractMethod { name, params, return_type, span })
    }
}

} // verus!
