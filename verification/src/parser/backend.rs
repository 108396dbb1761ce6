//! Backend parser: `backend Name(params) { members }` with fields, methods,
//! commands and includes.

use vstd::prelude::*;
use vstd::string::*;
use crate::ast::{Backend, BackendMember, Command, Field, Method};
use crate::lexer::contextual::BACKEND;
use crate::lexer::TokenKind;
use crate::source::Span;
use super::Parser;

verus! {

impl<'a> Parser<'a> {
    /// Parse backend declaration
    pub(super) fn parse_backend(&mut self) -> (r: Option<Backend>)
        requires
            old(self).wf(),
            old(self).at_word(BACKEND@),
        ensures
            r matches Some(d) ==> d.name@ == super::types::token_text(old(self).source, old(self).tokens@, super::after_token(old(self).tokens@, old(self).cursor as int)),
            final(self).progress(old(self)),
            final(self).moved(old(self)),
            r.is_none() ==> final(self).reported(old(self)),
    {
        let start = self.current_span().start;
        self.expect_contextual(BACKEND)?;
        let name = self.expect_identifier()?;
        let params = self.parse_param_list_opt()?;
        self.expect(TokenKind::LBrace)?;

        let mut members: Vec<BackendMember> = Vec::new();
        while !self.check(TokenKind::RBrace) && !self.at_end()
            invariant
                self.progress(old(self)),
                self.moved(old(self)),
            decreases self.remaining(),
        {
            let ghost before = self.cursor;
            if let Some(member) = self.parse_backend_member() {
                members.push(member);
            } else {
                // Error recovery: skip to next member or closing brace
                self.advance();
            }
            proof {
                assert(self.cursor > before);
            }
        }

        let end_span = self.current_span();
        self.expect(TokenKind::RBrace)?;
        Some(Backend { name, params, members, span: Span::new(start, end_span.end) })
    }

    /// Parse a backend member: include, method, command or field
    fn parse_backend_member(&mut self) -> (r: Option<BackendMember>)
        requires
            old(self).wf(),
        ensures
            final(self).progress(old(self)),
            r.is_some() ==> final(self).moved(old(self)),
            r.is_none() ==> final(self).reported(old(self)),
    {
        match self.current_kind() {
            TokenKind::Include => {
                self.advance();
                let name = self.expect_identifier()?;
                Some(BackendMember::Include(name))
            },
            TokenKind::Method => {
                let start = self.current_span().start;
                self.advance();
                let name = self.expect_identifier()?;
                let params = self.parse_param_list()?;
                self.expect(TokenKind::Colon)?;
                let return_type = self.parse_type_expr()?;
                let span = Span::new(start, self.previous_span().end);
                Some(BackendMember::Method(Method { name, params, return_type, span }))
            },
            TokenKind::Command => {
                let start = self.current_span().start;
                self.advance();
                let name = self.expect_identifier()?;
                let params = self.parse_param_list()?;
                let span = Span::new(start, self.previous_span().end);
                Some(BackendMember::Command(Command { name, params, span }))
            },
            TokenKind::Identifier => {
                // Field: name : type [= init]
                let start = self.current_span().start;
                let name = self.expect_identifier()?;
                self.expect(TokenKind::Colon)?;
                let type_expr = self.parse_type_expr()?;
                let init = if self.consume(TokenKind::Eq).is_some() {
                    Some(self.parse_expr()?)
                } else {
                    None
                };
                let span = Span::new(start, self.previous_span().end);
                Some(BackendMember::Field(Field { name, type_expr, init, span }))
            },
            _ => {
                self.error_expected("backend member (field, method, command, or include)");
                None
            },
        }
    }
}

} // verus!
