//! Theme parser: `theme Name { members }` with fields, instruction sets,
//! variants and includes.

use vstd::prelude::*;
use vstd::string::*;
use crate::ast::{Expr, Instruction, InstructionSet, Theme, ThemeField, ThemeMember, ThemeVariant};
use crate::lexer::contextual::THEME;
use crate::lexer::TokenKind;
use super::Parser;

verus! {

impl<'a> Parser<'a> {
    /// Parse theme declaration
    pub(super) fn parse_theme(&mut self) -> (r: Option<Theme>)
        requires
            old(self).wf(),
            old(self).at_word(THEME@),
        ensures
            r matches Some(d) ==> d.name@ == super::types::token_text(old(self).source, old(self).tokens@, super::after_token(old(self).tokens@, old(self).cursor as int)),
            final(self).progress(old(self)),
            final(self).moved(old(self)),
            r.is_none() ==> final(self).reported(old(self)),
    {
        self.expect_contextual(THEME)?;
        let name = self.expect_identifier()?;
        self.expect(TokenKind::LBrace)?;

        let mut members: Vec<ThemeMember> = Vec::new();
        while !self.check(TokenKind::RBrace) && !self.at_end()
            invariant
                self.progress(old(self)),
                self.moved(old(self)),
            decreases self.remaining(),
        {
            let ghost before = self.cursor;
            if let Some(member) = self.parse_theme_member() {
                members.push(member);
            } else {
                self.advance();
            }
            proof {
                assert(self.cursor > before);
            }
        }
        self.expect(TokenKind::RBrace)?;
        Some(Theme { name, members })
    }

    /// Parse a theme member
    fn parse_theme_member(&mut self) -> (r: Option<ThemeMember>)
        requires
            old(self).wf(),
        ensures
            final(self).progress(old(self)),
            r.is_some() ==> final(self).moved(old(self)),
            r.is_none() ==> final(self).reported(old(self)),
    {
        match self.current_kind() {
            TokenKind::Include => {
                self.advance();
                let name = self.expect_identifier()?;
                Some(ThemeMember::Include(name))
            },
            TokenKind::SetKw => {
                self.advance();
                let name = self.expect_identifier()?;
                self.expect(TokenKind::LBrace)?;
                let mut instructions: Vec<Instruction> = Vec::new();
                while !self.check(TokenKind::RBrace) && !self.at_end()
                    invariant
                        self.progress(old(self)),
                        self.moved(old(self)),
                    decreases self.remaining(),
                {
                    let ghost before = self.cursor;
                    if let Some(instr) = self.parse_instruction() {
                        instructions.push(instr);
                    } else {
                        self.advance();
                    }
                    proof {
                        assert(self.cursor > before);
                    }
                }
                self.expect(TokenKind::RBrace)?;
                Some(ThemeMember::InstructionSet(InstructionSet { name, instructions }))
            },
            TokenKind::Variant => {
                self.advance();
                let name = self.expect_identifier()?;
                self.expect(TokenKind::LBrace)?;
                let mut overrides: Vec<(String, Expr)> = Vec::new();
                while !self.check(TokenKind::RBrace) && !self.at_end()
                    invariant
                        self.progress(old(self)),
                        self.moved(old(self)),
                    decreases self.remaining(),
                {
                    let field_name = self.expect_identifier()?;
                    self.expect(TokenKind::Eq)?;
                    let value = self.parse_expr()?;
                    overrides.push((field_name, value));
                }
                self.expect(TokenKind::RBrace)?;
                Some(ThemeMember::Variant(ThemeVariant { name, overrides }))
            },
            TokenKind::Identifier => {
                // Field: name : [asset] type [= init]
                let name = self.expect_identifier()?;
                self.expect(TokenKind::Colon)?;
                let is_asset = self.consume(TokenKind::Asset).is_some();
                let type_expr = self.parse_type_expr()?;
                let init = if self.consume(TokenKind::Eq).is_some() {
                    Some(self.parse_expr()?)
                } else {
                    None
                };
                Some(ThemeMember::Field(ThemeField { name, is_asset, type_expr, init }))
            },
            _ => {
                self.error_expected("theme member");
                None
            },
        }
    }
}

} // verus!
