//! Scheme parser: `scheme Name { fields }` with virtual fields and field
//! instructions (`.. identity`, `.. default { value }`).

use vstd::prelude::*;
use vstd::string::*;
use crate::ast::{FieldInstruction, Scheme, SchemeField, SchemeMember, VirtualField};
use crate::lexer::contextual::SCHEME;
use crate::lexer::{Token, TokenKind};
use super::expr::{expr_end, reads_expr};
use super::types::{kind_at, token_text};
use super::{after_token, Parser};

verus! {

/// Where the field instruction `name [{ value }]` at token `i` ends.
pub open spec fn field_instruction_end(src: &str, ts: Seq<Token>, i: int) -> Option<int> {
    if kind_at(ts, i, TokenKind::Identifier) {
        let k = after_token(ts, i);
        if kind_at(ts, k, TokenKind::LBrace) {
            match expr_end(src, ts, after_token(ts, k), 0) {
                Some(m) => if kind_at(ts, m, TokenKind::RBrace) {
                    Some(after_token(ts, m))
                } else {
                    None
                },
                None => None,
            }
        } else {
            Some(k)
        }
    } else {
        None
    }
}

/// Whether `f` is what the field instruction at token `i` reads.
pub open spec fn reads_field_instruction(f: FieldInstruction, src: &str, ts: Seq<Token>, i: int) -> bool {
    let k = after_token(ts, i);
    &&& f.name@ == token_text(src, ts, i)
    &&& if kind_at(ts, k, TokenKind::LBrace) {
        f.value matches Some(e) && reads_expr(e, src, ts, after_token(ts, k), 0)
    } else {
        f.value is None
    }
}

impl<'a> Parser<'a> {
    /// Parse scheme declaration
    pub(super) fn parse_scheme(&mut self) -> (r: Option<Scheme>)
        requires
            old(self).wf(),
            old(self).at_word(SCHEME@),
        ensures
            r matches Some(d) ==> d.name@ == super::types::token_text(old(self).source, old(self).tokens@, super::after_token(old(self).tokens@, old(self).cursor as int)),
            final(self).progress(old(self)),
            final(self).moved(old(self)),
            r.is_none() ==> final(self).reported(old(self)),
    {
        self.expect_contextual(SCHEME)?;
        let name = self.expect_identifier()?;
        self.expect(TokenKind::LBrace)?;

        let mut members: Vec<SchemeMember> = Vec::new();
        while !self.check(TokenKind::RBrace) && !self.at_end()
            invariant
                self.progress(old(self)),
                self.moved(old(self)),
            decreases self.remaining(),
        {
            let ghost before = self.cursor;
            if let Some(member) = self.parse_scheme_member() {
                members.push(member);
            } else {
                self.advance();
            }
            proof {
                assert(self.cursor > before);
            }
        }
        self.expect(TokenKind::RBrace)?;
        Some(Scheme { name, members })
    }

    /// Parse a scheme member: a virtual field or a field
    fn parse_scheme_member(&mut self) -> (r: Option<SchemeMember>)
        requires
            old(self).wf(),
        ensures
            final(self).progress(old(self)),
            r.is_some() ==> final(self).moved(old(self)),
            r.is_none() ==> final(self).reported(old(self)),
    {
        if self.check(TokenKind::Virtual) {
            self.advance();
            let name = self.expect_identifier()?;
            self.expect(TokenKind::Colon)?;
            let type_expr = self.parse_type_expr()?;
            self.expect(TokenKind::Eq)?;
            let expr = self.parse_expr()?;
            Some(SchemeMember::Virtual(VirtualField { name, type_expr, expr }))
        } else if self.check(TokenKind::Identifier) {
            let name = self.expect_identifier()?;
            self.expect(TokenKind::Colon)?;
            let type_expr = self.parse_type_expr()?;
            // Parse field instructions: .. identity, .. readonly, etc.
            let mut instructions: Vec<FieldInstruction> = Vec::new();
            while self.consume(TokenKind::DotDot).is_some()
                invariant
                    self.progress(old(self)),
                    self.moved(old(self)),
                decreases self.remaining(),
            {
                if let Some(instr) = self.parse_field_instruction() {
                    instructions.push(instr);
                }
            }
            Some(SchemeMember::Field(SchemeField { name, type_expr, instructions }))
        } else {
            self.error_expected("scheme field");
            None
        }
    }

    /// Parse a field instruction (.. identity, .. default { value })
    fn parse_field_instruction(&mut self) -> (r: Option<FieldInstruction>)
        requires
            old(self).wf(),
        ensures
            final(self).progress(old(self)),
            r.is_none() ==> final(self).reported(old(self)),
            r.is_some() == field_instruction_end(old(self).source, old(self).tokens@, old(self).cursor as int).is_some(),
            r matches Some(f) ==> {
                &&& field_instruction_end(old(self).source, old(self).tokens@, old(self).cursor as int) == Some(
                    final(self).cursor as int,
                )
                &&& reads_field_instruction(f, old(self).source, old(self).tokens@, old(self).cursor as int)
            },
    {
        let name = self.expect_identifier()?;
        let value = if self.consume(TokenKind::LBrace).is_some() {
            let expr = self.parse_expr()?;
            self.expect(TokenKind::RBrace)?;
            Some(expr)
        } else {
            None
        };
        Some(FieldInstruction { name, value })
    }
}

} // verus!
