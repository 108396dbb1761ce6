//! Lexer for Frel: token definitions, the shape of tokens, and the scanner.

pub mod contextual;
pub mod scan;
pub mod spec;
pub mod token;

pub use scan::Lexer;
pub use token::{Token, TokenKind};
