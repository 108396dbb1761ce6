//! Contextual keywords: only reserved at top-level positions. They can be used
//! as identifiers (field names, parameters, etc.) inside declarations.

use vstd::prelude::*;

verus! {

pub const MODULE: &'static str = "module";
pub const IMPORT: &'static str = "import";
pub const BLUEPRINT: &'static str = "blueprint";
pub const BACKEND: &'static str = "backend";
pub const CONTRACT: &'static str = "contract";
pub const SCHEME: &'static str = "scheme";
pub const ENUM: &'static str = "enum";
pub const THEME: &'static str = "theme";
pub const ARENA: &'static str = "arena";

} // verus!
