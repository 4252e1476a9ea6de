//! Verified core of the `#[js(...)]` binding generator: the naming rules,
//! attribute decisions, signature checks and typing rules that decide what
//! code is generated for a JavaScript item, plus the link-resolution
//! decisions of the documentation preprocessor.

pub mod text;
pub mod diagnostic;
pub mod well_known;
pub mod property;
pub mod flag;
pub mod types;
pub mod sig;
pub mod call;
pub mod interface;
pub mod derive;
pub mod items;
pub mod meta;
pub mod generics;
pub mod naming;
pub mod bound;
pub mod module;
pub mod iterator;
pub mod imports;
pub mod docs;
