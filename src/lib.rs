//! Detection of `unsafe` blocks that cover more code than they need.
//!
//! The host's syntax tree is modelled by the plain types of [`ast`]; the
//! safety of call targets is answered by [`oracle`]; [`classify`] decides
//! whether a user-written `unsafe` block is minimal; [`walk`] visits every
//! expression of a tree; [`laws`] states the properties that tie them together.

pub mod ast;
pub mod oracle;
pub mod classify;
pub mod walk;
pub mod laws;
