//! Renders expression trees of a restricted scripting expression language
//! into their canonical textual form.
//!
//! The tree model lives in [`ast`]; the recursive renderer in [`translator`].

pub mod ast;
pub mod numerals;
pub mod translator;
