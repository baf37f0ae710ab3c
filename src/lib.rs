// The front end of a small imperative language: a lexer, a scoped symbol table and a
// recursive-descent parser with precedence climbing, reporting diagnostics fail-fast.
use vstd::prelude::*;

pub mod ast;
pub mod compiler;
pub mod diagnostic;
pub mod error;
pub mod lexer;
pub mod parser;
pub mod source;
pub mod symbols;
pub mod text;
pub mod tokens;

pub use compiler::Compiler;

verus! {

} // verus!
