//! Core library of the Juyu compiler front end: tokens, lexer, syntax tree and parser.

pub mod commands;
pub mod syntax;
pub mod toolchain;

pub use syntax::ast::SourceFile;
pub use syntax::lexer::Lexer;
pub use syntax::parser::Parser;

use vstd::prelude::*;
use syntax::itemspec::parse_file_spec;
use syntax::parser::result_view;
use syntax::parsespec::start_spec;

verus! {

/// Parses a Juyu source code string into an abstract syntax tree: the syntax
/// tree, or the message of the first syntax error.
pub fn parse_source(source: &str) -> (r: Result<SourceFile, String>)
    requires
        source@.len() < usize::MAX,
    ensures
        result_view(r) == parse_file_spec(start_spec(source@, 0)).0,
{
    let lexer = Lexer::new(source);
    let mut parser = Parser::new(lexer);
    parser.parse_file()
}

} // verus!
