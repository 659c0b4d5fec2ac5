//! Lexical and syntactic analysis of Juyu source text.

pub mod chars;
pub mod scan;
pub mod number;
pub mod indent;
pub mod lexspec;
pub mod lexer;
pub mod ast;
pub mod diag;
pub mod astview;
pub mod astclone;
pub mod parsespec;
pub mod itemspec;
pub mod parser;
pub mod items;
pub mod laws;
pub mod token;
