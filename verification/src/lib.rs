//! A tokenizing-and-parsing engine: a lexer that turns a character sequence
//! into classified tokens via pluggable claim strategies, and a pattern
//! combinator interpreter that turns a token sequence into a syntax tree.

pub mod ast;
pub mod claims;
pub mod cursor;
pub mod foreign;
pub mod grammar;
pub mod hydrogen;
pub mod lexer;
pub mod pattern;
pub mod token;
