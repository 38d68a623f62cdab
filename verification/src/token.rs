//! Tokens and the lexical error. A token carries its kind, the raw matched
//! text, and a raw offset; line and column stay at zero, as source-position
//! computation beyond the offset is outside this engine's scope.

use vstd::prelude::*;

verus! {

/// A classified piece of input: produced once by the tokenizer, never
/// mutated.
#[derive(Debug, Clone)]
pub struct Token<Kind> {
    pub kind: Kind,
    pub start: usize,
    pub length: usize,
    pub line: usize,
    pub column: usize,
    pub value: String,
}

/// A lexical error: no registered token kind claims the character at
/// `offset`. It is terminal for the token sequence that reports it.
#[derive(Debug, Clone, Copy, PartialEq, Eq, Structural)]
pub struct LexError {
    pub offset: usize,
}

} // verus!
