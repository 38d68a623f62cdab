//! The hydrogen language binding for the lexer: its closed set of token
//! kinds, each bound to one claim strategy, and the ordered registry that
//! encodes claim priority (exact symbols first, then keywords, then the
//! variable-length literal kinds).

use vstd::prelude::*;

use crate::claims::{exact_claim, keyword_claim, lemma_span_extend_props, lemma_string_scan_bounds,
    match_exact, match_keyword, match_pattern, match_string, span_claim, string_claim};
use crate::cursor::LookaheadCursor;
use crate::lexer::Tokenizable;

verus! {

/// The hydrogen token kinds. `Unknown` is a terminal fallback that never
/// claims anything.
#[derive(Default, Debug, Clone, Copy, PartialEq, Eq, Structural)]
pub enum TokenSpecification {
    SemiColon,
    Equals,
    GreaterThan,
    LessThan,
    ParenthesisOpen,
    ParenthesisClose,
    BracesOpen,
    BracesClose,
    BracketsOpen,
    BracketsClose,
    If,
    Else,
    Not,
    Let,
    Exit,
    Identifier,
    NumberLiteral,
    StringLiteral,
    WhiteSpace,
    #[default]
    Unknown,
}

/// The registry order: symbols, then keywords, then identifiers, numbers,
/// strings and whitespace. Keywords stand before the identifier kind so that
/// `let` is never read as an identifier prefix.
pub open spec fn registry_order() -> Seq<TokenSpecification> {
    seq![
        TokenSpecification::SemiColon,
        TokenSpecification::Equals,
        TokenSpecification::GreaterThan,
        TokenSpecification::LessThan,
        TokenSpecification::ParenthesisOpen,
        TokenSpecification::ParenthesisClose,
        TokenSpecification::BracesOpen,
        TokenSpecification::BracesClose,
        TokenSpecification::BracketsOpen,
        TokenSpecification::BracketsClose,
        TokenSpecification::If,
        TokenSpecification::Else,
        TokenSpecification::Not,
        TokenSpecification::Let,
        TokenSpecification::Exit,
        TokenSpecification::Identifier,
        TokenSpecification::NumberLiteral,
        TokenSpecification::StringLiteral,
        TokenSpecification::WhiteSpace,
        TokenSpecification::Unknown,
    ]
}

impl TokenSpecification {
    /// The ordered token kind registry, as a vector for the tokenizer.
    pub fn registry() -> (r: Vec<TokenSpecification>)
        ensures
            r@ == registry_order(),
    {
        let r = vec![
            TokenSpecification::SemiColon,
            TokenSpecification::Equals,
            TokenSpecification::GreaterThan,
            TokenSpecification::LessThan,
            TokenSpecification::ParenthesisOpen,
            TokenSpecification::ParenthesisClose,
            TokenSpecification::BracesOpen,
            TokenSpecification::BracesClose,
            TokenSpecification::BracketsOpen,
            TokenSpecification::BracketsClose,
            TokenSpecification::If,
            TokenSpecification::Else,
            TokenSpecification::Not,
            TokenSpecification::Let,
            TokenSpecification::Exit,
            TokenSpecification::Identifier,
            TokenSpecification::NumberLiteral,
            TokenSpecification::StringLiteral,
            TokenSpecification::WhiteSpace,
            TokenSpecification::Unknown,
        ];
        proof {
            assert(r@ =~= registry_order());
        }
        r
    }
}

impl Tokenizable for TokenSpecification {
    open spec fn spec_claim(&self, chars: Seq<char>, pos: int) -> Option<Seq<char>> {
        match self {
            TokenSpecification::SemiColon => exact_claim(";"@, chars, pos),
            TokenSpecification::Equals => exact_claim("="@, chars, pos),
            TokenSpecification::GreaterThan => exact_claim(">"@, chars, pos),
            TokenSpecification::LessThan => exact_claim("<"@, chars, pos),
            TokenSpecification::ParenthesisOpen => exact_claim("("@, chars, pos),
            TokenSpecification::ParenthesisClose => exact_claim(")"@, chars, pos),
            TokenSpecification::BracesOpen => exact_claim("}"@, chars, pos),
            TokenSpecification::BracesClose => exact_claim("{"@, chars, pos),
            TokenSpecification::BracketsOpen => exact_claim("["@, chars, pos),
            TokenSpecification::BracketsClose => exact_claim("]"@, chars, pos),
            TokenSpecification::If => keyword_claim("if"@, chars, pos),
            TokenSpecification::Else => keyword_claim("else"@, chars, pos),
            TokenSpecification::Not => keyword_claim("not"@, chars, pos),
            TokenSpecification::Let => keyword_claim("let"@, chars, pos),
            TokenSpecification::Exit => keyword_claim("exit"@, chars, pos),
            TokenSpecification::Identifier => span_claim("[_a-zA-Z][_a-zA-Z\\d]*"@, chars, pos),
            TokenSpecification::NumberLiteral => span_claim("-?[\\d_.,]+"@, chars, pos),
            TokenSpecification::StringLiteral => string_claim(chars, pos),
            TokenSpecification::WhiteSpace => span_claim("\\s+"@, chars, pos),
            TokenSpecification::Unknown => None,
        }
    }

    proof fn claim_properties(&self, chars: Seq<char>, pos: int) {
        match self {
            TokenSpecification::SemiColon => reveal_strlit(";"),
            TokenSpecification::Equals => reveal_strlit("="),
            TokenSpecification::GreaterThan => reveal_strlit(">"),
            TokenSpecification::LessThan => reveal_strlit("<"),
            TokenSpecification::ParenthesisOpen => reveal_strlit("("),
            TokenSpecification::ParenthesisClose => reveal_strlit(")"),
            TokenSpecification::BracesOpen => reveal_strlit("}"),
            TokenSpecification::BracesClose => reveal_strlit("{"),
            TokenSpecification::BracketsOpen => reveal_strlit("["),
            TokenSpecification::BracketsClose => reveal_strlit("]"),
            TokenSpecification::If => reveal_strlit("if"),
            TokenSpecification::Else => reveal_strlit("else"),
            TokenSpecification::Not => reveal_strlit("not"),
            TokenSpecification::Let => reveal_strlit("let"),
            TokenSpecification::Exit => reveal_strlit("exit"),
            TokenSpecification::Identifier => lemma_span_extend_props(
                "[_a-zA-Z][_a-zA-Z\\d]*"@,
                chars,
                pos,
                0,
            ),
            TokenSpecification::NumberLiteral => lemma_span_extend_props(
                "-?[\\d_.,]+"@,
                chars,
                pos,
                0,
            ),
            TokenSpecification::StringLiteral => lemma_string_scan_bounds(chars, pos + 1, false),
            TokenSpecification::WhiteSpace => lemma_span_extend_props("\\s+"@, chars, pos, 0),
            TokenSpecification::Unknown => (),
        }
    }

    fn claim(&self, buffer: &mut LookaheadCursor) -> (r: Option<String>) {
        match self {
            TokenSpecification::SemiColon => match_exact(";", buffer),
            TokenSpecification::Equals => match_exact("=", buffer),
            TokenSpecification::GreaterThan => match_exact(">", buffer),
            TokenSpecification::LessThan => match_exact("<", buffer),
            TokenSpecification::ParenthesisOpen => match_exact("(", buffer),
            TokenSpecification::ParenthesisClose => match_exact(")", buffer),
            TokenSpecification::BracesOpen => match_exact("}", buffer),
            TokenSpecification::BracesClose => match_exact("{", buffer),
            TokenSpecification::BracketsOpen => match_exact("[", buffer),
            TokenSpecification::BracketsClose => match_exact("]", buffer),
            TokenSpecification::If => match_keyword("if", buffer),
            TokenSpecification::Else => match_keyword("else", buffer),
            TokenSpecification::Not => match_keyword("not", buffer),
            TokenSpecification::Let => match_keyword("let", buffer),
            TokenSpecification::Exit => match_keyword("exit", buffer),
            TokenSpecification::Identifier => match_pattern("[_a-zA-Z][_a-zA-Z\\d]*", buffer),
            TokenSpecification::NumberLiteral => match_pattern("-?[\\d_.,]+", buffer),
            TokenSpecification::StringLiteral => match_string(buffer),
            TokenSpecification::WhiteSpace => match_pattern("\\s+", buffer),
            TokenSpecification::Unknown => None,
        }
    }
}

} // verus!
