//! The grammar rule table for the hydrogen language: each grammar node kind
//! maps to the pattern that defines it. Unwired kinds map to an empty
//! pattern, and a rule with no matchable alternative simply never succeeds.

use vstd::prelude::*;

use crate::ast::{nodes_view, AstNode, AstNodeView, Expression, ExpressionView};
use crate::hydrogen::TokenSpecification;
use crate::pattern::Pattern;

verus! {

/// The grammar node kinds of the hydrogen language.
#[derive(Debug, Clone, Copy, PartialEq, Eq, Structural)]
pub enum Node {
    Statement,
    Expression,
    Declaration,
    Block,
    BinaryExpression,
    Literal,
    NumberExpr,
    IdentifierExpr,
}

/// The declaration rule: `let`, a name, `=`, an expression, `;`.
pub open spec fn declaration_rule() -> Seq<Pattern> {
    seq![
        Pattern::Token(TokenSpecification::Let),
        Pattern::Token(TokenSpecification::Identifier),
        Pattern::Token(TokenSpecification::Equals),
        Pattern::Node(Node::Expression),
        Pattern::Token(TokenSpecification::SemiColon),
    ]
}

/// The number expression rule: a single number literal token.
pub open spec fn number_expr_rule() -> Seq<Pattern> {
    seq![Pattern::Token(TokenSpecification::NumberLiteral)]
}

/// The identifier expression rule: a single identifier token.
pub open spec fn identifier_expr_rule() -> Seq<Pattern> {
    seq![Pattern::Token(TokenSpecification::Identifier)]
}

/// The alternatives of the expression rule, tried in order.
pub open spec fn expression_alternatives() -> Seq<Pattern> {
    seq![Pattern::Node(Node::NumberExpr), Pattern::Node(Node::IdentifierExpr)]
}

impl Node {
    /// The grammar rule table: the pattern bound to this grammar kind. Kinds
    /// whose rules are not wired up map to the empty pattern.
    pub fn fetch_pattern(self) -> (r: Vec<Pattern>)
        ensures
            self == Node::Declaration ==> r@ == declaration_rule(),
            self == Node::NumberExpr ==> r@ == number_expr_rule(),
            self == Node::IdentifierExpr ==> r@ == identifier_expr_rule(),
            self == Node::Expression ==> r@.len() == 1 && (r@[0] matches Pattern::OneOf(alts)
                && alts@ == expression_alternatives()),
            self == Node::Statement || self == Node::Block || self == Node::BinaryExpression
                || self == Node::Literal ==> r@.len() == 0,
    {
        match self {
            Node::Declaration => {
                let r = vec![
                    Pattern::Token(TokenSpecification::Let),
                    Pattern::Token(TokenSpecification::Identifier),
                    Pattern::Token(TokenSpecification::Equals),
                    Pattern::Node(Node::Expression),
                    Pattern::Token(TokenSpecification::SemiColon),
                ];
                proof {
                    assert(r@ =~= declaration_rule());
                }
                r
            },
            Node::Expression => {
                let alts = vec![
                    Pattern::Node(Node::NumberExpr),
                    Pattern::Node(Node::IdentifierExpr),
                ];
                proof {
                    assert(alts@ =~= expression_alternatives());
                }
                vec![Pattern::OneOf(alts)]
            },
            Node::NumberExpr => {
                let r = vec![Pattern::Token(TokenSpecification::NumberLiteral)];
                proof {
                    assert(r@ =~= number_expr_rule());
                }
                r
            },
            Node::IdentifierExpr => {
                let r = vec![Pattern::Token(TokenSpecification::Identifier)];
                proof {
                    assert(r@ =~= identifier_expr_rule());
                }
                r
            },
            _ => Vec::new(),
        }
    }
}

/// What wrapping a rule's fragment in the AST variant bound to a grammar
/// kind yields. Every wired kind wraps a single-element fragment; statement
/// kinds are assembled by the statement layer instead, so they wrap nothing.
pub open spec fn spec_assemble(kind: Node, parts: Seq<AstNodeView>) -> Option<AstNodeView> {
    if parts.len() != 1 {
        None
    } else {
        match kind {
            Node::NumberExpr => match parts[0] {
                AstNodeView::Token(s) => Some(AstNodeView::Expression(ExpressionView::Number(s))),
                _ => None,
            },
            Node::IdentifierExpr => match parts[0] {
                AstNodeView::Token(s) => Some(
                    AstNodeView::Expression(ExpressionView::Identifier { name: s }),
                ),
                _ => None,
            },
            Node::Expression => match parts[0] {
                AstNodeView::Expression(e) => Some(AstNodeView::Expression(e)),
                _ => None,
            },
            _ => None,
        }
    }
}

/// Wraps an interpreted rule's fragment in the AST node variant bound to the
/// grammar kind.
pub fn assemble(kind: Node, parts: Vec<AstNode>) -> (r: Option<AstNode>)
    ensures
        match r {
            Some(n) => spec_assemble(kind, nodes_view(parts@)) == Some(n@),
            None => spec_assemble(kind, nodes_view(parts@)) is None,
        },
{
    if parts.len() != 1 {
        return None;
    }
    let mut rest = parts;
    let part = match rest.pop() {
        Some(p) => p,
        None => {
            return None;
        },
    };
    proof {
        assert(nodes_view(parts@)[0] == parts@[0]@);
    }
    match kind {
        Node::NumberExpr => match part {
            AstNode::Token(s) => Some(AstNode::Expression(Expression::Number(s))),
            _ => None,
        },
        Node::IdentifierExpr => match part {
            AstNode::Token(s) => Some(AstNode::Expression(Expression::Identifier { name: s })),
            _ => None,
        },
        Node::Expression => match part {
            AstNode::Expression(e) => Some(AstNode::Expression(e)),
            _ => None,
        },
        _ => None,
    }
}

} // verus!
