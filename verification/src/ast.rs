//! The abstract syntax tree, its mathematical views, and the hydrogen
//! statement parser: a lookahead-dispatched statement layer over the
//! pattern combinator engine.

use vstd::prelude::*;

use crate::grammar::Node;
use crate::hydrogen::TokenSpecification;
use crate::pattern::{spec_seq, Pattern, PARSE_FUEL};
use crate::token::Token;

verus! {

/// An expression: a number literal or an identifier reference.
#[derive(Debug, Clone)]
pub enum Expression {
    Number(String),
    Identifier { name: String },
}

/// The model of an [`Expression`].
pub enum ExpressionView {
    Number(Seq<char>),
    Identifier { name: Seq<char> },
}

impl View for Expression {
    type V = ExpressionView;

    open spec fn view(&self) -> ExpressionView {
        match self {
            Expression::Number(s) => ExpressionView::Number(s@),
            Expression::Identifier { name } => ExpressionView::Identifier { name: name@ },
        }
    }
}

/// A statement: an exit, or a declaration binding a name to a value.
#[derive(Debug, Clone)]
pub enum Statement {
    Exit { value: Expression },
    Declaration { name: String, value: Expression },
}

/// The model of a [`Statement`].
pub enum StatementView {
    Exit { value: ExpressionView },
    Declaration { name: Seq<char>, value: ExpressionView },
}

impl View for Statement {
    type V = StatementView;

    open spec fn view(&self) -> StatementView {
        match self {
            Statement::Exit { value } => StatementView::Exit { value: value@ },
            Statement::Declaration { name, value } => StatementView::Declaration {
                name: name@,
                value: value@,
            },
        }
    }
}

/// A node of the syntax tree: the program root, an expression, or an
/// unresolved leaf carrying raw matched text up to its parent.
#[derive(Debug)]
pub enum AstNode {
    Program { statements: Vec<Statement> },
    Expression(Expression),
    Token(String),
}

/// The model of an [`AstNode`].
pub enum AstNodeView {
    Program { statements: Seq<StatementView> },
    Expression(ExpressionView),
    Token(Seq<char>),
}

impl View for AstNode {
    type V = AstNodeView;

    open spec fn view(&self) -> AstNodeView {
        match self {
            AstNode::Program { statements } => AstNodeView::Program {
                statements: statements@.map_values(|s: Statement| s@),
            },
            AstNode::Expression(e) => AstNodeView::Expression(e@),
            AstNode::Token(s) => AstNodeView::Token(s@),
        }
    }
}

/// The models of a fragment of nodes.
pub open spec fn nodes_view(ns: Seq<AstNode>) -> Seq<AstNodeView> {
    ns.map_values(|n: AstNode| n@)
}

/// What parsing a declaration yields: the declaration grammar rule
/// interpreted at `pos`, destructured into the bound name and value. The
/// fragment must have the rule's five elements with the name leaf second and
/// the value expression fourth.
pub open spec fn spec_declaration(tokens: Seq<Token<TokenSpecification>>, pos: int) -> Option<
    (StatementView, int),
> {
    match spec_seq(crate::grammar::declaration_rule(), tokens, pos, PARSE_FUEL as nat) {
        None => None,
        Some((parts, p2)) => if parts.len() == 5 && pos < p2 <= tokens.len() {
            match (parts[1], parts[3]) {
                (AstNodeView::Token(name), AstNodeView::Expression(value)) => Some(
                    (StatementView::Declaration { name, value }, p2),
                ),
                _ => None,
            }
        } else {
            None
        },
    }
}

/// What parsing a statement yields: dispatch on the leading token's kind
/// alone; only a `Let`-led declaration is wired up.
pub open spec fn spec_statement(tokens: Seq<Token<TokenSpecification>>, pos: int) -> Option<
    (StatementView, int),
> {
    if 0 <= pos < tokens.len() && tokens[pos].kind == TokenSpecification::Let {
        spec_declaration(tokens, pos)
    } else {
        None
    }
}

/// What parsing a whole program yields: statements parsed one after another
/// until the tokens are exhausted; a statement failure with tokens remaining
/// fails the whole program.
pub open spec fn spec_program(tokens: Seq<Token<TokenSpecification>>, pos: int) -> Option<
    Seq<StatementView>,
>
    decreases tokens.len() - pos,
{
    if pos >= tokens.len() {
        Some(Seq::empty())
    } else {
        match spec_statement(tokens, pos) {
            None => None,
            Some((st, p2)) => if pos < p2 <= tokens.len() {
                match spec_program(tokens, p2) {
                    None => None,
                    Some(rest) => Some(seq![st] + rest),
                }
            } else {
                None
            },
        }
    }
}

/// Parses a declaration at `pos`: interprets the declaration grammar rule
/// and binds the matched name and value.
pub fn declaration(tokens: &Vec<Token<TokenSpecification>>, pos: usize) -> (r: Option<
    (Statement, usize),
>)
    requires
        pos <= tokens@.len(),
    ensures
        match r {
            Some((st, p2)) => spec_declaration(tokens@, pos as int) == Some((st@, p2 as int))
                && pos < p2 <= tokens@.len(),
            None => spec_declaration(tokens@, pos as int) is None,
        },
{
    let rule = Node::Declaration.fetch_pattern();
    let res = Pattern::is_match(tokens, pos, &rule, PARSE_FUEL);
    match res {
        None => None,
        Some((parts, p2)) => {
            if parts.len() != 5 || p2 <= pos {
                return None;
            }
            let ghost parts0 = parts@;
            let mut parts = parts;
            let value_node = parts.remove(3);
            let name_node = parts.remove(1);
            proof {
                assert(value_node == parts0[3]);
                assert(name_node == parts0[1]);
                assert(nodes_view(parts0)[1] == parts0[1]@);
                assert(nodes_view(parts0)[3] == parts0[3]@);
            }
            match (name_node, value_node) {
                (AstNode::Token(name), AstNode::Expression(value)) => Some(
                    (Statement::Declaration { name, value }, p2),
                ),
                _ => None,
            }
        },
    }
}

/// Parses one statement at `pos`, dispatching on the next token's kind only:
/// a `Let` token selects the declaration rule, anything else is a parse
/// failure.
pub fn statement(tokens: &Vec<Token<TokenSpecification>>, pos: usize) -> (r: Option<
    (Statement, usize),
>)
    requires
        pos <= tokens@.len(),
    ensures
        match r {
            Some((st, p2)) => spec_statement(tokens@, pos as int) == Some((st@, p2 as int)) && pos
                < p2 <= tokens@.len(),
            None => spec_statement(tokens@, pos as int) is None,
        },
{
    if pos < tokens.len() {
        if tokens[pos].kind == TokenSpecification::Let {
            return declaration(tokens, pos);
        }
    }
    None
}

/// Parses a whole program: statements until the tokens run out.
#[verifier::loop_isolation(false)]
pub fn program(tokens: &Vec<Token<TokenSpecification>>) -> (r: Option<AstNode>)
    ensures
        match spec_program(tokens@, 0) {
            Some(sts) => r matches Some(n) && n@ == (AstNodeView::Program { statements: sts }),
            None => r is None,
        },
{
    let mut statements: Vec<Statement> = Vec::new();
    let mut pos: usize = 0;
    while pos < tokens.len()
        invariant
            pos <= tokens@.len(),
            match spec_program(tokens@, pos as int) {
                Some(rest) => spec_program(tokens@, 0) == Some(
                    statements@.map_values(|s: Statement| s@) + rest,
                ),
                None => spec_program(tokens@, 0) is None,
            },
        decreases tokens@.len() - pos,
    {
        let ghost acc_before = statements@.map_values(|s: Statement| s@);
        match statement(tokens, pos) {
            Some((st, p2)) => {
                statements.push(st);
                pos = p2;
                proof {
                    assert(statements@.map_values(|s: Statement| s@) =~= acc_before + seq![st@]);
                    if let Some(rest) = spec_program(tokens@, pos as int) {
                        assert(acc_before + (seq![st@] + rest) =~= (acc_before + seq![st@]) + rest);
                    }
                }
            },
            None => {
                return None;
            },
        }
    }
    proof {
        assert(statements@.map_values(|s: Statement| s@) + Seq::<StatementView>::empty()
            =~= statements@.map_values(|s: Statement| s@));
    }
    Some(AstNode::Program { statements })
}

impl AstNode {
    /// The parsing entry point: given a token sequence, conventionally
    /// pre-filtered of whitespace tokens, returns the program's syntax tree,
    /// or nothing on a parse failure.
    pub fn parse(tokens: &Vec<Token<TokenSpecification>>) -> (r: Option<AstNode>)
        ensures
            match spec_program(tokens@, 0) {
                Some(sts) => r matches Some(n) && n@ == (AstNodeView::Program { statements: sts }),
                None => r is None,
            },
    {
        program(tokens)
    }
}

} // verus!
