use hydrogen::ast::{statement, AstNode, Expression, Statement};
use hydrogen::grammar::Node;
use hydrogen::hydrogen::TokenSpecification;
use hydrogen::lexer::tokenize;
use hydrogen::pattern::{Pattern, PARSE_FUEL};
use hydrogen::token::Token;

fn lex_filtered(input: &str) -> Vec<Token<TokenSpecification>> {
    let mut tokenizer = tokenize(input, TokenSpecification::registry());
    let mut out = Vec::new();
    while let Some(outcome) = tokenizer.next() {
        match outcome {
            Ok(t) => {
                if t.kind != TokenSpecification::WhiteSpace {
                    out.push(t);
                }
            }
            Err(e) => panic!("unexpected lexical error at offset {}", e.offset),
        }
    }
    out
}

#[test]
fn declaration_parses_to_named_number() {
    let tokens = lex_filtered("let x = 69;");
    let ast = AstNode::parse(&tokens).expect("the declaration should parse");
    match ast {
        AstNode::Program { statements } => {
            assert_eq!(statements.len(), 1);
            match &statements[0] {
                Statement::Declaration { name, value } => {
                    assert_eq!(name.as_str(), "x");
                    match value {
                        Expression::Number(text) => assert_eq!(text.as_str(), "69"),
                        other => panic!("expected a number value, got {:?}", other),
                    }
                }
                other => panic!("expected a declaration, got {:?}", other),
            }
        }
        other => panic!("expected a program root, got {:?}", other),
    }
}

#[test]
fn declaration_without_semicolon_fails() {
    let mut tokens = lex_filtered("let x = 69;");
    tokens.pop();
    assert!(AstNode::parse(&tokens).is_none());
}

#[test]
fn declaration_with_identifier_value() {
    let tokens = lex_filtered("let y = x;");
    let ast = AstNode::parse(&tokens).expect("the declaration should parse");
    match ast {
        AstNode::Program { statements } => match &statements[0] {
            Statement::Declaration { name, value } => {
                assert_eq!(name.as_str(), "y");
                match value {
                    Expression::Identifier { name } => assert_eq!(name.as_str(), "x"),
                    other => panic!("expected an identifier value, got {:?}", other),
                }
            }
            other => panic!("expected a declaration, got {:?}", other),
        },
        other => panic!("expected a program root, got {:?}", other),
    }
}

#[test]
fn two_declarations_parse_in_order() {
    let tokens = lex_filtered("let a = 1; let b = a;");
    let ast = AstNode::parse(&tokens).expect("both declarations should parse");
    match ast {
        AstNode::Program { statements } => {
            assert_eq!(statements.len(), 2);
            assert!(matches!(&statements[0], Statement::Declaration { .. }));
            assert!(matches!(&statements[1], Statement::Declaration { .. }));
        }
        other => panic!("expected a program root, got {:?}", other),
    }
}

#[test]
fn empty_token_sequence_parses_to_empty_program() {
    let tokens: Vec<Token<TokenSpecification>> = Vec::new();
    let ast = AstNode::parse(&tokens).expect("an empty program should parse");
    match ast {
        AstNode::Program { statements } => assert_eq!(statements.len(), 0),
        other => panic!("expected a program root, got {:?}", other),
    }
}

#[test]
fn statement_with_other_leading_kind_fails() {
    let tokens = lex_filtered("exit;");
    assert!(statement(&tokens, 0).is_none());
    assert!(AstNode::parse(&tokens).is_none());
}

#[test]
fn list_combinator_succeeds_on_zero_matches() {
    let empty: Vec<Token<TokenSpecification>> = Vec::new();
    let list = Pattern::List(Box::new(Pattern::Token(TokenSpecification::SemiColon)));
    let (nodes, consumed_to) = list
        .consume(&empty, 0, PARSE_FUEL)
        .expect("a repetition must not fail on an empty sequence");
    assert_eq!(nodes.len(), 0);
    assert_eq!(consumed_to, 0);

    let tokens = lex_filtered("let");
    let (nodes, consumed_to) = list
        .consume(&tokens, 0, PARSE_FUEL)
        .expect("a repetition must not fail on a non-matching sequence");
    assert_eq!(nodes.len(), 0);
    assert_eq!(consumed_to, 0);
}

#[test]
fn option_combinator_succeeds_on_zero_matches() {
    let tokens = lex_filtered("let");
    let optional = Pattern::Optional(Box::new(Pattern::Token(TokenSpecification::SemiColon)));
    let (nodes, consumed_to) = optional
        .consume(&tokens, 0, PARSE_FUEL)
        .expect("an option must not fail on a non-matching sequence");
    assert_eq!(nodes.len(), 0);
    assert_eq!(consumed_to, 0);
}

#[test]
fn list_combinator_collects_repeated_matches() {
    let tokens = lex_filtered(";;;");
    let list = Pattern::List(Box::new(Pattern::Token(TokenSpecification::SemiColon)));
    let (nodes, consumed_to) = list.consume(&tokens, 0, PARSE_FUEL).expect("repetition");
    assert_eq!(nodes.len(), 3);
    assert_eq!(consumed_to, 3);
}

#[test]
fn oneof_takes_first_matching_alternative() {
    let tokens = lex_filtered("69");
    let expr = Pattern::Node(Node::Expression);
    let (node, consumed_to) = Pattern::node(Node::Expression, &tokens, 0, PARSE_FUEL)
        .expect("a number is an expression");
    assert_eq!(consumed_to, 1);
    assert!(matches!(node, AstNode::Expression(Expression::Number(_))));
    let (nodes, _) = expr.consume(&tokens, 0, PARSE_FUEL).expect("consume via pattern");
    assert_eq!(nodes.len(), 1);
}

#[test]
fn unwired_grammar_kind_never_succeeds() {
    let tokens = lex_filtered("let x = 69;");
    assert!(Pattern::node(Node::Block, &tokens, 0, PARSE_FUEL).is_none());
    assert!(Pattern::node(Node::BinaryExpression, &tokens, 0, PARSE_FUEL).is_none());
}

#[test]
fn sequence_requires_every_element() {
    let tokens = lex_filtered("let x");
    let rule = Node::Declaration.fetch_pattern();
    assert!(Pattern::is_match(&tokens, 0, &rule, PARSE_FUEL).is_none());
    let tokens = lex_filtered("let x = 69;");
    let (nodes, consumed_to) =
        Pattern::is_match(&tokens, 0, &rule, PARSE_FUEL).expect("the full rule matches");
    assert_eq!(nodes.len(), 5);
    assert_eq!(consumed_to, 5);
}
