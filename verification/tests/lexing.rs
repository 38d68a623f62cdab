use hydrogen::hydrogen::TokenSpecification;
use hydrogen::lexer::tokenize;
use hydrogen::token::LexError;
use hydrogen::token::Token;

fn lex_all(input: &str) -> Vec<Result<Token<TokenSpecification>, LexError>> {
    let mut tokenizer = tokenize(input, TokenSpecification::registry());
    let mut out = Vec::new();
    while let Some(outcome) = tokenizer.next() {
        out.push(outcome);
    }
    out
}

fn lex_ok(input: &str) -> Vec<Token<TokenSpecification>> {
    lex_all(input)
        .into_iter()
        .map(|outcome| match outcome {
            Ok(t) => t,
            Err(e) => panic!("unexpected lexical error at offset {}", e.offset),
        })
        .collect()
}

#[test]
fn exact_literal_claims_whole_literal() {
    let tokens = lex_ok(";");
    assert_eq!(tokens.len(), 1);
    assert_eq!(tokens[0].kind, TokenSpecification::SemiColon);
    assert_eq!(tokens[0].value, ";");
    assert_eq!(tokens[0].start, 0);
    assert_eq!(tokens[0].length, 1);
}

#[test]
fn exact_literals_consume_exactly_their_length() {
    let tokens = lex_ok("()[]{}<>=;");
    let kinds: Vec<TokenSpecification> = tokens.iter().map(|t| t.kind).collect();
    assert_eq!(
        kinds,
        vec![
            TokenSpecification::ParenthesisOpen,
            TokenSpecification::ParenthesisClose,
            TokenSpecification::BracketsOpen,
            TokenSpecification::BracketsClose,
            TokenSpecification::BracesClose,
            TokenSpecification::BracesOpen,
            TokenSpecification::LessThan,
            TokenSpecification::GreaterThan,
            TokenSpecification::Equals,
            TokenSpecification::SemiColon,
        ]
    );
    for (i, t) in tokens.iter().enumerate() {
        assert_eq!(t.length, 1);
        assert_eq!(t.start, i);
    }
}

#[test]
fn keyword_with_boundary_claims_as_keyword() {
    let tokens = lex_ok("if(");
    assert_eq!(tokens.len(), 2);
    assert_eq!(tokens[0].kind, TokenSpecification::If);
    assert_eq!(tokens[0].value, "if");
    assert_eq!(tokens[1].kind, TokenSpecification::ParenthesisOpen);
}

#[test]
fn keyword_prefix_of_identifier_claims_as_identifier() {
    let tokens = lex_ok("ifx");
    assert_eq!(tokens.len(), 1);
    assert_eq!(tokens[0].kind, TokenSpecification::Identifier);
    assert_eq!(tokens[0].value, "ifx");
}

#[test]
fn keyword_at_end_of_input_claims_as_keyword() {
    let tokens = lex_ok("exit");
    assert_eq!(tokens.len(), 1);
    assert_eq!(tokens[0].kind, TokenSpecification::Exit);
    assert_eq!(tokens[0].value, "exit");
}

#[test]
fn greedy_span_stops_exactly_before_mismatch() {
    let tokens = lex_ok("123abc");
    assert_eq!(tokens.len(), 2);
    assert_eq!(tokens[0].kind, TokenSpecification::NumberLiteral);
    assert_eq!(tokens[0].value, "123");
    assert_eq!(tokens[1].kind, TokenSpecification::Identifier);
    assert_eq!(tokens[1].value, "abc");
}

#[test]
fn string_literal_keeps_escaped_quote() {
    let tokens = lex_ok("\"a\\\"b\"");
    assert_eq!(tokens.len(), 1);
    assert_eq!(tokens[0].kind, TokenSpecification::StringLiteral);
    assert_eq!(tokens[0].value, "\"a\\\"b\"");
    assert_eq!(tokens[0].length, 6);
}

#[test]
fn let_statement_token_sequence() {
    let tokens: Vec<Token<TokenSpecification>> = lex_ok("let x = 69;")
        .into_iter()
        .filter(|t| t.kind != TokenSpecification::WhiteSpace)
        .collect();
    let kinds: Vec<TokenSpecification> = tokens.iter().map(|t| t.kind).collect();
    assert_eq!(
        kinds,
        vec![
            TokenSpecification::Let,
            TokenSpecification::Identifier,
            TokenSpecification::Equals,
            TokenSpecification::NumberLiteral,
            TokenSpecification::SemiColon,
        ]
    );
    assert_eq!(tokens[1].value, "x");
    assert_eq!(tokens[3].value, "69");
}

#[test]
fn unrecognized_character_yields_single_terminal_error() {
    let outcomes = lex_all("let @ x");
    assert_eq!(outcomes.len(), 3);
    assert!(outcomes[0].as_ref().is_ok_and(|t| t.kind == TokenSpecification::Let));
    assert!(outcomes[1].as_ref().is_ok_and(|t| t.kind == TokenSpecification::WhiteSpace));
    match &outcomes[2] {
        Err(e) => assert_eq!(*e, LexError { offset: 4 }),
        Ok(t) => panic!("expected an error, got a {:?}", t),
    }
    let mut tokenizer = tokenize("@ x", TokenSpecification::registry());
    match tokenizer.next() {
        Some(Err(e)) => assert_eq!(e.offset, 0),
        other => panic!("expected an error outcome, got {:?}", other),
    }
    assert!(tokenizer.next().is_none());
    assert!(tokenizer.next().is_none());
}

#[test]
fn unterminated_string_is_a_lexical_error() {
    let outcomes = lex_all("\"abc");
    assert_eq!(outcomes.len(), 1);
    match &outcomes[0] {
        Err(e) => assert_eq!(*e, LexError { offset: 0 }),
        Ok(t) => panic!("expected an error, got a {:?}", t),
    }
}

#[test]
fn whitespace_is_one_greedy_token() {
    let tokens = lex_ok("  \t\n;");
    assert_eq!(tokens.len(), 2);
    assert_eq!(tokens[0].kind, TokenSpecification::WhiteSpace);
    assert_eq!(tokens[0].length, 4);
    assert_eq!(tokens[1].kind, TokenSpecification::SemiColon);
    assert_eq!(tokens[1].start, 4);
}

#[test]
fn empty_input_yields_nothing() {
    let outcomes = lex_all("");
    assert_eq!(outcomes.len(), 0);
}
