use gosub_engine::css3::{CSS3Parser, CharIterator, TokenKind, Tokenizer};

fn parser_over(input: &str) -> CSS3Parser {
    let mut ci = CharIterator::new(input.chars().collect());
    CSS3Parser::from_input_stream(&mut ci)
}

#[test]
fn scanner_produces_structural_tokens() {
    let mut ci = CharIterator::new("calc( 1 + x ) { a ; b } [y]".chars().collect());
    let t = Tokenizer::new(&mut ci);
    let kinds: Vec<TokenKind> = t.tokens.iter().map(|tok| tok.kind).collect();
    assert_eq!(
        kinds,
        vec![
            TokenKind::Function,
            TokenKind::Ident,
            TokenKind::Delim,
            TokenKind::Ident,
            TokenKind::RParen,
            TokenKind::LCurly,
            TokenKind::Ident,
            TokenKind::Semicolon,
            TokenKind::Ident,
            TokenKind::RCurly,
            TokenKind::LBracket,
            TokenKind::Ident,
            TokenKind::RBracket,
        ]
    );
    assert_eq!(t.tokens[0].value, "calc");
    assert_eq!(ci.pos, ci.chars.len());
}

#[test]
fn current_and_next_token_look_ahead() {
    let p = parser_over("alpha beta");
    assert_eq!(p.current_token().kind(), TokenKind::Ident);
    assert_eq!(p.current_token().value().as_str(), "alpha");
    assert_eq!(p.next_token().value().as_str(), "beta");
}

#[test]
fn consume_token_advances() {
    let mut p = parser_over("alpha beta");
    let t = p.consume_token(TokenKind::Ident);
    assert_eq!(t.value().as_str(), "alpha");
    let t2 = p.consume_token(TokenKind::Any);
    assert_eq!(t2.value().as_str(), "beta");
    assert!(p.current_token().is_eof());
}

#[test]
fn consume_function_stops_past_paren_token() {
    // The function consumer swallows the function token and everything up
    // to and including the stopping token.
    let mut p = parser_over("url(a b) ( tail");
    p.consume_function();
    assert_eq!(p.current_token().value().as_str(), "tail");
}

#[test]
fn consume_function_runs_to_end_of_stream() {
    let mut p = parser_over("url(a b c");
    p.consume_function();
    assert!(p.current_token().is_eof());
}

#[test]
fn consume_simple_block_stops_before_same_kind() {
    let mut p = parser_over("{ a b } tail");
    p.consume_simple_block();
    assert!(p.current_token().is_eof());
    let mut q = parser_over("{ a } { b }");
    q.consume_simple_block();
    assert_eq!(q.current_token().kind(), TokenKind::LCurly);
}

#[test]
fn consume_component_value_leaves_stream_in_place() {
    let mut p = parser_over("alpha beta");
    p.consume_component_value();
    assert_eq!(p.current_token().value().as_str(), "alpha");
}
