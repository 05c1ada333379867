use std::str::FromStr;

use mitzvah::ext::ident::MitzvahIdentExt;
use mitzvah::ext::punct::MitzvahPunctExt;
use mitzvah::parser::{MitzvahParser, ParseError};
use mitzvah::token::{Token, TokenIterator};
use proc_macro2::{Delimiter, Group, Ident, Literal, Punct, Spacing, Span, TokenStream, TokenTree};

fn cursor(source: &str) -> TokenIterator {
    TokenIterator::new(TokenStream::from_str(source).unwrap())
}

fn text(node: Option<TokenTree>) -> Option<String> {
    node.map(|node| node.to_string())
}

fn rest(cursor: &TokenIterator) -> Vec<String> {
    let mut fork = cursor.fork();
    let mut nodes = vec![];
    while let Some(node) = fork.next() {
        nodes.push(node.to_string());
    }
    nodes
}

#[test]
fn new_cursor_holds_the_nodes_of_the_stream_in_order() {
    let c = cursor("a + 1 (b)");
    assert_eq!(rest(&c), vec!["a", "+", "1", "(b)"]);
}

#[test]
fn from_nodes_holds_the_given_nodes() {
    let nodes = vec![
        TokenTree::Ident(Ident::new("x", Span::call_site())),
        TokenTree::Literal(Literal::u8_unsuffixed(7)),
    ];
    let c = TokenIterator::from_nodes(nodes);
    assert_eq!(rest(&c), vec!["x", "7"]);
}

#[test]
fn next_takes_nodes_one_by_one_and_stays_at_the_end() {
    let mut c = cursor("a b");
    assert_eq!(text(c.next()), Some("a".to_string()));
    assert_eq!(text(c.next()), Some("b".to_string()));
    assert_eq!(text(c.next()), None);
    assert_eq!(text(c.next()), None);
    assert!(!c.has_next());
}

#[test]
fn peek_is_advance_free() {
    let mut c = cursor("a b");
    assert!(c.has_next());
    for _ in 0..5 {
        assert_eq!(text(c.peek()), Some("a".to_string()));
        assert!(c.has_next());
    }
    assert_eq!(rest(&c), vec!["a", "b"]);
    let mut empty = cursor("");
    for _ in 0..3 {
        assert_eq!(text(empty.peek()), None);
        assert!(!empty.has_next());
    }
}

#[test]
fn fork_is_independent_of_its_source() {
    let mut c = cursor("a b c d");
    c.next();
    let mut f = c.fork();
    assert_eq!(rest(&f), vec!["b", "c", "d"]);
    f.next();
    f.next();
    assert_eq!(text(c.peek()), Some("b".to_string()));
    assert_eq!(text(f.peek()), Some("d".to_string()));
    assert_eq!(text(c.next()), Some("b".to_string()));
    assert_eq!(text(c.next()), Some("c".to_string()));
    assert_eq!(text(c.next()), Some("d".to_string()));
    assert_eq!(text(c.next()), None);
    assert_eq!(text(f.peek()), Some("d".to_string()));
    assert_eq!(rest(&f), vec!["d"]);
}

#[test]
fn advance_steps_over_nodes_and_stops_at_the_end() {
    let mut c = cursor("a b c");
    c.advance(0);
    assert_eq!(rest(&c), vec!["a", "b", "c"]);
    c.advance(2);
    assert_eq!(rest(&c), vec!["c"]);
    c.advance(5);
    assert!(rest(&c).is_empty());
    c.advance(usize::MAX);
    assert!(!c.has_next());
}

#[test]
fn leaf_round_trip_on_match() {
    let mut c = cursor("name + 12 [x] end");
    let ident = Ident::parse(&mut c).unwrap();
    assert_eq!(ident.ident(), "name");
    assert_eq!(rest(&c), vec!["+", "12", "[x]", "end"]);
    let punct = Punct::parse(&mut c).unwrap();
    assert_eq!(punct.ch(), '+');
    assert_eq!(punct.spacing(), Spacing::Alone);
    assert_eq!(rest(&c), vec!["12", "[x]", "end"]);
    let literal = Literal::parse(&mut c).unwrap();
    assert_eq!(literal.to_string(), "12");
    assert_eq!(rest(&c), vec!["[x]", "end"]);
    let group = Group::parse(&mut c).unwrap();
    assert_eq!(group.delimiter(), Delimiter::Bracket);
    assert_eq!(group.stream().to_string(), "x");
    assert_eq!(rest(&c), vec!["end"]);
    let any = TokenTree::parse(&mut c).unwrap();
    assert_eq!(any.to_string(), "end");
    assert!(!c.has_next());
}

#[test]
fn wildcard_takes_a_node_of_any_kind() {
    let mut c = cursor("a + 1 (b)");
    assert!(matches!(TokenTree::parse(&mut c), Ok(TokenTree::Ident(_))));
    assert!(matches!(TokenTree::parse(&mut c), Ok(TokenTree::Punct(_))));
    assert!(matches!(TokenTree::parse(&mut c), Ok(TokenTree::Literal(_))));
    assert!(matches!(TokenTree::parse(&mut c), Ok(TokenTree::Group(_))));
    assert!(matches!(
        TokenTree::parse(&mut c),
        Err(ParseError::EndOfStream)
    ));
}

fn expected(error: ParseError) -> &'static str {
    match error {
        ParseError::UnexpectedToken { expected_token, .. } => expected_token,
        ParseError::EndOfStream => panic!("the cursor was not empty"),
        ParseError::Unknown => panic!("no leaf rule answers Unknown"),
    }
}

#[test]
fn leaf_rejection_on_mismatch() {
    let mut c = cursor("+ x");
    assert_eq!(expected(Ident::parse(&mut c).unwrap_err()), "Ident");
    assert_eq!(expected(Literal::parse(&mut c).unwrap_err()), "Literal");
    assert_eq!(expected(Group::parse(&mut c).unwrap_err()), "Group");
    assert_eq!(rest(&c), vec!["+", "x"]);
    assert_eq!(text(c.peek()), Some("+".to_string()));
    let mut c = cursor("x +");
    assert_eq!(expected(Punct::parse(&mut c).unwrap_err()), "Punct");
    assert_eq!(rest(&c), vec!["x", "+"]);
}

#[test]
fn literal_rule_rejects_an_ident() {
    let mut c = cursor("x");
    let error = c.parse::<Literal>().unwrap_err();
    assert!(matches!(
        error,
        ParseError::UnexpectedToken {
            expected_token: "Literal",
            ..
        }
    ));
    assert!(c.has_next());
    assert_eq!(text(c.peek()), Some("x".to_string()));
}

#[test]
fn end_of_stream_for_every_leaf_rule() {
    let mut c = cursor("");
    assert!(matches!(Ident::parse(&mut c), Err(ParseError::EndOfStream)));
    assert!(matches!(Punct::parse(&mut c), Err(ParseError::EndOfStream)));
    assert!(matches!(
        Literal::parse(&mut c),
        Err(ParseError::EndOfStream)
    ));
    assert!(matches!(Group::parse(&mut c), Err(ParseError::EndOfStream)));
    assert!(matches!(
        TokenTree::parse(&mut c),
        Err(ParseError::EndOfStream)
    ));
    assert!(!c.has_next());
}

#[test]
fn rule_peek_never_moves_the_cursor() {
    let mut c = cursor("a + 1");
    assert_eq!(Ident::peek(&mut c, 0).unwrap().ident(), "a");
    assert_eq!(Punct::peek(&mut c, 1).unwrap().ch(), '+');
    assert_eq!(Literal::peek(&mut c, 2).unwrap().to_string(), "1");
    assert_eq!(expected(Ident::peek(&mut c, 1).unwrap_err()), "Ident");
    assert!(matches!(
        Ident::peek(&mut c, 3),
        Err(ParseError::EndOfStream)
    ));
    assert!(matches!(
        TokenTree::peek(&mut c, usize::MAX),
        Err(ParseError::EndOfStream)
    ));
    assert_eq!(rest(&c), vec!["a", "+", "1"]);
    assert_eq!(text(c.next()), Some("a".to_string()));
}

#[test]
fn cursor_peek_with_a_rule_looks_ahead() {
    let mut c = cursor("a b");
    let second: Ident = MitzvahParser::peek(&mut c, 1).unwrap();
    assert_eq!(second.ident(), "b");
    let missing: Result<Ident, ParseError> = MitzvahParser::peek(&mut c, 2);
    assert!(matches!(missing, Err(ParseError::EndOfStream)));
    assert_eq!(rest(&c), vec!["a", "b"]);
}

#[test]
fn leaf_rules_reconstruct_to_nothing() {
    let ident = Ident::new("x", Span::call_site());
    assert!(ident.reconstruct().is_empty());
    let punct = Punct::new('+', Spacing::Alone);
    assert!(punct.reconstruct().is_empty());
}

#[test]
fn ident_and_punct_report_their_text() {
    assert_eq!(Ident::new("hello", Span::call_site()).ident(), "hello");
    assert_eq!(Punct::new('-', Spacing::Joint).ch(), '-');
}

#[test]
fn token_types_are_handed_on_by_the_library() {
    let literal: mitzvah::pm::Literal = Literal::u8_unsuffixed(3);
    let node = mitzvah::pm::TokenTree::Literal(literal);
    let mut c = TokenIterator::from_nodes(vec![node]);
    let found: mitzvah::pm::Literal = c.parse().unwrap();
    assert_eq!(found.to_string(), "3");
    let stream: mitzvah::pm::TokenStream = found.reconstruct();
    assert!(stream.is_empty());
}
