//! The lookahead token buffer, driven over a channel fed with the token
//! stream a lexer would emit for this source fragment:
//!
//! ```text
//!
//!
//!         List(1, 2, 3).forEach(n ->
//!             println(`{n}`)
//!         )
//!
//! ```

use std::fmt::Debug;
use std::sync::mpsc;

use sylan::common::multiphase::{Identifier, InterpolatedString};
use sylan::lexing::lexer::{LexedToken, LexerTask, Position};
use sylan::lexing::tokens::{Grouping, Literal, Token};
use sylan::lexing::{LexedTokenReadMany, Tokens};

fn lexed(token: Token, trivia: Option<&str>, absolute: usize) -> LexedToken {
    LexedToken {
        token,
        trivia: trivia.map(String::from),
        position: Position { absolute, line: 1, column: 1 },
    }
}

/// The tokens, in order, that lexing the fragment above yields.
fn test_stream() -> Vec<LexedToken> {
    vec![
        lexed(
            Token::Identifier(Identifier::from("List")),
            Some("\n\n        "),
            10,
        ),
        lexed(Token::Grouping(Grouping::OpenParentheses), None, 14),
        lexed(Token::Literal(Literal::Number(1, 0)), None, 15),
        lexed(Token::SubItemSeparator, None, 16),
        lexed(Token::Literal(Literal::Number(2, 0)), Some(" "), 18),
        lexed(Token::SubItemSeparator, None, 19),
        lexed(Token::Literal(Literal::Number(3, 0)), Some(" "), 21),
        lexed(Token::Grouping(Grouping::CloseParentheses), None, 22),
        lexed(Token::Dot, None, 23),
        lexed(Token::Identifier(Identifier::from("forEach")), None, 24),
        lexed(Token::Grouping(Grouping::OpenParentheses), None, 31),
        lexed(Token::Identifier(Identifier::from("n")), None, 32),
        lexed(Token::LambdaArrow, Some(" "), 34),
        lexed(
            Token::Identifier(Identifier::from("println")),
            Some("\n            "),
            49,
        ),
        lexed(Token::Grouping(Grouping::OpenParentheses), None, 56),
        lexed(
            Token::Literal(Literal::InterpolatedString(InterpolatedString::from("{n}"))),
            None,
            57,
        ),
        lexed(Token::Grouping(Grouping::CloseParentheses), None, 62),
        lexed(Token::Grouping(Grouping::CloseParentheses), Some("\n        "), 72),
        lexed(Token::Eof, Some("\n\n    "), 79),
    ]
}

/// Builds a buffer over a producer that has already emitted the whole
/// stream and reported success, the way the lexer task does.
fn buffer_over(stream: Vec<LexedToken>) -> Tokens {
    let (token_sender, token_receiver) = mpsc::channel();
    let (outcome_sender, outcome_receiver) = mpsc::channel();
    for token in stream {
        token_sender.send(token).unwrap();
    }
    outcome_sender.send(Ok(())).unwrap();
    drop(token_sender);
    drop(outcome_sender);
    Tokens::from(LexerTask::new(token_receiver, outcome_receiver))
}

fn test<A>(f: impl Fn(&mut Tokens) -> A) -> A
where
    A: Eq + Debug,
{
    let mut tokens = buffer_over(test_stream());
    let result = f(&mut tokens);
    tokens.join_lexer_thread().unwrap();
    result
}

fn assert_next<A>(f: impl Fn(&mut Tokens) -> A, x: &A)
where
    A: Eq + Debug,
{
    test(|tokens| assert_eq!(f(tokens), *x))
}

#[test]
fn peek() {
    assert_next(
        |tokens| tokens.peek().unwrap().token.clone(),
        &Token::Identifier(Identifier::from("List")),
    )
}

#[test]
fn peek_many() {
    assert_next(
        |tokens| {
            tokens
                .peek_many(4)
                .unwrap()
                .iter()
                .map(|x| x.token.clone())
                .collect::<Vec<Token>>()
        },
        &vec![
            Token::Identifier(Identifier::from("List")),
            Token::Grouping(Grouping::OpenParentheses),
            Token::Literal(Literal::Number(1, 0)),
            Token::SubItemSeparator,
        ],
    )
}

#[test]
fn peek_nth() {
    assert_next(
        |tokens| {
            tokens.discard_many(5);
            tokens.peek_nth(5).unwrap().token.clone()
        },
        &Token::Identifier(Identifier::from("forEach")),
    );
}

#[test]
fn read() {
    assert_next(
        |tokens| {
            tokens.read().unwrap();
            tokens.read().unwrap();
            tokens.peek().unwrap();
            tokens.read().unwrap().token
        },
        &Token::Literal(Literal::Number(1, 0)),
    )
}

#[test]
fn read_many() {
    assert_next(
        |tokens| {
            tokens.discard_many(8);
            let LexedTokenReadMany(read) = tokens.read_many(3).unwrap();
            read.iter()
                .map(|lexed| lexed.token.clone())
                .collect::<Vec<Token>>()
        },
        &vec![
            Token::Dot,
            Token::Identifier(Identifier::from("forEach")),
            Token::Grouping(Grouping::OpenParentheses),
        ],
    )
}

#[test]
fn discard() {
    assert_next(
        |tokens| {
            tokens.discard();
            tokens.discard();
            tokens.discard();
            tokens.discard();
            tokens.read().unwrap().token
        },
        &Token::Literal(Literal::Number(2, 0)),
    )
}

#[test]
fn discard_many() {
    assert_next(
        |tokens| {
            tokens.discard_many(3);
            tokens.read().unwrap().token
        },
        &Token::SubItemSeparator,
    )
}

#[test]
fn match_nth() {
    test(|tokens| {
        assert!(tokens.match_nth(3, |lexed| lexed.token
            == Token::Literal(Literal::Number(1, 0))))
    })
}

#[test]
fn trivia() {
    let trivia_to_match = String::from("\n\n        ");
    assert_next(
        |tokens| tokens.peek().unwrap().clone().trivia.unwrap(),
        &trivia_to_match,
    );
}
