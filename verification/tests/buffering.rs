//! Behaviour of the lookahead buffer against a scripted producer: batch
//! and single operations agree, failures are stable, and the one
//! end-to-end fragment tokenizes to exactly the expected stream.

use std::sync::mpsc;

use sylan::common::multiphase::{Identifier, InterpolatedString};
use sylan::lexing::lexer::{LexError, LexedToken, LexerTask, LexerTaskError, Position};
use sylan::lexing::tokens::{Grouping, Literal, Token};
use sylan::lexing::{LexedTokenReadMany, Tokens};

fn lexed(token: Token) -> LexedToken {
    LexedToken { token, trivia: None, position: Position { absolute: 0, line: 1, column: 1 } }
}

fn fragment_tokens() -> Vec<Token> {
    vec![
        Token::Identifier(Identifier::from("List")),
        Token::Grouping(Grouping::OpenParentheses),
        Token::Literal(Literal::Number(1, 0)),
        Token::SubItemSeparator,
        Token::Literal(Literal::Number(2, 0)),
        Token::SubItemSeparator,
        Token::Literal(Literal::Number(3, 0)),
        Token::Grouping(Grouping::CloseParentheses),
        Token::Dot,
        Token::Identifier(Identifier::from("forEach")),
        Token::Grouping(Grouping::OpenParentheses),
        Token::Identifier(Identifier::from("n")),
        Token::LambdaArrow,
        Token::Identifier(Identifier::from("println")),
        Token::Grouping(Grouping::OpenParentheses),
        Token::Literal(Literal::InterpolatedString(InterpolatedString::from("{n}"))),
        Token::Grouping(Grouping::CloseParentheses),
        Token::Grouping(Grouping::CloseParentheses),
        Token::Eof,
    ]
}

fn buffer_over(stream: Vec<LexedToken>) -> Tokens {
    let (token_sender, token_receiver) = mpsc::channel();
    let (outcome_sender, outcome_receiver) = mpsc::channel();
    for token in stream {
        token_sender.send(token).unwrap();
    }
    outcome_sender.send(Ok(())).unwrap();
    drop(token_sender);
    drop(outcome_sender);
    Tokens::from(LexerTask::new(token_receiver, outcome_receiver))
}

fn fragment_buffer() -> Tokens {
    buffer_over(fragment_tokens().into_iter().map(lexed).collect())
}

#[test]
fn end_to_end_fragment_order() {
    let mut tokens = fragment_buffer();
    for expected in fragment_tokens() {
        assert_eq!(expected, tokens.read().unwrap().token);
    }
    assert!(tokens.read().is_none());
    tokens.join_lexer_thread().unwrap();
}

#[test]
fn fifth_token_past_five_discards_is_for_each() {
    let mut tokens = fragment_buffer();
    assert!(tokens.discard_many(5));
    assert_eq!(
        Token::Identifier(Identifier::from("forEach")),
        tokens.peek_nth(5).unwrap().token,
    );
}

#[test]
fn repeated_peeks_return_identical_content() {
    let mut tokens = fragment_buffer();
    let first = tokens.peek_many(3).unwrap();
    let second = tokens.peek_many(3).unwrap();
    assert_eq!(first, second);
    assert_eq!(tokens.peek().unwrap(), tokens.peek().unwrap());
    assert_eq!(tokens.peek_nth(2).unwrap(), tokens.peek_nth(2).unwrap());
}

#[test]
fn peeked_content_is_then_read() {
    let mut tokens = fragment_buffer();
    let peeked = tokens.peek_many(4).unwrap();
    let LexedTokenReadMany(read) = tokens.read_many(4).unwrap();
    assert_eq!(peeked, read);
}

#[test]
fn batch_reads_match_single_reads() {
    let mut batched = fragment_buffer();
    let mut singly = fragment_buffer();
    let LexedTokenReadMany(batch) = batched.read_many(7).unwrap();
    for item in batch {
        assert_eq!(item.token, singly.read().unwrap().token);
    }
    // Both buffers now stand at the same place in the stream.
    assert_eq!(batched.read().unwrap().token, singly.read().unwrap().token);
}

#[test]
fn discarding_tokens_equals_reading_and_dropping() {
    let mut read_side = fragment_buffer();
    let mut discard_side = fragment_buffer();
    read_side.read_many(6).unwrap();
    assert!(discard_side.discard_many(6));
    assert_eq!(
        read_side.read().unwrap().token,
        discard_side.read().unwrap().token,
    );
}

#[test]
fn peeked_depths_shift_with_discards() {
    let mut tokens = fragment_buffer();
    let before = tokens.peek_nth(5).unwrap();
    assert!(tokens.discard_many(2));
    assert_eq!(before.token, tokens.peek_nth(3).unwrap().token);
}

#[test]
fn matching_consumes_nothing() {
    let mut tokens = fragment_buffer();
    assert!(tokens.match_nth(2, |lexed| lexed.token
        == Token::Grouping(Grouping::OpenParentheses)));
    assert!(!tokens.match_nth(2, |lexed| lexed.token == Token::Dot));
    // The matches grew the lookahead but consumed nothing.
    assert_eq!(
        Token::Identifier(Identifier::from("List")),
        tokens.read().unwrap().token,
    );
}

#[test]
fn zero_sized_peek_touches_nothing() {
    let mut tokens = buffer_over(Vec::new());
    let peeked = tokens.peek_many(0).unwrap();
    assert!(peeked.is_empty());
    // Even over an empty, never-pulled stream the zero peek succeeded;
    // the stream itself is still intact afterwards.
    assert!(tokens.read().is_none());
}

#[test]
fn exhausted_calls_fail_identically_again() {
    let mut tokens = buffer_over(vec![lexed(Token::Eof)]);
    assert!(tokens.peek_many(3).is_none());
    assert!(tokens.peek_many(3).is_none());
    // The one received token is still cached, unconsumed, in order.
    assert_eq!(Token::Eof, tokens.read().unwrap().token);
    assert!(tokens.read_many(2).is_none());
    assert!(tokens.read_many(2).is_none());
    assert!(!tokens.discard_many(1));
    assert!(!tokens.discard_many(1));
}

#[test]
fn failed_growth_records_only_received_tokens() {
    let mut tokens = buffer_over(vec![
        lexed(Token::Dot),
        lexed(Token::Colon),
    ]);
    // The peek falls short: only two tokens ever arrive.
    assert!(tokens.peek_many(4).is_none());
    // The cache holds exactly the two received tokens, not stale slots.
    assert_eq!(Token::Dot, tokens.read().unwrap().token);
    assert_eq!(Token::Colon, tokens.read().unwrap().token);
    assert!(tokens.read().is_none());
}

#[test]
fn reads_beyond_capacity_are_served() {
    let stream: Vec<LexedToken> = fragment_tokens().into_iter().map(lexed).collect();
    let expected: Vec<Token> = fragment_tokens();
    let mut tokens = buffer_over(stream);
    // Prime the cache, then read far past its five-slot capacity.
    tokens.peek_many(5).unwrap();
    let LexedTokenReadMany(batch) = tokens.read_many(19).unwrap();
    let read_tokens: Vec<Token> = batch.into_iter().map(|lexed| lexed.token).collect();
    assert_eq!(expected, read_tokens);
}

#[test]
fn join_reports_success() {
    let tokens = fragment_buffer();
    assert_eq!(Ok(()), tokens.join_lexer_thread());
}

#[test]
fn join_propagates_lexing_errors() {
    let (token_sender, token_receiver) = mpsc::channel::<LexedToken>();
    let (outcome_sender, outcome_receiver) = mpsc::channel();
    let fault = LexError {
        description: String::from("malformed escape sequence"),
        position: Position { absolute: 4, line: 1, column: 5 },
    };
    outcome_sender.send(Err(fault.clone())).unwrap();
    drop(token_sender);
    drop(outcome_sender);
    let tokens = Tokens::from(LexerTask::new(token_receiver, outcome_receiver));
    assert_eq!(Err(LexerTaskError::Lexing(fault)), tokens.join_lexer_thread());
}

#[test]
fn join_reports_a_task_that_died_silently() {
    let (token_sender, token_receiver) = mpsc::channel::<LexedToken>();
    let (outcome_sender, outcome_receiver) = mpsc::channel();
    drop(token_sender);
    drop(outcome_sender);
    let tokens = Tokens::from(LexerTask::new(token_receiver, outcome_receiver));
    assert_eq!(Err(LexerTaskError::TaskFailed), tokens.join_lexer_thread());
}

#[test]
fn lexed_tokens_compare_by_token_alone() {
    let mut with_trivia = lexed(Token::Dot);
    with_trivia.trivia = Some(String::from("  "));
    with_trivia.position = Position { absolute: 9, line: 2, column: 3 };
    assert_eq!(with_trivia, lexed(Token::Dot));
    assert_ne!(with_trivia, lexed(Token::Colon));
}

#[test]
fn the_default_token_is_the_end_of_stream_sentinel() {
    assert_eq!(Token::Eof, Token::default());
    let lexed_default = LexedToken::default();
    assert_eq!(Token::Eof, lexed_default.token);
    assert!(lexed_default.trivia.is_none());
}
