//! The boundary with the lexer task: the tokens it emits, the handle over
//! its output channels, and the outcome it reports when joined.
//!
//! The scanning rules themselves live outside this crate. The lexer task
//! runs concurrently, emits `LexedToken` values in source order onto a
//! channel, and finally reports on a second channel whether tokenization
//! itself succeeded. Nothing here distinguishes a closed channel from a
//! crashed producer: that distinction is only available through the
//! reported outcome.

use vstd::prelude::*;

use crate::lexing::tokens::{token_eq_spec, Token};

verus! {

/// Where a token began in the source text.
#[derive(Clone, Copy, Debug, Hash, PartialEq, Eq, Structural)]
pub struct Position {
    /// Characters from the start of the source, counting from zero.
    pub absolute: usize,
    /// The line, counting from one.
    pub line: usize,
    /// The column within the line, counting from one.
    pub column: usize,
}

/// A token together with the trivia that preceded it and where it began.
///
/// Trivia is the exact whitespace and comment text immediately before the
/// token in the source, kept verbatim so the source can be reconstructed
/// losslessly. Equality is defined on the token alone, for buffer-matching
/// purposes.
#[derive(Debug)]
pub struct LexedToken {
    pub token: Token,
    pub trivia: Option<String>,
    pub position: Position,
}

impl Clone for LexedToken {
    fn clone(&self) -> (r: Self)
        ensures
            r == *self,
    {
        LexedToken {
            token: self.token.clone(),
            trivia: match &self.trivia {
                Some(text) => Some(text.clone()),
                None => None,
            },
            position: self.position,
        }
    }
}

impl PartialEq for LexedToken {
    fn eq(&self, other: &Self) -> (r: bool) {
        self.token == other.token
    }
}

impl vstd::std_specs::cmp::PartialEqSpecImpl for LexedToken {
    open spec fn obeys_eq_spec() -> bool {
        true
    }

    open spec fn eq_spec(&self, other: &Self) -> bool {
        token_eq_spec(&self.token, &other.token)
    }
}

/// The default lexed token is the end-of-stream sentinel with no trivia,
/// placed at the origin.
impl Default for LexedToken {
    fn default() -> (r: LexedToken)
        ensures
            r.token == Token::Eof,
            r.trivia is None,
            r.position == (Position { absolute: 0, line: 1, column: 1 }),
    {
        LexedToken {
            token: Token::Eof,
            trivia: None,
            position: Position { absolute: 0, line: 1, column: 1 },
        }
    }
}

/// A scanning error the lexer task discovered, such as a malformed escape
/// sequence.
#[derive(Clone, Debug, PartialEq, Eq)]
pub struct LexError {
    pub description: String,
    pub position: Position,
}

/// Why joining the lexer task did not report success.
#[derive(Clone, Debug, PartialEq, Eq)]
pub enum LexerTaskError {
    /// The task stopped without reporting any outcome at all.
    TaskFailed,
    /// Tokenization itself failed, at the carried error.
    Lexing(LexError),
}

#[verifier::external_type_specification]
#[verifier::external_body]
#[verifier::reject_recursive_types(T)]
pub struct ExReceiver<T>(std::sync::mpsc::Receiver<T>);

/// Relies on std::sync::mpsc::Receiver::recv: blocks until the sender
/// sends another value and returns it, or returns nothing once the channel
/// is closed and drained. Which of the two happens depends on the sending
/// thread, so nothing more can be promised of the result.
#[verifier::external_body]
fn receive<T>(receiver: &std::sync::mpsc::Receiver<T>) -> (r: Option<T>) {
    receiver.recv().ok()
}

/// The consumer's handle on a running lexer task: the receiving ends of
/// its token channel and of its one-shot outcome channel.
///
/// Spawning the task, and wiring the sending ends to it, happens outside
/// this crate; the buffer only ever pulls from these two channels.
pub struct LexerTask {
    tokens: std::sync::mpsc::Receiver<LexedToken>,
    outcome: std::sync::mpsc::Receiver<Result<(), LexError>>,
}

impl LexerTask {
    /// Wraps the receiving ends of a lexer task's channels: the tokens it
    /// emits in order, and the terminal outcome it reports once.
    pub fn new(
        tokens: std::sync::mpsc::Receiver<LexedToken>,
        outcome: std::sync::mpsc::Receiver<Result<(), LexError>>,
    ) -> LexerTask {
        LexerTask { tokens, outcome }
    }

    /// Blocks for the next token, or nothing once the task has stopped
    /// emitting.
    pub(crate) fn recv(&self) -> Option<LexedToken> {
        receive(&self.tokens)
    }

    /// Blocks for the task's terminal outcome, or nothing if the task
    /// stopped without reporting one.
    pub(crate) fn recv_outcome(&self) -> Option<Result<(), LexError>> {
        receive(&self.outcome)
    }
}

/// Turns what the outcome channel yielded into the join result: success
/// exactly when the task reported success, the task's own error when it
/// reported one, and a task failure when it reported nothing at all.
pub fn interpret_join_outcome(outcome: Option<Result<(), LexError>>) -> (r: Result<
    (),
    LexerTaskError,
>)
    ensures
        r == (match outcome {
            Some(Ok(())) => Ok::<(), LexerTaskError>(()),
            Some(Err(e)) => Err::<(), LexerTaskError>(LexerTaskError::Lexing(e)),
            None => Err::<(), LexerTaskError>(LexerTaskError::TaskFailed),
        }),
{
    match outcome {
        Some(Ok(())) => Ok(()),
        Some(Err(e)) => Err(LexerTaskError::Lexing(e)),
        None => Err(LexerTaskError::TaskFailed),
    }
}

} // verus!
