//! The front end of the Sylan toolchain: lexical tokens and the buffering
//! layer that lets a grammar consumer inspect a token stream with bounded
//! lookahead, without reasoning about the thread that produces it.

pub mod common;
pub mod lexing;
pub mod parsing;
