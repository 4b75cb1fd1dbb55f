//! The lexical tokens: atomic terminators of the language grammar, emitted
//! by the lexer and consumed by the parser.
//!
//! Tokens compare by full structural value, with the text they carry
//! compared character by character.

use vstd::prelude::*;

use crate::common::multiphase::{
    Accessibility, Identifier, InterpolatedString, OverloadableInfixOperator, PostfixOperator,
    PseudoIdentifier, Shebang, SyDoc, SylanString,
};
use crate::common::version::Version;

verus! {

/// A literal value spelled out directly in the source: a character, a
/// string, an interpolated string, or a number as a signed whole part and
/// an unsigned fractional part.
#[derive(Debug, Eq, Hash)]
pub enum Literal {
    Char(char),
    InterpolatedString(InterpolatedString),
    String(SylanString),
    Number(i64, u64),
}

/// What it means for two literals to be the same: same kind, and the
/// carried values agree, text compared character by character.
pub open spec fn literal_eq_spec(a: &Literal, b: &Literal) -> bool {
    match (a, b) {
        (Literal::Char(x), Literal::Char(y)) => x == y,
        (Literal::InterpolatedString(x), Literal::InterpolatedString(y)) => x@ == y@,
        (Literal::String(x), Literal::String(y)) => x@ == y@,
        (Literal::Number(xw, xf), Literal::Number(yw, yf)) => xw == yw && xf == yf,
        _ => false,
    }
}

impl Clone for Literal {
    fn clone(&self) -> (r: Self)
        ensures
            r == *self,
    {
        match self {
            Literal::Char(c) => Literal::Char(*c),
            Literal::InterpolatedString(s) => Literal::InterpolatedString(s.clone()),
            Literal::String(s) => Literal::String(s.clone()),
            Literal::Number(whole, fraction) => Literal::Number(*whole, *fraction),
        }
    }
}

impl PartialEq for Literal {
    fn eq(&self, other: &Self) -> (r: bool) {
        match (self, other) {
            (Literal::Char(x), Literal::Char(y)) => x == y,
            (Literal::InterpolatedString(x), Literal::InterpolatedString(y)) => x == y,
            (Literal::String(x), Literal::String(y)) => x == y,
            (Literal::Number(xw, xf), Literal::Number(yw, yf)) => xw == yw && xf == yf,
            _ => false,
        }
    }
}

impl vstd::std_specs::cmp::PartialEqSpecImpl for Literal {
    open spec fn obeys_eq_spec() -> bool {
        true
    }

    open spec fn eq_spec(&self, other: &Self) -> bool {
        literal_eq_spec(self, other)
    }
}

/// Keywords that branch or loop.
#[derive(Clone, Copy, Debug, Hash, PartialEq, Eq, Structural)]
pub enum BranchingAndJumping {
    If,
    Else,
    While,
    For,
    Switch,
    Select,
}

/// Keywords that open a declaration.
#[derive(Clone, Copy, Debug, Hash, PartialEq, Eq, Structural)]
pub enum DeclarationHead {
    Class,
    Extend,
    Fun,
    Interface,
    Module,
    Import,
    Package,
}

/// Marks that group: parentheses, braces and square brackets, open and
/// close.
#[derive(Clone, Copy, Debug, Hash, PartialEq, Eq, Structural)]
pub enum Grouping {
    CloseBrace,
    CloseParentheses,
    CloseSquareBracket,
    OpenBrace,
    OpenParentheses,
    OpenSquareBracket,
}

/// Modifiers on declarations. Unlike other languages, modifiers always come
/// after declaration heads.
#[derive(Clone, Copy, Debug, Hash, PartialEq, Eq, Structural)]
pub enum Modifier {
    Accessibility(Accessibility),
    Embed,
    Extern,
    Ignorable,
    Operator,
    Override,
}

/// Keywords that only module definitions use.
#[derive(Clone, Copy, Debug, Hash, PartialEq, Eq, Structural)]
pub enum ModuleDefinitions {
    Exports,
    Reject,
    Requires,
}

/// Keywords that bind a name to a value.
#[derive(Clone, Copy, Debug, Hash, PartialEq, Eq, Structural)]
pub enum Binding {
    As,
    Assign,
    Final,
    Var,
}

/// All tokens that can currently exist in a program source.
#[derive(Debug, Eq, Hash)]
pub enum Token {
    Identifier(Identifier),
    Literal(Literal),
    Shebang(Shebang),
    SyDoc(SyDoc),
    Version(Version),

    Binding(Binding),
    BranchingAndJumping(BranchingAndJumping),
    DeclarationHead(DeclarationHead),
    Grouping(Grouping),
    Modifier(Modifier),
    ModuleDefinitions(ModuleDefinitions),
    OverloadableInfixOperator(OverloadableInfixOperator),
    PostfixOperator(PostfixOperator),
    PseudoIdentifier(PseudoIdentifier),

    Colon,
    Dot,
    Eof,
    LambdaArrow,
    Rest,
    SubItemSeparator,
    Throw,
    Timeout,
    Using,

    /// Does nothing but reserves keywords for future use.
    ReservedKeyword,

    With,
}

/// What it means for two tokens to be the same: same variant, and the
/// carried values agree, text compared character by character.
pub open spec fn token_eq_spec(a: &Token, b: &Token) -> bool {
    match (a, b) {
        (Token::Identifier(x), Token::Identifier(y)) => x@ == y@,
        (Token::Literal(x), Token::Literal(y)) => literal_eq_spec(x, y),
        (Token::Shebang(x), Token::Shebang(y)) => x@ == y@,
        (Token::SyDoc(x), Token::SyDoc(y)) => x@ == y@,
        (Token::Version(x), Token::Version(y)) => x == y,
        (Token::Binding(x), Token::Binding(y)) => x == y,
        (Token::BranchingAndJumping(x), Token::BranchingAndJumping(y)) => x == y,
        (Token::DeclarationHead(x), Token::DeclarationHead(y)) => x == y,
        (Token::Grouping(x), Token::Grouping(y)) => x == y,
        (Token::Modifier(x), Token::Modifier(y)) => x == y,
        (Token::ModuleDefinitions(x), Token::ModuleDefinitions(y)) => x == y,
        (Token::OverloadableInfixOperator(x), Token::OverloadableInfixOperator(y)) => x == y,
        (Token::PostfixOperator(x), Token::PostfixOperator(y)) => x == y,
        (Token::PseudoIdentifier(x), Token::PseudoIdentifier(y)) => x == y,
        (Token::Colon, Token::Colon) => true,
        (Token::Dot, Token::Dot) => true,
        (Token::Eof, Token::Eof) => true,
        (Token::LambdaArrow, Token::LambdaArrow) => true,
        (Token::Rest, Token::Rest) => true,
        (Token::SubItemSeparator, Token::SubItemSeparator) => true,
        (Token::Throw, Token::Throw) => true,
        (Token::Timeout, Token::Timeout) => true,
        (Token::Using, Token::Using) => true,
        (Token::ReservedKeyword, Token::ReservedKeyword) => true,
        (Token::With, Token::With) => true,
        _ => false,
    }
}

impl Clone for Token {
    fn clone(&self) -> (r: Self)
        ensures
            r == *self,
    {
        match self {
            Token::Identifier(x) => Token::Identifier(x.clone()),
            Token::Literal(x) => Token::Literal(x.clone()),
            Token::Shebang(x) => Token::Shebang(x.clone()),
            Token::SyDoc(x) => Token::SyDoc(x.clone()),
            Token::Version(x) => Token::Version(*x),
            Token::Binding(x) => Token::Binding(*x),
            Token::BranchingAndJumping(x) => Token::BranchingAndJumping(*x),
            Token::DeclarationHead(x) => Token::DeclarationHead(*x),
            Token::Grouping(x) => Token::Grouping(*x),
            Token::Modifier(x) => Token::Modifier(*x),
            Token::ModuleDefinitions(x) => Token::ModuleDefinitions(*x),
            Token::OverloadableInfixOperator(x) => Token::OverloadableInfixOperator(*x),
            Token::PostfixOperator(x) => Token::PostfixOperator(*x),
            Token::PseudoIdentifier(x) => Token::PseudoIdentifier(*x),
            Token::Colon => Token::Colon,
            Token::Dot => Token::Dot,
            Token::Eof => Token::Eof,
            Token::LambdaArrow => Token::LambdaArrow,
            Token::Rest => Token::Rest,
            Token::SubItemSeparator => Token::SubItemSeparator,
            Token::Throw => Token::Throw,
            Token::Timeout => Token::Timeout,
            Token::Using => Token::Using,
            Token::ReservedKeyword => Token::ReservedKeyword,
            Token::With => Token::With,
        }
    }
}

impl PartialEq for Token {
    fn eq(&self, other: &Self) -> (r: bool) {
        match (self, other) {
            (Token::Identifier(x), Token::Identifier(y)) => x == y,
            (Token::Literal(x), Token::Literal(y)) => x == y,
            (Token::Shebang(x), Token::Shebang(y)) => x == y,
            (Token::SyDoc(x), Token::SyDoc(y)) => x == y,
            (Token::Version(x), Token::Version(y)) => x == y,
            (Token::Binding(x), Token::Binding(y)) => x == y,
            (Token::BranchingAndJumping(x), Token::BranchingAndJumping(y)) => x == y,
            (Token::DeclarationHead(x), Token::DeclarationHead(y)) => x == y,
            (Token::Grouping(x), Token::Grouping(y)) => x == y,
            (Token::Modifier(x), Token::Modifier(y)) => x == y,
            (Token::ModuleDefinitions(x), Token::ModuleDefinitions(y)) => x == y,
            (Token::OverloadableInfixOperator(x), Token::OverloadableInfixOperator(y)) => x == y,
            (Token::PostfixOperator(x), Token::PostfixOperator(y)) => x == y,
            (Token::PseudoIdentifier(x), Token::PseudoIdentifier(y)) => x == y,
            (Token::Colon, Token::Colon) => true,
            (Token::Dot, Token::Dot) => true,
            (Token::Eof, Token::Eof) => true,
            (Token::LambdaArrow, Token::LambdaArrow) => true,
            (Token::Rest, Token::Rest) => true,
            (Token::SubItemSeparator, Token::SubItemSeparator) => true,
            (Token::Throw, Token::Throw) => true,
            (Token::Timeout, Token::Timeout) => true,
            (Token::Using, Token::Using) => true,
            (Token::ReservedKeyword, Token::ReservedKeyword) => true,
            (Token::With, Token::With) => true,
            _ => false,
        }
    }
}

impl vstd::std_specs::cmp::PartialEqSpecImpl for Token {
    open spec fn obeys_eq_spec() -> bool {
        true
    }

    open spec fn eq_spec(&self, other: &Self) -> bool {
        token_eq_spec(self, other)
    }
}

/// The end-of-stream sentinel is the default token value: it simplifies
/// logic that would otherwise handle running out of tokens as a special
/// typed case.
impl Default for Token {
    fn default() -> (r: Token)
        ensures
            r == Token::Eof,
    {
        Token::Eof
    }
}

} // verus!
