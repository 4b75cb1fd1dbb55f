//! Textual values that survive across phases: names, string literals,
//! documentation and the operator spellings the lexer can emit.
//!
//! The wrappers around `String` carry their text as the value they stand
//! for, so each views as a `Seq<char>` and compares by that text.

use vstd::prelude::*;

verus! {

/// A name written by the programmer, such as a variable or type name.
#[derive(Debug, Eq, Hash)]
pub struct Identifier(pub String);

impl Identifier {
    /// Builds an identifier carrying exactly the given text.
    pub fn from(s: &str) -> (r: Identifier)
        ensures
            r@ == s@,
    {
        Identifier(String::from_str(s))
    }
}

impl View for Identifier {
    type V = Seq<char>;

    open spec fn view(&self) -> Seq<char> {
        self.0@
    }
}

impl Clone for Identifier {
    fn clone(&self) -> (r: Self)
        ensures
            r == *self,
    {
        Identifier(self.0.clone())
    }
}

impl PartialEq for Identifier {
    fn eq(&self, other: &Self) -> (r: bool) {
        self.0 == other.0
    }
}

impl vstd::std_specs::cmp::PartialEqSpecImpl for Identifier {
    open spec fn obeys_eq_spec() -> bool {
        true
    }

    open spec fn eq_spec(&self, other: &Self) -> bool {
        self@ == other@
    }
}

/// The contents of an ordinary string literal.
#[derive(Debug, Eq, Hash)]
pub struct SylanString(pub String);

impl SylanString {
    /// Builds a string literal value carrying exactly the given text.
    pub fn from(s: &str) -> (r: SylanString)
        ensures
            r@ == s@,
    {
        SylanString(String::from_str(s))
    }
}

impl View for SylanString {
    type V = Seq<char>;

    open spec fn view(&self) -> Seq<char> {
        self.0@
    }
}

impl Clone for SylanString {
    fn clone(&self) -> (r: Self)
        ensures
            r == *self,
    {
        SylanString(self.0.clone())
    }
}

impl PartialEq for SylanString {
    fn eq(&self, other: &Self) -> (r: bool) {
        self.0 == other.0
    }
}

impl vstd::std_specs::cmp::PartialEqSpecImpl for SylanString {
    open spec fn obeys_eq_spec() -> bool {
        true
    }

    open spec fn eq_spec(&self, other: &Self) -> bool {
        self@ == other@
    }
}

/// The raw contents of an interpolated string literal, interpolations
/// included; they are split out by a later phase.
#[derive(Debug, Eq, Hash)]
pub struct InterpolatedString(pub String);

impl InterpolatedString {
    /// Builds an interpolated-string value carrying exactly the given text.
    pub fn from(s: &str) -> (r: InterpolatedString)
        ensures
            r@ == s@,
    {
        InterpolatedString(String::from_str(s))
    }
}

impl View for InterpolatedString {
    type V = Seq<char>;

    open spec fn view(&self) -> Seq<char> {
        self.0@
    }
}

impl Clone for InterpolatedString {
    fn clone(&self) -> (r: Self)
        ensures
            r == *self,
    {
        InterpolatedString(self.0.clone())
    }
}

impl PartialEq for InterpolatedString {
    fn eq(&self, other: &Self) -> (r: bool) {
        self.0 == other.0
    }
}

impl vstd::std_specs::cmp::PartialEqSpecImpl for InterpolatedString {
    open spec fn obeys_eq_spec() -> bool {
        true
    }

    open spec fn eq_spec(&self, other: &Self) -> bool {
        self@ == other@
    }
}

/// The interpreter line at the very top of a script file.
#[derive(Debug, Eq, Hash)]
pub struct Shebang(pub String);

impl Shebang {
    /// Builds a shebang value carrying exactly the given text.
    pub fn from(s: &str) -> (r: Shebang)
        ensures
            r@ == s@,
    {
        Shebang(String::from_str(s))
    }
}

impl View for Shebang {
    type V = Seq<char>;

    open spec fn view(&self) -> Seq<char> {
        self.0@
    }
}

impl Clone for Shebang {
    fn clone(&self) -> (r: Self)
        ensures
            r == *self,
    {
        Shebang(self.0.clone())
    }
}

impl PartialEq for Shebang {
    fn eq(&self, other: &Self) -> (r: bool) {
        self.0 == other.0
    }
}

impl vstd::std_specs::cmp::PartialEqSpecImpl for Shebang {
    open spec fn obeys_eq_spec() -> bool {
        true
    }

    open spec fn eq_spec(&self, other: &Self) -> bool {
        self@ == other@
    }
}

/// A documentation comment attached to a declaration.
#[derive(Debug, Eq, Hash)]
pub struct SyDoc(pub String);

impl SyDoc {
    /// Builds a documentation-comment value carrying exactly the given text.
    pub fn from(s: &str) -> (r: SyDoc)
        ensures
            r@ == s@,
    {
        SyDoc(String::from_str(s))
    }
}

impl View for SyDoc {
    type V = Seq<char>;

    open spec fn view(&self) -> Seq<char> {
        self.0@
    }
}

impl Clone for SyDoc {
    fn clone(&self) -> (r: Self)
        ensures
            r == *self,
    {
        SyDoc(self.0.clone())
    }
}

impl PartialEq for SyDoc {
    fn eq(&self, other: &Self) -> (r: bool) {
        self.0 == other.0
    }
}

impl vstd::std_specs::cmp::PartialEqSpecImpl for SyDoc {
    open spec fn obeys_eq_spec() -> bool {
        true
    }

    open spec fn eq_spec(&self, other: &Self) -> bool {
        self@ == other@
    }
}

/// How visible a declaration is outside the scope that declares it.
#[derive(Clone, Copy, Debug, Hash, PartialEq, Eq, Structural)]
pub enum Accessibility {
    Public,
    Internal,
    Private,
}

/// The infix operators that programs may overload.
#[derive(Clone, Copy, Debug, Hash, PartialEq, Eq, Structural)]
pub enum OverloadableInfixOperator {
    Add,
    And,
    BitwiseAnd,
    BitwiseOr,
    BitwiseXor,
    Compose,
    Divide,
    Equals,
    GreaterThan,
    GreaterThanOrEquals,
    LessThan,
    LessThanOrEquals,
    Modulo,
    Multiply,
    NotEquals,
    Or,
    Pipe,
    ShiftLeft,
    ShiftRight,
    Subtract,
}

/// The postfix operators, which are fixed by the language.
#[derive(Clone, Copy, Debug, Hash, PartialEq, Eq, Structural)]
pub enum PostfixOperator {
    Bind,
    InvocableHandle,
}

/// Identifier-like words whose meaning the language fixes in advance.
#[derive(Clone, Copy, Debug, Hash, PartialEq, Eq, Structural)]
pub enum PseudoIdentifier {
    Continue,
    It,
    PlaceholderIdentifier,
    Super,
    This,
    ThisType,
}

} // verus!
