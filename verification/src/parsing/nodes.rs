//! The nodes of the syntax tree. A program consists of items and
//! expressions: items are declarative, whereas expressions are executed
//! and yield values. Such values can be the void value for expressions
//! executed solely for side effects. "Statements" can be approximated by
//! stacking expressions one after the other and discarding their values.

use vstd::prelude::*;

use crate::common::multiphase::{
    Accessibility, Identifier, InterpolatedString, Shebang, SyDoc, SylanString,
};
use crate::common::version::Version;
use std::rc::Rc;

verus! {

/// Shebangs and source versions are special, which is why they stand
/// outside the `FilePackage` in which all other items and expressions
/// reside: both must be completely resolved before anything else can be
/// parsed.
pub struct File {
    pub shebang: Option<Shebang>,
    pub version: Option<Version>,
    pub package: FilePackage,
}

/// The declarations that make up the static structure of a program.
/// Items cannot be contained within expressions, with the exception of
/// bindings.
pub enum Item {
    Package(Package),
    Class(Class),
    Extension(Extension),
    Interface(Interface),
    SyDoc(SyDoc),
    ContextualIgnoral(ContextualIgnoral),
    Alias(Alias),
    Import(Import),
    Func(Func),
    // Unlike the previous variants, bindings can be arbitrarily nested
    // within expressions, to allow corecursion among other features.
    Binding(Binding),
}

/// The expressions that allow Turing-complete computations, i.e. doing
/// actual useful work.
pub enum Expression {
    Identifier(Identifier),
    Literal(Literal),
    UnaryOperator(UnaryOperator, Box<Expression>),
    BinaryOperator(BinaryOperator, Box<Expression>, Box<Expression>),
    Switch(Switch),
    Select(Select),
    Context(Scope),
    Using(Using),
    If(If),
    IfLet(IfLet),
    Cond(Cond),
    For(For),
    Continue(Continue),
    Call(Call),
    Lookup(Lookup),
    Throw(Throw),
    While(Throw),
    WhileLet(WhileLet),
}

/// Every node is either an item or an expression, even the special
/// shebang and version tokens.
pub enum Node {
    Item(Item),
    Expression(Expression),
}

/// Packages only have items at the top level, with the exception of the
/// main package, which can also have executable code to simplify small
/// scripts.
pub struct Package {
    pub accessibility: Accessibility,
    pub name: Identifier,
    pub items: Vec<Item>,
}

pub struct MainPackage {
    pub package: Package,
    pub code: Code,
}

pub enum FilePackage {
    EntryPoint(MainPackage),
    Imported(Package),
}

pub struct Import {
    pub lookup: Lookup,
}

/// Funcs are ultimately just lambdas used in a binding; the difference is
/// only realised during a later simplification stage. Unlike a lambda,
/// omitting a return type means the void type rather than inference, and
/// every parameter must be explicitly typed.
pub struct Func {
    pub name: Identifier,
    pub lambda: Lambda,
}

pub enum DeclarationItem {
    Binding(Binding),
    Type(Type),
    Package(Package),
}

pub struct Declaration {
    pub accessibility: Accessibility,
    pub item: DeclarationItem,
}

/// Concrete classes that support implementing interfaces and embedding
/// other classes, but cannot extend other classes directly.
pub struct Class {
    pub implements: Vec<Type>,
    pub methods: Vec<Method>,
}

/// Interfaces that support extending other interfaces, providing empty
/// methods that implementors must implement, providing already-defined
/// utility methods, and even allowing already-defined methods to be
/// specialised via overriding in implementing classes.
pub struct Interface {
    pub extends: Vec<Type>,
    pub methods: Vec<Method>,
}

pub enum TypeItem {
    Class(Class),
    Interface(Interface),
}

pub enum Extension {
    Class(Class),
    Interface(Interface),
}

pub struct Type {
    pub name: Identifier,
    pub arguments: Vec<Argument<Type>>,
}

pub struct DeclarationModifiers {
    pub accessibility: Accessibility,
}

pub struct MethodModifiers {
    pub declaration: DeclarationModifiers,
    pub is_virtual: bool,
    pub overrides: bool,
    pub default: bool,
}

/// Methods are just bindings in a class, potentially abstract in
/// interfaces, tied to their type and instance like Python methods and
/// unlike JavaScript functions. Type annotations are only optional for
/// direct literals.
pub struct Method {
    pub name: Identifier,
    pub modifiers: MethodModifiers,
    pub type_annotation: Option<Type>,
    pub non_abstract_value: Option<Expression>,
}

/// Value parameters are for values at runtime; they have identifiers and
/// optional default values.
pub struct ValueParameter {
    pub pattern: Pattern,
    pub explicit_type_annotation: Option<Type>,
    pub default_value: Option<Expression>,
}

/// Type parameters are for types at compile time; they have optional
/// upper bounds, identifiers, and optional default values.
pub struct TypeParameter {
    pub name: Identifier,
    pub upper_bounds: Vec<Type>,
    pub default_value: Option<Type>,
}

/// Arguments support being passed positionally or by keyword; unlike
/// other languages it is the choice of the caller rather than the
/// definer. If passed as a keyword argument, an identifier is carried
/// with it in the parse tree.
pub struct Argument<T> {
    pub value: T,
    pub identifier: Option<Identifier>,
}

/// Bindings are for execution-time values; statically deducible values go
/// via package and type definitions instead. Two bindings are considered
/// the same binding exactly when they bind the same pattern, whatever
/// value each carries.
pub struct Binding {
    pub pattern: Pattern,
    pub value: Box<Expression>,
    pub explicit_type_annotation: Option<Type>,
}

/// What it means for two bindings to be the same: their patterns agree.
pub open spec fn binding_eq_spec(a: &Binding, b: &Binding) -> bool {
    pattern_eq_spec(&a.pattern, &b.pattern)
}

impl PartialEq for Binding {
    fn eq(&self, other: &Self) -> (r: bool) {
        self.pattern == other.pattern
    }
}

impl vstd::std_specs::cmp::PartialEqSpecImpl for Binding {
    open spec fn obeys_eq_spec() -> bool {
        true
    }

    open spec fn eq_spec(&self, other: &Self) -> bool {
        binding_eq_spec(self, other)
    }
}

pub struct Alias {
    pub new: Identifier,
    pub original: Lookup,
}

pub struct ContextualIgnoral {
    pub value: Expression,
}

/// Expressions are separate from bindings.
pub type Expressions = Vec<Expression>;

/// Bindings within a code block are resolved before executing its
/// expressions: block scoped with a temporal dead zone rather than scope
/// hoisting, which allows techniques like mutual recursion without
/// forward declarations.
pub struct Code {
    pub bindings: Vec<Binding>,
    pub expressions: Expressions,
}

impl Code {
    /// An empty code block: no bindings and no expressions yet.
    pub fn new() -> (r: Code)
        ensures
            r.bindings@ == Seq::<Binding>::empty(),
            r.expressions@ == Seq::<Expression>::empty(),
    {
        Code { bindings: Vec::new(), expressions: Vec::new() }
    }
}

/// Relies on std::rc::Rc::clone: the clone is a new handle on the same
/// allocation, so it carries the same value.
#[verifier::external_body]
fn clone_scope_handle(scope: &Rc<Scope>) -> (r: Rc<Scope>)
    ensures
        r == *scope,
{
    Rc::clone(scope)
}

/// Scopes, unlike non-main packages, can contain executable code, and can
/// refer to parent scopes; lexical scoping is implemented by looking up
/// bindings through the chain of parents. Parent links are shared,
/// long-lived and cycle-free, so they are reference-counted immutable
/// handles rather than raw back-pointers.
pub struct Scope {
    pub code: Code,
    pub parent: Option<Rc<Scope>>,
}

impl Scope {
    /// A fresh scope with no parent: the root of a scope chain.
    pub fn new_root() -> (r: Rc<Scope>)
        ensures
            r.code.bindings@ == Seq::<Binding>::empty(),
            r.code.expressions@ == Seq::<Expression>::empty(),
            r.parent is None,
    {
        let code = Code::new();
        let parent: Option<Rc<Scope>> = None;
        Rc::new(Scope { code, parent })
    }

    /// A fresh empty scope chained under the given parent.
    pub fn within(parent: &Rc<Scope>) -> (r: Rc<Scope>)
        ensures
            r.code.bindings@ == Seq::<Binding>::empty(),
            r.code.expressions@ == Seq::<Expression>::empty(),
            r.parent matches Some(p) && p == *parent,
    {
        let code = Code::new();
        let parent = Some(clone_scope_handle(parent));
        Rc::new(Scope { code, parent })
    }
}

pub struct LambdaSignature {
    pub type_parameters: Vec<TypeParameter>,
    pub value_parameters: Vec<ValueParameter>,
    pub explicit_return_type_annotation: Option<Type>,
    pub ignorable: bool,
}

pub struct Lambda {
    pub signature: LambdaSignature,
    pub scope: Scope,
}

pub enum Literal {
    Boolean(bool),
    Char(char),
    InterpolatedString(InterpolatedString),
    Number(i64, u64),
    String(SylanString),
    Lambda(Lambda),
}

/// A lookup resolves items in static program structure, e.g. types and
/// packages; it is an expression, but one completely resolvable during
/// parsing and semantic analysis.
pub type Lookup = Vec<Identifier>;

/// Unary operators are fixed in the language and cannot be used as names
/// for identifiers.
pub enum UnaryOperator {
    InvocableHandle,
    Not,
    ContextualBind,
}

/// Programs may define operators, but only binary ones.
pub struct BinaryOperator(pub Identifier);

pub struct Switch {
    pub expression: Box<Expression>,
    pub cases: Vec<Case>,
}

pub struct Timeout {
    pub nanoseconds: Box<Expression>,
    pub body: Scope,
}

pub struct Select {
    pub message_type: Type,
    pub cases: Vec<Case>,
    pub timeout: Option<Timeout>,
}

pub enum LambdaArgument {
    Normal(Argument<Expression>),
    Entry(Box<Expression>, Box<Expression>),
}

pub struct Call {
    pub target: Box<Expression>,
    pub arguments: Vec<LambdaArgument>,
}

pub struct Using(pub Box<Expression>);

pub struct If {
    pub condition: Box<Expression>,
    pub then: Scope,
    pub else_clause: Option<Scope>,
}

pub struct IfLet {
    pub binding: Binding,
    pub then: Scope,
    pub else_clause: Option<Scope>,
}

pub struct CondCase {
    pub conditions: Vec<Expression>,
    pub then: Scope,
}

pub struct Cond(pub Vec<CondCase>);

pub struct CaseMatch {
    pub pattern: Pattern,
    pub guard: Option<Expression>,
}

pub struct Case {
    pub matches: Vec<CaseMatch>,
    pub body: Scope,
}

pub struct For {
    pub bindings: Vec<Binding>,
    pub scope: Scope,
    pub label: Option<Identifier>,
}

pub struct While {
    pub condition: Box<Expression>,
    pub scope: Scope,
    pub label: Option<Identifier>,
}

pub struct WhileLet {
    pub binding: Binding,
    pub scope: Scope,
    pub label: Option<Identifier>,
}

pub struct Continue {
    pub bindings: Vec<Argument<Expression>>,
    pub label: Option<Identifier>,
}

/// Throwing destroys the current process, so it yields no value; it is
/// nevertheless an expression and can stand anywhere one can.
pub struct Throw(pub Box<Expression>);

pub struct PatternGetter {
    pub identifier: Identifier,
    pub pattern: Pattern,
}

pub struct CompositePattern {
    pub composite_type: Type,
    pub getters: Vec<PatternGetter>,
    pub ignore_rest: bool,
}

pub enum PatternItem {
    Literal(Literal),
    Identifier(Identifier),
    Composite(CompositePattern),
    Ignored,
}

/// Patterns destructure values; a whole match can also be bound to a
/// name. Two patterns are considered the same exactly when they bind the
/// same name, whatever they destructure.
pub struct Pattern {
    pub item: PatternItem,
    pub bound_match: Option<Identifier>,
}

/// What it means for two patterns to be the same: both bind no name, or
/// both bind the same name.
pub open spec fn pattern_eq_spec(a: &Pattern, b: &Pattern) -> bool {
    match (a.bound_match, b.bound_match) {
        (Some(x), Some(y)) => x@ == y@,
        (None, None) => true,
        _ => false,
    }
}

impl PartialEq for Pattern {
    fn eq(&self, other: &Self) -> (r: bool) {
        match (&self.bound_match, &other.bound_match) {
            (Some(x), Some(y)) => x == y,
            (None, None) => true,
            _ => false,
        }
    }
}

impl vstd::std_specs::cmp::PartialEqSpecImpl for Pattern {
    open spec fn obeys_eq_spec() -> bool {
        true
    }

    open spec fn eq_spec(&self, other: &Self) -> bool {
        pattern_eq_spec(self, other)
    }
}

} // verus!
