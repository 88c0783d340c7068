//! The typed representation of a program. `F` is the type of field elements.

use vstd::prelude::*;

verus! {

/// A name.
#[derive(Debug, PartialEq, Eq)]
pub struct Variable {
    pub name: String,
}

/// An integer constant.
#[derive(Clone, Copy, Debug, PartialEq, Eq)]
pub enum Integer {
    U32(u32),
}

/// An array index: a range with optional constant bounds, or an expression.
#[derive(Debug, PartialEq, Eq)]
pub enum RangeOrExpression<F> {
    Range(Option<Integer>, Option<Integer>),
    Expression(Expression<F>),
}

/// An element of an array literal.
#[derive(Debug, PartialEq, Eq)]
pub enum SpreadOrExpression<F> {
    Spread(Expression<F>),
    Expression(Expression<F>),
}

/// A member of a struct literal.
#[derive(Debug, PartialEq, Eq)]
pub struct StructMember<F> {
    pub variable: Variable,
    pub expression: Expression<F>,
}

/// An expression.
#[derive(Debug, PartialEq, Eq)]
pub enum Expression<F> {
    Variable(Variable),
    Integer(Integer),
    FieldElement(F),
    Boolean(bool),
    Not(Box<Expression<F>>),
    Or(Box<Expression<F>>, Box<Expression<F>>),
    And(Box<Expression<F>>, Box<Expression<F>>),
    Eq(Box<Expression<F>>, Box<Expression<F>>),
    Geq(Box<Expression<F>>, Box<Expression<F>>),
    Gt(Box<Expression<F>>, Box<Expression<F>>),
    Leq(Box<Expression<F>>, Box<Expression<F>>),
    Lt(Box<Expression<F>>, Box<Expression<F>>),
    Add(Box<Expression<F>>, Box<Expression<F>>),
    Sub(Box<Expression<F>>, Box<Expression<F>>),
    Mul(Box<Expression<F>>, Box<Expression<F>>),
    Div(Box<Expression<F>>, Box<Expression<F>>),
    Pow(Box<Expression<F>>, Box<Expression<F>>),
    IfElse(Box<Expression<F>>, Box<Expression<F>>, Box<Expression<F>>),
    Array(Vec<Box<SpreadOrExpression<F>>>),
    Struct(Variable, Vec<StructMember<F>>),
    ArrayAccess(Box<Expression<F>>, Box<RangeOrExpression<F>>),
    StructMemberAccess(Box<Expression<F>>, Variable),
    FunctionCall(Variable, Vec<Expression<F>>),
}

/// The place an assignment writes to.
#[derive(Debug, PartialEq, Eq)]
pub enum Assignee<F> {
    Variable(Variable),
    Array(Box<Assignee<F>>, RangeOrExpression<F>),
    StructMember(Box<Assignee<F>>, Variable),
}

/// A type.
#[derive(Debug, PartialEq, Eq)]
pub enum Type {
    U32,
    FieldElement,
    Boolean,
    Array(Box<Type>, usize),
    Struct(Variable),
}

/// What follows a conditional block.
#[derive(Debug, PartialEq, Eq)]
pub enum ConditionalNestedOrEnd<F> {
    Nested(Box<ConditionalStatement<F>>),
    End(Vec<Statement<F>>),
}

/// A conditional statement.
#[derive(Debug, PartialEq, Eq)]
pub struct ConditionalStatement<F> {
    pub condition: Expression<F>,
    pub statements: Vec<Statement<F>>,
    pub next: Option<ConditionalNestedOrEnd<F>>,
}

/// A statement.
#[derive(Debug, PartialEq, Eq)]
pub enum Statement<F> {
    Return(Vec<Expression<F>>),
    Definition(Assignee<F>, Option<Type>, Expression<F>),
    Assign(Assignee<F>, Expression<F>),
    MultipleAssign(Vec<Assignee<F>>, Expression<F>),
    Conditional(ConditionalStatement<F>),
    For(Variable, Integer, Integer, Vec<Statement<F>>),
    AssertEq(Expression<F>, Expression<F>),
    Expression(Expression<F>),
}

/// A field of a struct definition.
#[derive(Debug, PartialEq, Eq)]
pub struct StructField {
    pub variable: Variable,
    pub ty: Type,
}

/// A struct definition.
#[derive(Debug, PartialEq, Eq)]
pub struct Struct {
    pub variable: Variable,
    pub fields: Vec<StructField>,
}

/// A function parameter.
#[derive(Debug, PartialEq, Eq)]
pub struct ParameterModel {
    pub private: bool,
    pub ty: Type,
    pub variable: Variable,
}

/// The name of a function.
#[derive(Debug, PartialEq, Eq)]
pub struct FunctionName(pub String);

/// A function definition.
#[derive(Debug, PartialEq, Eq)]
pub struct Function<F> {
    pub function_name: FunctionName,
    pub parameters: Vec<ParameterModel>,
    pub returns: Vec<Type>,
    pub statements: Vec<Statement<F>>,
}

/// An imported name with an optional alias.
#[derive(Debug, PartialEq, Eq)]
pub struct ImportSymbol {
    pub symbol: Variable,
    pub alias: Option<Variable>,
}

/// An import.
#[derive(Debug, PartialEq, Eq)]
pub struct Import {
    pub path_string: String,
    pub symbols: Vec<ImportSymbol>,
}

/// A program. Struct and function definitions are kept as entries keyed by
/// name, each name at most once, in the order in which names were first
/// defined; a name defined twice keeps its later definition.
#[derive(Debug, PartialEq, Eq)]
pub struct Program<F> {
    pub name: Variable,
    pub num_parameters: usize,
    pub imports: Vec<Import>,
    pub structs: Vec<(Variable, Struct)>,
    pub functions: Vec<(FunctionName, Function<F>)>,
}

} // verus!
