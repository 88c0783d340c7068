//! The syntax tree that the parser hands over: every token is kept as the text
//! it was read from.

use vstd::prelude::*;

verus! {

/// An identifier.
#[derive(Debug, PartialEq, Eq)]
pub struct Variable {
    pub value: String,
}

/// The digits of a number literal.
#[derive(Debug, PartialEq, Eq)]
pub struct Number {
    pub value: String,
}

/// A `u32` literal.
#[derive(Debug, PartialEq, Eq)]
pub struct U32 {
    pub number: Number,
}

/// A field element literal.
#[derive(Debug, PartialEq, Eq)]
pub struct Field {
    pub number: Number,
}

/// A boolean literal.
#[derive(Debug, PartialEq, Eq)]
pub struct Boolean {
    pub value: String,
}

/// A literal value.
#[derive(Debug, PartialEq, Eq)]
pub enum Value {
    U32(U32),
    Field(Field),
    Boolean(Boolean),
}

/// `!expression`
#[derive(Debug, PartialEq, Eq)]
pub struct NotExpression {
    pub expression: Box<Expression>,
}

/// `...expression` inside an array literal.
#[derive(Debug, PartialEq, Eq)]
pub struct Spread {
    pub expression: Expression,
}

/// An element of an array literal.
#[derive(Debug, PartialEq, Eq)]
pub enum SpreadOrExpression {
    Spread(Spread),
    Expression(Expression),
}

/// The lower bound of a range.
#[derive(Debug, PartialEq, Eq)]
pub struct FromExpression(pub Expression);

/// The upper bound of a range.
#[derive(Debug, PartialEq, Eq)]
pub struct ToExpression(pub Expression);

/// `from..to`, either bound may be left out.
#[derive(Debug, PartialEq, Eq)]
pub struct Range {
    pub from: Option<FromExpression>,
    pub to: Option<ToExpression>,
}

/// An array index: a range or a single expression.
#[derive(Debug, PartialEq, Eq)]
pub enum RangeOrExpression {
    Range(Range),
    Expression(Expression),
}

/// The operators of binary expressions.
#[derive(Clone, Copy, Debug, PartialEq, Eq)]
pub enum BinaryOperator {
    Or,
    And,
    Eq,
    Neq,
    Geq,
    Gt,
    Leq,
    Lt,
    Add,
    Sub,
    Mul,
    Div,
    Pow,
}

/// `left operation right`
#[derive(Debug, PartialEq, Eq)]
pub struct BinaryExpression {
    pub operation: BinaryOperator,
    pub left: Box<Expression>,
    pub right: Box<Expression>,
}

/// `if first then second else third`
#[derive(Debug, PartialEq, Eq)]
pub struct TernaryExpression {
    pub first: Box<Expression>,
    pub second: Box<Expression>,
    pub third: Box<Expression>,
}

/// `[a, ...b, c]`
#[derive(Debug, PartialEq, Eq)]
pub struct ArrayInlineExpression {
    pub expressions: Vec<SpreadOrExpression>,
}

/// `[expression; count]`
#[derive(Debug, PartialEq, Eq)]
pub struct ArrayInitializerExpression {
    pub expression: Box<SpreadOrExpression>,
    pub count: Value,
}

/// `variable: expression` inside a struct literal.
#[derive(Debug, PartialEq, Eq)]
pub struct InlineStructMember {
    pub variable: Variable,
    pub expression: Expression,
}

/// `Name { a: x, b: y }`
#[derive(Debug, PartialEq, Eq)]
pub struct StructInlineExpression {
    pub variable: Variable,
    pub members: Vec<InlineStructMember>,
}

/// `(arguments)` after a name.
#[derive(Debug, PartialEq, Eq)]
pub struct CallAccess {
    pub expressions: Vec<Expression>,
}

/// `[index]` after an expression.
#[derive(Debug, PartialEq, Eq)]
pub struct ArrayAccess {
    pub expression: RangeOrExpression,
}

/// `.member` after an expression.
#[derive(Debug, PartialEq, Eq)]
pub struct MemberAccess {
    pub variable: Variable,
}

/// One access of a postfix expression.
#[derive(Debug, PartialEq, Eq)]
pub enum Access {
    Call(CallAccess),
    Member(MemberAccess),
    Array(ArrayAccess),
}

/// A name followed by accesses: `a(1)[2].b` is `a` with `[Call, Array, Member]`.
#[derive(Debug, PartialEq, Eq)]
pub struct PostfixExpression {
    pub variable: Variable,
    pub accesses: Vec<Access>,
}

/// An expression.
#[derive(Debug, PartialEq, Eq)]
pub enum Expression {
    Value(Value),
    Variable(Variable),
    Not(NotExpression),
    Binary(BinaryExpression),
    Ternary(TernaryExpression),
    ArrayInline(ArrayInlineExpression),
    ArrayInitializer(ArrayInitializerExpression),
    StructInline(StructInlineExpression),
    Postfix(PostfixExpression),
}

/// One access of an assignee.
#[derive(Debug, PartialEq, Eq)]
pub enum AssigneeAccess {
    Array(ArrayAccess),
    Member(MemberAccess),
}

/// The left-hand side of an assignment: a name followed by accesses.
#[derive(Debug, PartialEq, Eq)]
pub struct Assignee {
    pub variable: Variable,
    pub accesses: Vec<AssigneeAccess>,
}

/// The basic types.
#[derive(Clone, Copy, Debug, PartialEq, Eq)]
pub enum BasicType {
    U32,
    Field,
    Boolean,
}

/// `basic[count]`
#[derive(Debug, PartialEq, Eq)]
pub struct ArrayType {
    pub ty: BasicType,
    pub count: Value,
}

/// A struct type, named.
#[derive(Debug, PartialEq, Eq)]
pub struct StructType {
    pub variable: Variable,
}

/// A type written in the source.
#[derive(Debug, PartialEq, Eq)]
pub enum Type {
    Basic(BasicType),
    Array(ArrayType),
    Struct(StructType),
}

/// `return a, b`
#[derive(Debug, PartialEq, Eq)]
pub struct ReturnStatement {
    pub expressions: Vec<Expression>,
}

/// `let variable: ty = expression`
#[derive(Debug, PartialEq, Eq)]
pub struct DefinitionStatement {
    pub variable: Variable,
    pub ty: Option<Type>,
    pub expression: Expression,
}

/// The assignment operators.
#[derive(Clone, Copy, Debug, PartialEq, Eq)]
pub enum OperationAssign {
    Assign,
    AddAssign,
    SubAssign,
    MulAssign,
    DivAssign,
    PowAssign,
}

/// `assignee op= expression`
#[derive(Debug, PartialEq, Eq)]
pub struct AssignStatement {
    pub assignee: Assignee,
    pub assign: OperationAssign,
    pub expression: Expression,
}

/// A name on the left of a multiple assignment, with an optional type.
#[derive(Debug, PartialEq, Eq)]
pub struct OptionallyTypedVariable {
    pub id: Variable,
    pub ty: Option<Type>,
}

/// `let (a, b) = function_name(arguments)`
#[derive(Debug, PartialEq, Eq)]
pub struct MultipleAssignmentStatement {
    pub assignees: Vec<OptionallyTypedVariable>,
    pub function_name: Variable,
    pub arguments: Vec<Expression>,
}

/// What follows a conditional block: another conditional or a final block.
#[derive(Debug, PartialEq, Eq)]
pub enum ConditionalNestedOrEnd {
    Nested(Box<ConditionalStatement>),
    End(Vec<Statement>),
}

/// `if condition { statements } else next`
#[derive(Debug, PartialEq, Eq)]
pub struct ConditionalStatement {
    pub condition: Expression,
    pub statements: Vec<Statement>,
    pub next: Option<ConditionalNestedOrEnd>,
}

/// `for index in start..stop { statements }`
#[derive(Debug, PartialEq, Eq)]
pub struct ForStatement {
    pub index: Variable,
    pub start: Expression,
    pub stop: Expression,
    pub statements: Vec<Statement>,
}

/// `assert_eq(left, right)`
#[derive(Debug, PartialEq, Eq)]
pub struct AssertEq {
    pub left: Expression,
    pub right: Expression,
}

/// The assertions.
#[derive(Debug, PartialEq, Eq)]
pub enum AssertStatement {
    AssertEq(AssertEq),
}

/// An expression used as a statement.
#[derive(Debug, PartialEq, Eq)]
pub struct ExpressionStatement {
    pub expression: Expression,
}

/// A statement.
#[derive(Debug, PartialEq, Eq)]
pub enum Statement {
    Return(ReturnStatement),
    Definition(DefinitionStatement),
    Assign(AssignStatement),
    MultipleAssignment(MultipleAssignmentStatement),
    Conditional(ConditionalStatement),
    Iteration(ForStatement),
    Assert(AssertStatement),
    Expression(ExpressionStatement),
}

/// A field of a struct definition.
#[derive(Debug, PartialEq, Eq)]
pub struct StructField {
    pub variable: Variable,
    pub ty: Type,
}

/// `struct Name { fields }`
#[derive(Debug, PartialEq, Eq)]
pub struct Struct {
    pub variable: Variable,
    pub fields: Vec<StructField>,
}

/// The visibility of a function parameter.
#[derive(Clone, Copy, Debug, PartialEq, Eq)]
pub enum Visibility {
    Public,
    Private,
}

/// A function parameter.
#[derive(Debug, PartialEq, Eq)]
pub struct Parameter {
    pub visibility: Option<Visibility>,
    pub variable: Variable,
    pub ty: Type,
}

/// The name of a function.
#[derive(Debug, PartialEq, Eq)]
pub struct FunctionName {
    pub value: String,
}

/// `function name(parameters) -> (returns) { statements }`
#[derive(Debug, PartialEq, Eq)]
pub struct Function {
    pub function_name: FunctionName,
    pub parameters: Vec<Parameter>,
    pub returns: Vec<Type>,
    pub statements: Vec<Statement>,
}

/// The path of an import.
#[derive(Debug, PartialEq, Eq)]
pub struct ImportSource {
    pub value: String,
}

/// An imported name with an optional alias.
#[derive(Debug, PartialEq, Eq)]
pub struct ImportSymbol {
    pub value: Variable,
    pub alias: Option<Variable>,
}

/// `from "source" import symbols`
#[derive(Debug, PartialEq, Eq)]
pub struct Import {
    pub source: ImportSource,
    pub symbols: Vec<ImportSymbol>,
}

/// A whole source file.
#[derive(Debug, PartialEq, Eq)]
pub struct File {
    pub imports: Vec<Import>,
    pub structs: Vec<Struct>,
    pub functions: Vec<Function>,
}

} // verus!
