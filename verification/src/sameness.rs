//! When two typed trees are the same: the same shape, the same names, the
//! same constants and field elements, and the same elements in every list.
//!
//! Verus does not identify two `Vec`s or two `String`s that hold the same
//! elements, so typed trees are compared here through the views of their
//! vectors and strings.

use vstd::prelude::*;

use crate::types;

verus! {

/// Two names with the same text.
pub open spec fn variable_same(a: types::Variable, b: types::Variable) -> bool {
    a.name@ == b.name@
}

/// Two types that are the same.
pub open spec fn type_same(a: types::Type, b: types::Type) -> bool
    decreases a,
{
    match a {
        types::Type::Array(e, n) => b matches types::Type::Array(f, m) && n == m && type_same(
            *e,
            *f,
        ),
        types::Type::Struct(x) => b matches types::Type::Struct(y) && variable_same(x, y),
        _ => a == b,
    }
}

/// Two optional types that are the same.
pub open spec fn optional_type_same(a: Option<types::Type>, b: Option<types::Type>) -> bool {
    match a {
        Some(x) => b matches Some(y) && type_same(x, y),
        None => b is None,
    }
}

/// Two expressions that are the same.
pub open spec fn expression_same<F>(a: types::Expression<F>, b: types::Expression<F>) -> bool
    decreases a, 0nat,
{
    match a {
        types::Expression::Variable(x) => b matches types::Expression::Variable(y)
            && variable_same(x, y),
        types::Expression::Integer(_) => b == a,
        types::Expression::FieldElement(_) => b == a,
        types::Expression::Boolean(_) => b == a,
        types::Expression::Not(x) => b matches types::Expression::Not(y) && expression_same(
            *x,
            *y,
        ),
        types::Expression::Or(l, r) => b matches types::Expression::Or(m, s) && expression_same(
            *l,
            *m,
        ) && expression_same(*r, *s),
        types::Expression::And(l, r) => b matches types::Expression::And(m, s) && expression_same(
            *l,
            *m,
        ) && expression_same(*r, *s),
        types::Expression::Eq(l, r) => b matches types::Expression::Eq(m, s) && expression_same(
            *l,
            *m,
        ) && expression_same(*r, *s),
        types::Expression::Geq(l, r) => b matches types::Expression::Geq(m, s) && expression_same(
            *l,
            *m,
        ) && expression_same(*r, *s),
        types::Expression::Gt(l, r) => b matches types::Expression::Gt(m, s) && expression_same(
            *l,
            *m,
        ) && expression_same(*r, *s),
        types::Expression::Leq(l, r) => b matches types::Expression::Leq(m, s) && expression_same(
            *l,
            *m,
        ) && expression_same(*r, *s),
        types::Expression::Lt(l, r) => b matches types::Expression::Lt(m, s) && expression_same(
            *l,
            *m,
        ) && expression_same(*r, *s),
        types::Expression::Add(l, r) => b matches types::Expression::Add(m, s) && expression_same(
            *l,
            *m,
        ) && expression_same(*r, *s),
        types::Expression::Sub(l, r) => b matches types::Expression::Sub(m, s) && expression_same(
            *l,
            *m,
        ) && expression_same(*r, *s),
        types::Expression::Mul(l, r) => b matches types::Expression::Mul(m, s) && expression_same(
            *l,
            *m,
        ) && expression_same(*r, *s),
        types::Expression::Div(l, r) => b matches types::Expression::Div(m, s) && expression_same(
            *l,
            *m,
        ) && expression_same(*r, *s),
        types::Expression::Pow(l, r) => b matches types::Expression::Pow(m, s) && expression_same(
            *l,
            *m,
        ) && expression_same(*r, *s),
        types::Expression::IfElse(x, y, z) => b matches types::Expression::IfElse(u, v, w)
            && expression_same(*x, *u) && expression_same(*y, *v) && expression_same(*z, *w),
        types::Expression::Array(v) => b matches types::Expression::Array(w) && w@.len()
            == v@.len() && forall|i: int|
            0 <= i < v@.len() ==> spread_or_expression_same(*#[trigger] v@[i], *w@[i]),
        types::Expression::Struct(x, ms) => b matches types::Expression::Struct(y, ns)
            && variable_same(x, y) && ns@.len() == ms@.len() && forall|i: int|
            0 <= i < ms@.len() ==> variable_same((#[trigger] ms@[i]).variable, ns@[i].variable)
                && expression_same(ms@[i].expression, ns@[i].expression),
        types::Expression::ArrayAccess(x, r) => b matches types::Expression::ArrayAccess(y, s)
            && expression_same(*x, *y) && range_or_expression_same(*r, *s),
        types::Expression::StructMemberAccess(x, m) => b matches types::Expression::StructMemberAccess(
            y,
            n,
        ) && expression_same(*x, *y) && variable_same(m, n),
        types::Expression::FunctionCall(x, args) => b matches types::Expression::FunctionCall(
            y,
            brgs,
        ) && variable_same(x, y) && expressions_same(args, brgs),
    }
}

/// Two array elements that are the same.
pub open spec fn spread_or_expression_same<F>(
    a: types::SpreadOrExpression<F>,
    b: types::SpreadOrExpression<F>,
) -> bool
    decreases a, 0nat,
{
    match a {
        types::SpreadOrExpression::Spread(x) => b matches types::SpreadOrExpression::Spread(y)
            && expression_same(x, y),
        types::SpreadOrExpression::Expression(x) => b matches types::SpreadOrExpression::Expression(
            y,
        ) && expression_same(x, y),
    }
}

/// Two array indices that are the same.
pub open spec fn range_or_expression_same<F>(
    a: types::RangeOrExpression<F>,
    b: types::RangeOrExpression<F>,
) -> bool
    decreases a, 0nat,
{
    match a {
        types::RangeOrExpression::Range(_, _) => b == a,
        types::RangeOrExpression::Expression(x) => b matches types::RangeOrExpression::Expression(
            y,
        ) && expression_same(x, y),
    }
}

/// Two lists of expressions that are the same, element by element.
pub open spec fn expressions_same<F>(a: Vec<types::Expression<F>>, b: Vec<types::Expression<F>>) -> bool
    decreases a, 0nat,
{
    b@.len() == a@.len() && forall|i: int|
        0 <= i < a@.len() ==> expression_same(#[trigger] a@[i], b@[i])
}

/// Two assignment targets that are the same.
pub open spec fn assignee_same<F>(a: types::Assignee<F>, b: types::Assignee<F>) -> bool
    decreases a,
{
    match a {
        types::Assignee::Variable(x) => b matches types::Assignee::Variable(y) && variable_same(
            x,
            y,
        ),
        types::Assignee::Array(x, r) => b matches types::Assignee::Array(y, s) && assignee_same(
            *x,
            *y,
        ) && range_or_expression_same(r, s),
        types::Assignee::StructMember(x, m) => b matches types::Assignee::StructMember(y, n)
            && assignee_same(*x, *y) && variable_same(m, n),
    }
}

/// Two statements that are the same.
pub open spec fn statement_same<F>(a: types::Statement<F>, b: types::Statement<F>) -> bool
    decreases a, 0nat,
{
    match a {
        types::Statement::Return(es) => b matches types::Statement::Return(fs) && expressions_same(
            es,
            fs,
        ),
        types::Statement::Definition(x, ty, e) => b matches types::Statement::Definition(y, uy, f)
            && assignee_same(x, y) && optional_type_same(ty, uy) && expression_same(e, f),
        types::Statement::Assign(x, e) => b matches types::Statement::Assign(y, f) && assignee_same(
            x,
            y,
        ) && expression_same(e, f),
        types::Statement::MultipleAssign(xs, e) => b matches types::Statement::MultipleAssign(
            ys,
            f,
        ) && ys@.len() == xs@.len() && (forall|i: int|
            0 <= i < xs@.len() ==> assignee_same(#[trigger] xs@[i], ys@[i])) && expression_same(
            e,
            f,
        ),
        types::Statement::Conditional(c) => b matches types::Statement::Conditional(d)
            && conditional_same(c, d),
        types::Statement::For(x, from, to, body) => b matches types::Statement::For(
            y,
            from2,
            to2,
            body2,
        ) && variable_same(x, y) && from == from2 && to == to2 && statements_same(body, body2),
        types::Statement::AssertEq(l, r) => b matches types::Statement::AssertEq(m, s)
            && expression_same(l, m) && expression_same(r, s),
        types::Statement::Expression(e) => b matches types::Statement::Expression(f)
            && expression_same(e, f),
    }
}

/// Two lists of statements that are the same, element by element.
pub open spec fn statements_same<F>(a: Vec<types::Statement<F>>, b: Vec<types::Statement<F>>) -> bool
    decreases a, 0nat,
{
    b@.len() == a@.len() && forall|i: int|
        0 <= i < a@.len() ==> statement_same(#[trigger] a@[i], b@[i])
}

/// Two conditionals that are the same.
pub open spec fn conditional_same<F>(
    a: types::ConditionalStatement<F>,
    b: types::ConditionalStatement<F>,
) -> bool
    decreases a, 0nat,
{
    &&& expression_same(a.condition, b.condition)
    &&& statements_same(a.statements, b.statements)
    &&& match a.next {
        Some(n) => b.next matches Some(m) && nested_or_end_same(n, m),
        None => b.next is None,
    }
}

/// Two continuations of a conditional that are the same.
pub open spec fn nested_or_end_same<F>(
    a: types::ConditionalNestedOrEnd<F>,
    b: types::ConditionalNestedOrEnd<F>,
) -> bool
    decreases a, 0nat,
{
    match a {
        types::ConditionalNestedOrEnd::Nested(c) => b matches types::ConditionalNestedOrEnd::Nested(
            d,
        ) && conditional_same(*c, *d),
        types::ConditionalNestedOrEnd::End(v) => b matches types::ConditionalNestedOrEnd::End(w)
            && statements_same(v, w),
    }
}

/// Two struct definitions that are the same.
pub open spec fn struct_same(a: types::Struct, b: types::Struct) -> bool {
    &&& variable_same(a.variable, b.variable)
    &&& b.fields@.len() == a.fields@.len()
    &&& forall|i: int|
        0 <= i < a.fields@.len() ==> variable_same((#[trigger] a.fields@[i]).variable, b.fields@[i].variable)
            && type_same(a.fields@[i].ty, b.fields@[i].ty)
}

/// Two parameters that are the same.
pub open spec fn parameter_same(a: types::ParameterModel, b: types::ParameterModel) -> bool {
    a.private == b.private && type_same(a.ty, b.ty) && variable_same(a.variable, b.variable)
}

/// Two function definitions that are the same.
pub open spec fn function_same<F>(a: types::Function<F>, b: types::Function<F>) -> bool {
    &&& a.function_name.0@ == b.function_name.0@
    &&& b.parameters@.len() == a.parameters@.len()
    &&& forall|i: int|
        0 <= i < a.parameters@.len() ==> parameter_same(#[trigger] a.parameters@[i], b.parameters@[i])
    &&& b.returns@.len() == a.returns@.len()
    &&& forall|i: int| 0 <= i < a.returns@.len() ==> type_same(#[trigger] a.returns@[i], b.returns@[i])
    &&& statements_same(a.statements, b.statements)
}

/// Two imports that are the same.
pub open spec fn import_same(a: types::Import, b: types::Import) -> bool {
    &&& a.path_string@ == b.path_string@
    &&& b.symbols@.len() == a.symbols@.len()
    &&& forall|i: int|
        0 <= i < a.symbols@.len() ==> variable_same(
            (#[trigger] a.symbols@[i]).symbol,
            b.symbols@[i].symbol,
        ) && match a.symbols@[i].alias {
            Some(x) => b.symbols@[i].alias matches Some(y) && variable_same(x, y),
            None => b.symbols@[i].alias is None,
        }
}

} // verus!
