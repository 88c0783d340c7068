//! What converting assignees and statements means.

use vstd::prelude::*;

use crate::ast;
use crate::definition_spec::{optional_type_convertible, optional_type_converts};
use crate::expression_spec::{
    bound_convertible, bound_value, expression_converts, expression_convertible,
    expressions_convert, expressions_convertible, range_or_expression_converts,
    range_or_expression_convertible, variable_converts,
};
use crate::types;

verus! {

/// An assignee whose every index converts.
pub open spec fn assignee_convertible(a: ast::Assignee) -> bool {
    forall|i: int|
        0 <= i < a.accesses@.len() ==> match #[trigger] a.accesses@[i] {
            ast::AssigneeAccess::Array(arr) => range_or_expression_convertible(arr.expression),
            ast::AssigneeAccess::Member(_) => true,
        }
}

/// `t` is the place that the name of `a` with its first `n` accesses denotes,
/// each access wrapping what the previous ones built.
pub open spec fn assignee_converts<F, P: Fn(&String) -> F>(
    a: ast::Assignee,
    n: nat,
    t: types::Assignee<F>,
    pf: P,
) -> bool
    decreases n,
{
    if n == 0 {
        t matches types::Assignee::Variable(x) && variable_converts(a.variable, x)
    } else if n > a.accesses@.len() {
        false
    } else {
        match a.accesses@[n - 1] {
            ast::AssigneeAccess::Array(arr) => match t {
                types::Assignee::Array(inner, index) => assignee_converts(
                    a,
                    (n - 1) as nat,
                    *inner,
                    pf,
                ) && range_or_expression_converts(arr.expression, index, pf),
                _ => false,
            },
            ast::AssigneeAccess::Member(m) => match t {
                types::Assignee::StructMember(inner, x) => assignee_converts(
                    a,
                    (n - 1) as nat,
                    *inner,
                    pf,
                ) && variable_converts(m.variable, x),
                _ => false,
            },
        }
    }
}

/// `t` is the expression that reads the place the name of `a` with its first
/// `n` accesses denotes.
pub open spec fn assignee_expression_converts<F, P: Fn(&String) -> F>(
    a: ast::Assignee,
    n: nat,
    t: types::Expression<F>,
    pf: P,
) -> bool
    decreases n,
{
    if n == 0 {
        t matches types::Expression::Variable(x) && variable_converts(a.variable, x)
    } else if n > a.accesses@.len() {
        false
    } else {
        match a.accesses@[n - 1] {
            ast::AssigneeAccess::Array(arr) => match t {
                types::Expression::ArrayAccess(inner, index) => assignee_expression_converts(
                    a,
                    (n - 1) as nat,
                    *inner,
                    pf,
                ) && range_or_expression_converts(arr.expression, *index, pf),
                _ => false,
            },
            ast::AssigneeAccess::Member(m) => match t {
                types::Expression::StructMemberAccess(inner, x) => assignee_expression_converts(
                    a,
                    (n - 1) as nat,
                    *inner,
                    pf,
                ) && variable_converts(m.variable, x),
                _ => false,
            },
        }
    }
}

/// The operands of `e` if `e` is the operation that the compound assignment
/// operator `op` performs.
pub open spec fn compound_operands<F>(op: ast::OperationAssign, e: types::Expression<F>) -> Option<
    (Box<types::Expression<F>>, Box<types::Expression<F>>),
> {
    match (op, e) {
        (ast::OperationAssign::AddAssign, types::Expression::Add(l, r)) => Some((l, r)),
        (ast::OperationAssign::SubAssign, types::Expression::Sub(l, r)) => Some((l, r)),
        (ast::OperationAssign::MulAssign, types::Expression::Mul(l, r)) => Some((l, r)),
        (ast::OperationAssign::DivAssign, types::Expression::Div(l, r)) => Some((l, r)),
        (ast::OperationAssign::PowAssign, types::Expression::Pow(l, r)) => Some((l, r)),
        _ => None,
    }
}

/// An assignment that the conversion accepts.
pub open spec fn assign_convertible(s: ast::AssignStatement) -> bool {
    assignee_convertible(s.assignee) && expression_convertible(s.expression)
}

/// `t` is the conversion of an assignment: `x = e` assigns `e` to `x`, and
/// `x op= e` assigns `x op e` to `x`, reading `x` as an expression.
pub open spec fn assign_converts<F, P: Fn(&String) -> F>(
    s: ast::AssignStatement,
    t: types::Statement<F>,
    pf: P,
) -> bool {
    let n = s.assignee.accesses@.len();
    match t {
        types::Statement::Assign(target, value) => assignee_converts(s.assignee, n, target, pf) && if s.assign
            == ast::OperationAssign::Assign {
            expression_converts(s.expression, value, pf)
        } else {
            match compound_operands(s.assign, value) {
                Some((l, r)) => assignee_expression_converts(s.assignee, n, *l, pf)
                    && expression_converts(s.expression, *r, pf),
                None => false,
            }
        },
        _ => false,
    }
}

/// A statement that the conversion accepts.
pub open spec fn statement_convertible(s: ast::Statement) -> bool
    decreases s, 0nat,
{
    match s {
        ast::Statement::Return(r) => expressions_convertible(r.expressions),
        ast::Statement::Definition(d) => optional_type_convertible(d.ty) && expression_convertible(
            d.expression,
        ),
        ast::Statement::Assign(a) => assign_convertible(a),
        ast::Statement::MultipleAssignment(m) => expressions_convertible(m.arguments),
        ast::Statement::Conditional(c) => conditional_convertible(c),
        ast::Statement::Iteration(f) => bound_convertible(f.start) && bound_convertible(f.stop)
            && statements_convertible(f.statements),
        ast::Statement::Assert(ast::AssertStatement::AssertEq(e)) => expression_convertible(e.left)
            && expression_convertible(e.right),
        ast::Statement::Expression(e) => expression_convertible(e.expression),
    }
}

/// Statements that the conversion all accepts.
pub open spec fn statements_convertible(v: Vec<ast::Statement>) -> bool
    decreases v, 0nat,
{
    forall|i: int| 0 <= i < v@.len() ==> statement_convertible(#[trigger] v@[i])
}

/// A conditional that the conversion accepts.
pub open spec fn conditional_convertible(c: ast::ConditionalStatement) -> bool
    decreases c, 0nat,
{
    &&& expression_convertible(c.condition)
    &&& statements_convertible(c.statements)
    &&& match c.next {
        Some(n) => nested_or_end_convertible(n),
        None => true,
    }
}

/// What follows a conditional block, accepted by the conversion.
pub open spec fn nested_or_end_convertible(n: ast::ConditionalNestedOrEnd) -> bool
    decreases n, 0nat,
{
    match n {
        ast::ConditionalNestedOrEnd::Nested(c) => conditional_convertible(*c),
        ast::ConditionalNestedOrEnd::End(v) => statements_convertible(v),
    }
}

/// `t` is the conversion of the statement `s`.
pub open spec fn statement_converts<F, P: Fn(&String) -> F>(
    s: ast::Statement,
    t: types::Statement<F>,
    pf: P,
) -> bool
    decreases s, 0nat,
{
    match s {
        ast::Statement::Return(r) => t matches types::Statement::Return(es) && expressions_convert(
            r.expressions,
            es,
            pf,
        ),
        ast::Statement::Definition(d) => match t {
            types::Statement::Definition(target, ty, value) => target matches types::Assignee::Variable(x)
                && variable_converts(d.variable, x) && optional_type_converts(d.ty, ty)
                && expression_converts(d.expression, value, pf),
            _ => false,
        },
        ast::Statement::Assign(a) => assign_converts(a, t, pf),
        ast::Statement::MultipleAssignment(m) => match t {
            types::Statement::MultipleAssign(targets, call) => {
                &&& targets@.len() == m.assignees@.len()
                &&& forall|i: int|
                    0 <= i < targets@.len() ==> (#[trigger] targets@[i] matches types::Assignee::Variable(
                        x,
                    ) && variable_converts(m.assignees@[i].id, x))
                &&& call matches types::Expression::FunctionCall(f, args) && variable_converts(
                    m.function_name,
                    f,
                ) && expressions_convert(m.arguments, args, pf)
            },
            _ => false,
        },
        ast::Statement::Conditional(c) => t matches types::Statement::Conditional(x)
            && conditional_converts(c, x, pf),
        ast::Statement::Iteration(f) => match t {
            types::Statement::For(x, from, to, body) => variable_converts(f.index, x) && from
                == bound_value(f.start) && to == bound_value(f.stop) && statements_convert(
                f.statements,
                body,
                pf,
            ),
            _ => false,
        },
        ast::Statement::Assert(ast::AssertStatement::AssertEq(e)) => match t {
            types::Statement::AssertEq(l, r) => expression_converts(e.left, l, pf)
                && expression_converts(e.right, r, pf),
            _ => false,
        },
        ast::Statement::Expression(e) => t matches types::Statement::Expression(x)
            && expression_converts(e.expression, x, pf),
    }
}

/// `t` holds the conversions of the statements `v`, in order.
pub open spec fn statements_convert<F, P: Fn(&String) -> F>(
    v: Vec<ast::Statement>,
    t: Vec<types::Statement<F>>,
    pf: P,
) -> bool
    decreases v, 0nat,
{
    t@.len() == v@.len() && forall|i: int|
        0 <= i < v@.len() ==> statement_converts(#[trigger] v@[i], t@[i], pf)
}

/// `t` is the conversion of the conditional `c`.
pub open spec fn conditional_converts<F, P: Fn(&String) -> F>(
    c: ast::ConditionalStatement,
    t: types::ConditionalStatement<F>,
    pf: P,
) -> bool
    decreases c, 0nat,
{
    &&& expression_converts(c.condition, t.condition, pf)
    &&& statements_convert(c.statements, t.statements, pf)
    &&& match c.next {
        Some(n) => t.next matches Some(x) && nested_or_end_converts(n, x, pf),
        None => t.next is None,
    }
}

/// `t` is the conversion of what follows a conditional block.
pub open spec fn nested_or_end_converts<F, P: Fn(&String) -> F>(
    n: ast::ConditionalNestedOrEnd,
    t: types::ConditionalNestedOrEnd<F>,
    pf: P,
) -> bool
    decreases n, 0nat,
{
    match n {
        ast::ConditionalNestedOrEnd::Nested(c) => t matches types::ConditionalNestedOrEnd::Nested(
            x,
        ) && conditional_converts(*c, *x, pf),
        ast::ConditionalNestedOrEnd::End(v) => t matches types::ConditionalNestedOrEnd::End(x)
            && statements_convert(v, x, pf),
    }
}

} // verus!
