//! What converting a syntax tree means, stated node by node.
//!
//! `X_convertible(a)` holds of the syntax trees that the conversion accepts:
//! on the others it has no result (a literal that does not read, a call on
//! something that is not a name, a range bound that is not a `u32` literal,
//! an array size that is not one, or a `!=` comparison, whose conversion does
//! not terminate). `X_converts(a, t, pf)` says that `t` is the conversion of
//! `a`, where `pf` turns the text of a field element literal into a field
//! element.
//!
//! Verus unfolds the recursive relations here, and those of `statement_spec`,
//! only where the parser's type is a type parameter. Where it is a concrete
//! type (a function item or a closure), reason about them in a proof
//! function generic in the parser's type, as those of `determinism` and
//! `laws` are, and call it with the concrete parser.

use vstd::prelude::*;

use crate::ast;
use crate::literal::{bool_value, parses_bool, parses_unsigned, unsigned_value};
use crate::types;

verus! {

/// The field element parser can be called on every text.
pub open spec fn parser_accepts_all<F, P: Fn(&String) -> F>(pf: P) -> bool {
    forall|s: &String| #[trigger] call_requires(pf, (s,))
}

/// A name is carried over as it is written.
pub open spec fn variable_converts(a: ast::Variable, t: types::Variable) -> bool {
    t.name@ == a.value@
}

/// The `u32` that a literal stands for.
pub open spec fn u32_value(u: ast::U32) -> u32 {
    unsigned_value(u.number.value@) as u32
}

/// A literal that the conversion reads.
pub open spec fn value_convertible(v: ast::Value) -> bool {
    match v {
        ast::Value::U32(u) => parses_unsigned(u.number.value@, u32::MAX as int),
        ast::Value::Field(_) => true,
        ast::Value::Boolean(b) => parses_bool(b.value@),
    }
}

/// The conversion of a literal.
pub open spec fn value_converts<F, P: Fn(&String) -> F>(
    v: ast::Value,
    t: types::Expression<F>,
    pf: P,
) -> bool {
    match v {
        ast::Value::U32(u) => t == types::Expression::<F>::Integer(types::Integer::U32(u32_value(u))),
        ast::Value::Field(f) => t matches types::Expression::FieldElement(x) && call_ensures(
            pf,
            (&f.number.value,),
            x,
        ),
        ast::Value::Boolean(b) => t == types::Expression::<F>::Boolean(bool_value(b.value@)),
    }
}

/// A size literal: a `u32` literal whose value fits in `usize`.
pub open spec fn count_convertible(v: ast::Value) -> bool {
    v matches ast::Value::U32(u) && parses_unsigned(u.number.value@, usize::MAX as int)
}

/// The size that a size literal stands for.
pub open spec fn count_value(v: ast::Value) -> usize {
    match v {
        ast::Value::U32(u) => unsigned_value(u.number.value@) as usize,
        _ => 0,
    }
}

/// The operands of `t` if `t` is the binary expression that `op` denotes.
/// `!=` denotes none.
pub open spec fn binary_operands<F>(op: ast::BinaryOperator, t: types::Expression<F>) -> Option<
    (Box<types::Expression<F>>, Box<types::Expression<F>>),
> {
    match (op, t) {
        (ast::BinaryOperator::Or, types::Expression::Or(l, r)) => Some((l, r)),
        (ast::BinaryOperator::And, types::Expression::And(l, r)) => Some((l, r)),
        (ast::BinaryOperator::Eq, types::Expression::Eq(l, r)) => Some((l, r)),
        (ast::BinaryOperator::Geq, types::Expression::Geq(l, r)) => Some((l, r)),
        (ast::BinaryOperator::Gt, types::Expression::Gt(l, r)) => Some((l, r)),
        (ast::BinaryOperator::Leq, types::Expression::Leq(l, r)) => Some((l, r)),
        (ast::BinaryOperator::Lt, types::Expression::Lt(l, r)) => Some((l, r)),
        (ast::BinaryOperator::Add, types::Expression::Add(l, r)) => Some((l, r)),
        (ast::BinaryOperator::Sub, types::Expression::Sub(l, r)) => Some((l, r)),
        (ast::BinaryOperator::Mul, types::Expression::Mul(l, r)) => Some((l, r)),
        (ast::BinaryOperator::Div, types::Expression::Div(l, r)) => Some((l, r)),
        (ast::BinaryOperator::Pow, types::Expression::Pow(l, r)) => Some((l, r)),
        _ => None,
    }
}

/// A range bound must be a `u32` literal that reads.
pub open spec fn bound_convertible(e: ast::Expression) -> bool {
    e matches ast::Expression::Value(ast::Value::U32(u)) && parses_unsigned(
        u.number.value@,
        u32::MAX as int,
    )
}

/// The constant that a range bound stands for.
pub open spec fn bound_value(e: ast::Expression) -> types::Integer {
    match e {
        ast::Expression::Value(ast::Value::U32(u)) => types::Integer::U32(u32_value(u)),
        _ => types::Integer::U32(0),
    }
}

/// The conversion of an optional lower bound.
pub open spec fn from_bound(b: Option<ast::FromExpression>) -> Option<types::Integer> {
    match b {
        Some(x) => Some(bound_value(x.0)),
        None => None,
    }
}

/// The conversion of an optional upper bound.
pub open spec fn to_bound(b: Option<ast::ToExpression>) -> Option<types::Integer> {
    match b {
        Some(x) => Some(bound_value(x.0)),
        None => None,
    }
}

/// A range whose bounds convert.
pub open spec fn range_convertible(r: ast::Range) -> bool {
    &&& (r.from matches Some(x) ==> bound_convertible(x.0))
    &&& (r.to matches Some(x) ==> bound_convertible(x.0))
}

// ---------------------------------------------------------------------------
// Expressions
// ---------------------------------------------------------------------------
/// An expression that the conversion accepts.
pub open spec fn expression_convertible(e: ast::Expression) -> bool
    decreases e, 0nat,
{
    match e {
        ast::Expression::Value(v) => value_convertible(v),
        ast::Expression::Variable(_) => true,
        ast::Expression::Not(n) => expression_convertible(*n.expression),
        ast::Expression::Binary(b) => b.operation != ast::BinaryOperator::Neq
            && expression_convertible(*b.left) && expression_convertible(*b.right),
        ast::Expression::Ternary(x) => expression_convertible(*x.first) && expression_convertible(
            *x.second,
        ) && expression_convertible(*x.third),
        ast::Expression::ArrayInline(arr) => forall|i: int|
            0 <= i < arr.expressions@.len() ==> spread_or_expression_convertible(
                #[trigger] arr.expressions@[i],
            ),
        ast::Expression::ArrayInitializer(arr) => count_convertible(arr.count)
            && spread_or_expression_convertible(*arr.expression),
        ast::Expression::StructInline(s) => forall|i: int|
            0 <= i < s.members@.len() ==> expression_convertible(
                (#[trigger] s.members@[i]).expression,
            ),
        ast::Expression::Postfix(p) => postfix_convertible(p, p.accesses@.len()),
    }
}

/// An array element that the conversion accepts.
pub open spec fn spread_or_expression_convertible(s: ast::SpreadOrExpression) -> bool
    decreases s, 0nat,
{
    match s {
        ast::SpreadOrExpression::Spread(sp) => expression_convertible(sp.expression),
        ast::SpreadOrExpression::Expression(e) => expression_convertible(e),
    }
}

/// An array index that the conversion accepts.
pub open spec fn range_or_expression_convertible(r: ast::RangeOrExpression) -> bool
    decreases r, 0nat,
{
    match r {
        ast::RangeOrExpression::Range(rg) => range_convertible(rg),
        ast::RangeOrExpression::Expression(e) => expression_convertible(e),
    }
}

/// Expressions that the conversion all accepts.
pub open spec fn expressions_convertible(v: Vec<ast::Expression>) -> bool
    decreases v, 0nat,
{
    forall|i: int| 0 <= i < v@.len() ==> expression_convertible(#[trigger] v@[i])
}

/// The first `n` accesses of a postfix expression convert: each index
/// converts, and a call stands only right after the name.
pub open spec fn postfix_convertible(p: ast::PostfixExpression, n: nat) -> bool
    decreases p, n,
{
    if n == 0 {
        true
    } else if n > p.accesses@.len() {
        false
    } else {
        &&& postfix_convertible(p, (n - 1) as nat)
        &&& match p.accesses@[n - 1] {
            ast::Access::Call(c) => n == 1 && expressions_convertible(c.expressions),
            ast::Access::Member(_) => true,
            ast::Access::Array(arr) => range_or_expression_convertible(arr.expression),
        }
    }
}

/// `t` is the conversion of the expression `e`.
pub open spec fn expression_converts<F, P: Fn(&String) -> F>(
    e: ast::Expression,
    t: types::Expression<F>,
    pf: P,
) -> bool
    decreases e, 0nat,
{
    match e {
        ast::Expression::Value(v) => value_converts(v, t, pf),
        ast::Expression::Variable(v) => t matches types::Expression::Variable(x)
            && variable_converts(v, x),
        ast::Expression::Not(n) => t matches types::Expression::Not(x) && expression_converts(
            *n.expression,
            *x,
            pf,
        ),
        ast::Expression::Binary(b) => match binary_operands(b.operation, t) {
            Some((l, r)) => expression_converts(*b.left, *l, pf) && expression_converts(
                *b.right,
                *r,
                pf,
            ),
            None => false,
        },
        ast::Expression::Ternary(x) => match t {
            types::Expression::IfElse(a, b, c) => expression_converts(*x.first, *a, pf)
                && expression_converts(*x.second, *b, pf) && expression_converts(
                *x.third,
                *c,
                pf,
            ),
            _ => false,
        },
        ast::Expression::ArrayInline(arr) => match t {
            types::Expression::Array(v) => v@.len() == arr.expressions@.len() && forall|i: int|
                0 <= i < v@.len() ==> spread_or_expression_converts(
                    #[trigger] arr.expressions@[i],
                    *v@[i],
                    pf,
                ),
            _ => false,
        },
        ast::Expression::ArrayInitializer(arr) => match t {
            types::Expression::Array(v) => v@.len() == count_value(arr.count) && forall|i: int|
                0 <= i < v@.len() ==> spread_or_expression_converts(
                    *arr.expression,
                    *#[trigger] v@[i],
                    pf,
                ),
            _ => false,
        },
        ast::Expression::StructInline(s) => match t {
            types::Expression::Struct(x, ms) => variable_converts(s.variable, x) && ms@.len()
                == s.members@.len() && forall|i: int|
                0 <= i < ms@.len() ==> variable_converts(
                    (#[trigger] s.members@[i]).variable,
                    ms@[i].variable,
                ) && expression_converts(s.members@[i].expression, ms@[i].expression, pf),
            _ => false,
        },
        ast::Expression::Postfix(p) => postfix_converts(p, p.accesses@.len(), t, pf),
    }
}

/// `t` is the conversion of the array element `s`.
pub open spec fn spread_or_expression_converts<F, P: Fn(&String) -> F>(
    s: ast::SpreadOrExpression,
    t: types::SpreadOrExpression<F>,
    pf: P,
) -> bool
    decreases s, 0nat,
{
    match s {
        ast::SpreadOrExpression::Spread(sp) => t matches types::SpreadOrExpression::Spread(x)
            && expression_converts(sp.expression, x, pf),
        ast::SpreadOrExpression::Expression(e) => t matches types::SpreadOrExpression::Expression(
            x,
        ) && expression_converts(e, x, pf),
    }
}

/// `t` is the conversion of the array index `r`.
pub open spec fn range_or_expression_converts<F, P: Fn(&String) -> F>(
    r: ast::RangeOrExpression,
    t: types::RangeOrExpression<F>,
    pf: P,
) -> bool
    decreases r, 0nat,
{
    match r {
        ast::RangeOrExpression::Range(rg) => t == types::RangeOrExpression::<F>::Range(
            from_bound(rg.from),
            to_bound(rg.to),
        ),
        ast::RangeOrExpression::Expression(e) => t matches types::RangeOrExpression::Expression(x)
            && expression_converts(e, x, pf),
    }
}

/// `t` holds the conversions of the expressions `v`, in order.
pub open spec fn expressions_convert<F, P: Fn(&String) -> F>(
    v: Vec<ast::Expression>,
    t: Vec<types::Expression<F>>,
    pf: P,
) -> bool
    decreases v, 0nat,
{
    t@.len() == v@.len() && forall|i: int|
        0 <= i < v@.len() ==> expression_converts(#[trigger] v@[i], t@[i], pf)
}

/// `t` is the name of a postfix expression with its first `n` accesses
/// applied in turn, each wrapping what the previous ones built.
pub open spec fn postfix_converts<F, P: Fn(&String) -> F>(
    p: ast::PostfixExpression,
    n: nat,
    t: types::Expression<F>,
    pf: P,
) -> bool
    decreases p, n,
{
    if n == 0 {
        t matches types::Expression::Variable(x) && variable_converts(p.variable, x)
    } else if n > p.accesses@.len() {
        false
    } else {
        match p.accesses@[n - 1] {
            ast::Access::Call(c) => match t {
                types::Expression::FunctionCall(x, args) => postfix_converts(
                    p,
                    (n - 1) as nat,
                    types::Expression::Variable(x),
                    pf,
                ) && expressions_convert(c.expressions, args, pf),
                _ => false,
            },
            ast::Access::Member(m) => match t {
                types::Expression::StructMemberAccess(inner, x) => postfix_converts(
                    p,
                    (n - 1) as nat,
                    *inner,
                    pf,
                ) && variable_converts(m.variable, x),
                _ => false,
            },
            ast::Access::Array(arr) => match t {
                types::Expression::ArrayAccess(inner, index) => postfix_converts(
                    p,
                    (n - 1) as nat,
                    *inner,
                    pf,
                ) && range_or_expression_converts(arr.expression, *index, pf),
                _ => false,
            },
        }
    }
}

} // verus!
