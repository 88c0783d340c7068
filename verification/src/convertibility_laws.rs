//! Laws on which syntax trees the conversion accepts: exactly those on
//! which reading a literal, a size or a bound, calling, and comparing with
//! `!=` all succeed, stated construct by construct.

use vstd::prelude::*;

use crate::ast;
use crate::definition_spec::{function_convertible, struct_convertible, type_convertible};
use crate::expression_from::lemma_postfix_convertible_prefix;
use crate::expression_spec::{
    expression_convertible, postfix_convertible, range_or_expression_convertible,
    spread_or_expression_convertible,
};
use crate::literal::parses_unsigned;
use crate::program_from::file_convertible;
use crate::statement_spec::{
    conditional_convertible, nested_or_end_convertible, statement_convertible,
};

verus! {

/// A size literal: a `u32` literal whose value fits in `usize`.
pub open spec fn size_literal(v: ast::Value) -> bool {
    v matches ast::Value::U32(u) && parses_unsigned(u.number.value@, usize::MAX as int)
}

/// A constant bound: a `u32` literal that reads.
pub open spec fn constant_bound(e: ast::Expression) -> bool {
    e matches ast::Expression::Value(ast::Value::U32(u)) && parses_unsigned(
        u.number.value@,
        u32::MAX as int,
    )
}

/// A type whose array size, if it has one, is a size literal.
pub open spec fn type_accepted(t: ast::Type) -> bool {
    t matches ast::Type::Array(at) ==> size_literal(at.count)
}

/// The `i`th access of a postfix expression converts on its own terms: a
/// call stands first and its arguments convert, an index converts.
pub open spec fn access_accepted(p: ast::PostfixExpression, i: int) -> bool {
    match p.accesses@[i] {
        ast::Access::Call(c) => i == 0 && forall|j: int|
            0 <= j < c.expressions@.len() ==> expression_convertible(#[trigger] c.expressions@[j]),
        ast::Access::Member(_) => true,
        ast::Access::Array(a) => range_or_expression_convertible(a.expression),
    }
}

/// The first `n` accesses of a postfix expression convert exactly when each
/// does.
pub proof fn lemma_postfix_accesses(p: ast::PostfixExpression, n: nat)
    requires
        n <= p.accesses@.len(),
    ensures
        postfix_convertible(p, n) <==> forall|i: int| 0 <= i < n ==> #[trigger] access_accepted(p, i),
    decreases n,
{
    if n > 0 {
        lemma_postfix_accesses(p, (n - 1) as nat);
        if postfix_convertible(p, n) {
            assert forall|i: int| 0 <= i < n implies #[trigger] access_accepted(p, i) by {
                lemma_postfix_convertible_prefix(p, n, (i + 1) as nat);
            }
        }
        if forall|i: int| 0 <= i < n ==> #[trigger] access_accepted(p, i) {
            assert(access_accepted(p, n - 1));
            assert(forall|i: int| 0 <= i < n - 1 ==> #[trigger] access_accepted(p, i));
            assert(postfix_convertible(p, (n - 1) as nat));
            match p.accesses@[n - 1] {
                ast::Access::Call(c) => {
                    assert(crate::expression_spec::expressions_convertible(c.expressions));
                },
                _ => {},
            }
            assert(postfix_convertible(p, n));
        }
    }
}

/// Which expressions convert.
pub proof fn law_expression_convertibility(e: ast::Expression)
    ensures
        e matches ast::Expression::Value(ast::Value::U32(u)) ==> (expression_convertible(e)
            <==> parses_unsigned(u.number.value@, u32::MAX as int)),
        e matches ast::Expression::Value(ast::Value::Field(_)) ==> expression_convertible(e),
        e is Variable ==> expression_convertible(e),
        e matches ast::Expression::Not(n) ==> (expression_convertible(e) <==> expression_convertible(
            *n.expression,
        )),
        e matches ast::Expression::Binary(b) ==> (expression_convertible(e) <==> (b.operation
            != ast::BinaryOperator::Neq && expression_convertible(*b.left)
            && expression_convertible(*b.right))),
        e matches ast::Expression::Ternary(x) ==> (expression_convertible(e) <==> (
        expression_convertible(*x.first) && expression_convertible(*x.second)
            && expression_convertible(*x.third))),
        e matches ast::Expression::ArrayInline(a) ==> (expression_convertible(e) <==> forall|i: int|
            0 <= i < a.expressions@.len() ==> spread_or_expression_convertible(
                #[trigger] a.expressions@[i],
            )),
        e matches ast::Expression::ArrayInitializer(a) ==> (expression_convertible(e) <==> (
        size_literal(a.count) && spread_or_expression_convertible(*a.expression))),
        e matches ast::Expression::StructInline(s) ==> (expression_convertible(e) <==> forall|i: int|
            0 <= i < s.members@.len() ==> expression_convertible(
                (#[trigger] s.members@[i]).expression,
            )),
        e matches ast::Expression::Postfix(p) ==> (expression_convertible(e) <==> forall|i: int|
            0 <= i < p.accesses@.len() ==> #[trigger] access_accepted(p, i)),
{
    if let ast::Expression::Postfix(p) = e {
        lemma_postfix_accesses(p, p.accesses@.len());
    }
}

/// Which array elements and indices convert.
pub proof fn law_element_and_index_convertibility(
    s: ast::SpreadOrExpression,
    r: ast::RangeOrExpression,
)
    ensures
        s matches ast::SpreadOrExpression::Spread(sp) ==> (spread_or_expression_convertible(s)
            <==> expression_convertible(sp.expression)),
        s matches ast::SpreadOrExpression::Expression(x) ==> (spread_or_expression_convertible(s)
            <==> expression_convertible(x)),
        r matches ast::RangeOrExpression::Range(rg) ==> (range_or_expression_convertible(r) <==> (
        (rg.from matches Some(b) ==> constant_bound(b.0)) && (rg.to matches Some(b)
            ==> constant_bound(b.0)))),
        r matches ast::RangeOrExpression::Expression(x) ==> (range_or_expression_convertible(r)
            <==> expression_convertible(x)),
{
}

/// Which statements convert.
pub proof fn law_statement_convertibility(s: ast::Statement)
    ensures
        s matches ast::Statement::Return(r) ==> (statement_convertible(s) <==> forall|i: int|
            0 <= i < r.expressions@.len() ==> expression_convertible(#[trigger] r.expressions@[i])),
        s matches ast::Statement::Definition(d) ==> (statement_convertible(s) <==> ((d.ty matches Some(
            ty,
        ) ==> type_accepted(ty)) && expression_convertible(d.expression))),
        s matches ast::Statement::Assign(a) ==> (statement_convertible(s) <==> ((forall|i: int|
            0 <= i < a.assignee.accesses@.len() ==> (#[trigger] a.assignee.accesses@[i] matches ast::AssigneeAccess::Array(
                x,
            ) ==> range_or_expression_convertible(x.expression))) && expression_convertible(
            a.expression,
        ))),
        s matches ast::Statement::MultipleAssignment(m) ==> (statement_convertible(s) <==> forall|
            i: int,
        | 0 <= i < m.arguments@.len() ==> expression_convertible(#[trigger] m.arguments@[i])),
        s matches ast::Statement::Conditional(c) ==> (statement_convertible(s)
            <==> conditional_convertible(c)),
        s matches ast::Statement::Iteration(f) ==> (statement_convertible(s) <==> (constant_bound(
            f.start,
        ) && constant_bound(f.stop) && forall|i: int|
            0 <= i < f.statements@.len() ==> statement_convertible(#[trigger] f.statements@[i]))),
        s matches ast::Statement::Assert(ast::AssertStatement::AssertEq(x)) ==> (
        statement_convertible(s) <==> (expression_convertible(x.left) && expression_convertible(
            x.right,
        ))),
        s matches ast::Statement::Expression(x) ==> (statement_convertible(s)
            <==> expression_convertible(x.expression)),
{
}

/// A conditional converts exactly when its condition, its statements and,
/// if it has one, what follows it convert: with or without an `else`.
pub proof fn law_conditional_convertibility(c: ast::ConditionalStatement, n: ast::ConditionalNestedOrEnd)
    ensures
        conditional_convertible(c) <==> (expression_convertible(c.condition) && (forall|i: int|
            0 <= i < c.statements@.len() ==> statement_convertible(#[trigger] c.statements@[i]))
            && (c.next matches Some(x) ==> nested_or_end_convertible(x))),
        n matches ast::ConditionalNestedOrEnd::Nested(x) ==> (nested_or_end_convertible(n)
            <==> conditional_convertible(*x)),
        n matches ast::ConditionalNestedOrEnd::End(v) ==> (nested_or_end_convertible(n) <==> forall|
            i: int,
        | 0 <= i < v@.len() ==> statement_convertible(#[trigger] v@[i])),
{
}

/// Which types and definitions convert, and so which files.
pub proof fn law_definition_convertibility(
    t: ast::Type,
    s: ast::Struct,
    f: ast::Function,
    file: ast::File,
)
    ensures
        type_convertible(t) <==> type_accepted(t),
        struct_convertible(s) <==> forall|i: int|
            0 <= i < s.fields@.len() ==> type_accepted((#[trigger] s.fields@[i]).ty),
        function_convertible(f) <==> ((forall|i: int|
            0 <= i < f.parameters@.len() ==> type_accepted((#[trigger] f.parameters@[i]).ty))
            && (forall|i: int| 0 <= i < f.returns@.len() ==> type_accepted(#[trigger] f.returns@[i]))
            && (forall|i: int|
            0 <= i < f.statements@.len() ==> statement_convertible(#[trigger] f.statements@[i]))),
        file_convertible(file) <==> ((forall|i: int|
            0 <= i < file.structs@.len() ==> struct_convertible(#[trigger] file.structs@[i]))
            && (forall|i: int|
            0 <= i < file.functions@.len() ==> function_convertible(#[trigger] file.functions@[i]))),
{
}

} // verus!
