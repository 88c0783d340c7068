//! Deciding whether the conversion accepts a syntax tree, so that a caller
//! can test it before converting.

use vstd::prelude::*;

use crate::ast;
use crate::definition_spec::{function_convertible, struct_convertible, type_convertible};
use crate::expression_spec::{
    bound_convertible, count_convertible, expression_convertible, expressions_convertible,
    postfix_convertible, range_convertible, range_or_expression_convertible,
    spread_or_expression_convertible, value_convertible,
};
use crate::expression_from::lemma_postfix_convertible_prefix;
use crate::literal::{parse_bool, parse_unsigned};
use crate::program_from::file_convertible;
use crate::statement_spec::{
    assignee_convertible, conditional_convertible, nested_or_end_convertible, statement_convertible,
    statements_convertible,
};

verus! {

/// Whether a literal reads.
pub fn value_is_convertible(value: &ast::Value) -> (r: bool)
    ensures
        r == value_convertible(*value),
{
    match value {
        ast::Value::U32(u) => parse_unsigned(&u.number.value, 0xffff_ffffu64).is_some(),
        ast::Value::Field(_) => true,
        ast::Value::Boolean(b) => parse_bool(&b.value).is_some(),
    }
}

/// Whether a literal is a size literal.
pub fn count_is_convertible(count: &ast::Value) -> (r: bool)
    ensures
        r == count_convertible(*count),
{
    match count {
        ast::Value::U32(u) => parse_unsigned(&u.number.value, usize::MAX as u64).is_some(),
        _ => false,
    }
}

/// Whether a range bound is a `u32` literal that reads.
pub fn bound_is_convertible(bound: &ast::Expression) -> (r: bool)
    ensures
        r == bound_convertible(*bound),
{
    match bound {
        ast::Expression::Value(ast::Value::U32(u)) => parse_unsigned(
            &u.number.value,
            0xffff_ffffu64,
        ).is_some(),
        _ => false,
    }
}

/// Whether the bounds of a range convert.
pub fn range_is_convertible(range: &ast::Range) -> (r: bool)
    ensures
        r == range_convertible(*range),
{
    let from_ok = match &range.from {
        Some(from) => bound_is_convertible(&from.0),
        None => true,
    };
    let to_ok = match &range.to {
        Some(to) => bound_is_convertible(&to.0),
        None => true,
    };
    from_ok && to_ok
}

/// Whether the conversion accepts an expression.
pub fn expression_is_convertible(expression: &ast::Expression) -> (r: bool)
    ensures
        r == expression_convertible(*expression),
    decreases expression,
{
    match expression {
        ast::Expression::Value(value) => value_is_convertible(value),
        ast::Expression::Variable(_) => true,
        ast::Expression::Not(n) => expression_is_convertible(&n.expression),
        ast::Expression::Binary(b) => {
            match b.operation {
                // the conversion of `!=` does not terminate
                ast::BinaryOperator::Neq => false,
                _ => expression_is_convertible(&b.left) && expression_is_convertible(&b.right),
            }
        },
        ast::Expression::Ternary(t) => expression_is_convertible(&t.first)
            && expression_is_convertible(&t.second) && expression_is_convertible(&t.third),
        ast::Expression::ArrayInline(array) => {
            let mut i: usize = 0;
            while i < array.expressions.len()
                invariant
                    i <= array.expressions@.len(),
                    *expression == ast::Expression::ArrayInline(*array),
                    forall|j: int|
                        0 <= j < i ==> spread_or_expression_convertible(
                            #[trigger] array.expressions@[j],
                        ),
                decreases array.expressions@.len() - i,
            {
                proof {
                    assert(decreases_to!(*expression => (*expression)->ArrayInline_0));
                }
                if !spread_or_expression_is_convertible(&array.expressions[i]) {
                    return false;
                }
                i = i + 1;
            }
            true
        },
        ast::Expression::ArrayInitializer(array) => count_is_convertible(&array.count)
            && spread_or_expression_is_convertible(&array.expression),
        ast::Expression::StructInline(s) => {
            let mut i: usize = 0;
            while i < s.members.len()
                invariant
                    i <= s.members@.len(),
                    *expression == ast::Expression::StructInline(*s),
                    forall|j: int|
                        0 <= j < i ==> expression_convertible((#[trigger] s.members@[j]).expression),
                decreases s.members@.len() - i,
            {
                proof {
                    assert(decreases_to!(*expression => (*expression)->StructInline_0));
                }
                if !expression_is_convertible(&s.members[i].expression) {
                    return false;
                }
                i = i + 1;
            }
            true
        },
        ast::Expression::Postfix(p) => postfix_is_convertible(p),
    }
}

/// Whether the conversion accepts an array element.
pub fn spread_or_expression_is_convertible(s_or_e: &ast::SpreadOrExpression) -> (r: bool)
    ensures
        r == spread_or_expression_convertible(*s_or_e),
    decreases s_or_e,
{
    match s_or_e {
        ast::SpreadOrExpression::Spread(spread) => expression_is_convertible(&spread.expression),
        ast::SpreadOrExpression::Expression(e) => expression_is_convertible(e),
    }
}

/// Whether the conversion accepts an array index.
pub fn range_or_expression_is_convertible(r_or_e: &ast::RangeOrExpression) -> (r: bool)
    ensures
        r == range_or_expression_convertible(*r_or_e),
    decreases r_or_e,
{
    match r_or_e {
        ast::RangeOrExpression::Range(range) => range_is_convertible(range),
        ast::RangeOrExpression::Expression(e) => expression_is_convertible(e),
    }
}

/// Whether the conversion accepts all of some expressions.
pub fn expressions_are_convertible(expressions: &Vec<ast::Expression>) -> (r: bool)
    ensures
        r == expressions_convertible(*expressions),
    decreases expressions,
{
    let mut i: usize = 0;
    while i < expressions.len()
        invariant
            i <= expressions@.len(),
            forall|j: int| 0 <= j < i ==> expression_convertible(#[trigger] expressions@[j]),
        decreases expressions@.len() - i,
    {
        if !expression_is_convertible(&expressions[i]) {
            return false;
        }
        i = i + 1;
    }
    true
}

/// Whether the conversion accepts a postfix expression.
pub fn postfix_is_convertible(p: &ast::PostfixExpression) -> (r: bool)
    ensures
        r == postfix_convertible(*p, p.accesses@.len()),
    decreases p,
{
    let mut i: usize = 0;
    while i < p.accesses.len()
        invariant
            i <= p.accesses@.len(),
            postfix_convertible(*p, i as nat),
        decreases p.accesses@.len() - i,
    {
        proof {
            assert(decreases_to!(*p => p.accesses));
            if postfix_convertible(*p, p.accesses@.len()) {
                lemma_postfix_convertible_prefix(*p, p.accesses@.len(), (i + 1) as nat);
            }
        }
        let ok = match &p.accesses[i] {
            ast::Access::Call(c) => i == 0 && expressions_are_convertible(&c.expressions),
            ast::Access::Member(_) => true,
            ast::Access::Array(a) => range_or_expression_is_convertible(&a.expression),
        };
        if !ok {
            return false;
        }
        i = i + 1;
    }
    true
}

/// Whether the conversion accepts an assignee.
pub fn assignee_is_convertible(assignee: &ast::Assignee) -> (r: bool)
    ensures
        r == assignee_convertible(*assignee),
{
    let mut i: usize = 0;
    while i < assignee.accesses.len()
        invariant
            i <= assignee.accesses@.len(),
            forall|j: int|
                0 <= j < i ==> match #[trigger] assignee.accesses@[j] {
                    ast::AssigneeAccess::Array(arr) => range_or_expression_convertible(
                        arr.expression,
                    ),
                    ast::AssigneeAccess::Member(_) => true,
                },
        decreases assignee.accesses@.len() - i,
    {
        let ok = match &assignee.accesses[i] {
            ast::AssigneeAccess::Array(a) => range_or_expression_is_convertible(&a.expression),
            ast::AssigneeAccess::Member(_) => true,
        };
        if !ok {
            return false;
        }
        i = i + 1;
    }
    true
}

/// Whether the conversion accepts a type.
pub fn type_is_convertible(ty: &ast::Type) -> (r: bool)
    ensures
        r == type_convertible(*ty),
{
    match ty {
        ast::Type::Array(at) => count_is_convertible(&at.count),
        _ => true,
    }
}

/// Whether the conversion accepts a statement.
pub fn statement_is_convertible(statement: &ast::Statement) -> (r: bool)
    ensures
        r == statement_convertible(*statement),
    decreases statement,
{
    match statement {
        ast::Statement::Return(s) => expressions_are_convertible(&s.expressions),
        ast::Statement::Definition(s) => {
            let ty_ok = match &s.ty {
                Some(ty) => type_is_convertible(ty),
                None => true,
            };
            ty_ok && expression_is_convertible(&s.expression)
        },
        ast::Statement::Assign(s) => assignee_is_convertible(&s.assignee)
            && expression_is_convertible(&s.expression),
        ast::Statement::MultipleAssignment(s) => expressions_are_convertible(&s.arguments),
        ast::Statement::Conditional(c) => conditional_is_convertible(c),
        ast::Statement::Iteration(f) => bound_is_convertible(&f.start) && bound_is_convertible(
            &f.stop,
        ) && statements_are_convertible(&f.statements),
        ast::Statement::Assert(ast::AssertStatement::AssertEq(e)) => expression_is_convertible(
            &e.left,
        ) && expression_is_convertible(&e.right),
        ast::Statement::Expression(e) => expression_is_convertible(&e.expression),
    }
}

/// Whether the conversion accepts all of some statements.
pub fn statements_are_convertible(statements: &Vec<ast::Statement>) -> (r: bool)
    ensures
        r == statements_convertible(*statements),
    decreases statements,
{
    let mut i: usize = 0;
    while i < statements.len()
        invariant
            i <= statements@.len(),
            forall|j: int| 0 <= j < i ==> statement_convertible(#[trigger] statements@[j]),
        decreases statements@.len() - i,
    {
        if !statement_is_convertible(&statements[i]) {
            return false;
        }
        i = i + 1;
    }
    true
}

/// Whether the conversion accepts a conditional.
pub fn conditional_is_convertible(c: &ast::ConditionalStatement) -> (r: bool)
    ensures
        r == conditional_convertible(*c),
    decreases c,
{
    let next_ok = match &c.next {
        Some(n) => nested_or_end_is_convertible(n),
        None => true,
    };
    expression_is_convertible(&c.condition) && statements_are_convertible(&c.statements) && next_ok
}

/// Whether the conversion accepts what follows a conditional block.
pub fn nested_or_end_is_convertible(n: &ast::ConditionalNestedOrEnd) -> (r: bool)
    ensures
        r == nested_or_end_convertible(*n),
    decreases n,
{
    match n {
        ast::ConditionalNestedOrEnd::Nested(c) => conditional_is_convertible(c),
        ast::ConditionalNestedOrEnd::End(v) => statements_are_convertible(v),
    }
}

/// Whether the conversion accepts a struct definition.
pub fn struct_is_convertible(s: &ast::Struct) -> (r: bool)
    ensures
        r == struct_convertible(*s),
{
    let mut i: usize = 0;
    while i < s.fields.len()
        invariant
            i <= s.fields@.len(),
            forall|j: int| 0 <= j < i ==> type_convertible((#[trigger] s.fields@[j]).ty),
        decreases s.fields@.len() - i,
    {
        if !type_is_convertible(&s.fields[i].ty) {
            return false;
        }
        i = i + 1;
    }
    true
}

/// Whether the conversion accepts a function definition.
pub fn function_is_convertible(f: &ast::Function) -> (r: bool)
    ensures
        r == function_convertible(*f),
{
    let mut i: usize = 0;
    while i < f.parameters.len()
        invariant
            i <= f.parameters@.len(),
            forall|j: int| 0 <= j < i ==> type_convertible((#[trigger] f.parameters@[j]).ty),
        decreases f.parameters@.len() - i,
    {
        if !type_is_convertible(&f.parameters[i].ty) {
            return false;
        }
        i = i + 1;
    }
    let mut k: usize = 0;
    while k < f.returns.len()
        invariant
            k <= f.returns@.len(),
            forall|j: int| 0 <= j < f.parameters@.len() ==> type_convertible(
                (#[trigger] f.parameters@[j]).ty,
            ),
            forall|j: int| 0 <= j < k ==> type_convertible(#[trigger] f.returns@[j]),
        decreases f.returns@.len() - k,
    {
        if !type_is_convertible(&f.returns[k]) {
            return false;
        }
        k = k + 1;
    }
    statements_are_convertible(&f.statements)
}

/// Whether the conversion accepts a whole file.
pub fn file_is_convertible(file: &ast::File) -> (r: bool)
    ensures
        r == file_convertible(*file),
{
    let mut i: usize = 0;
    while i < file.structs.len()
        invariant
            i <= file.structs@.len(),
            forall|j: int| 0 <= j < i ==> struct_convertible(#[trigger] file.structs@[j]),
        decreases file.structs@.len() - i,
    {
        if !struct_is_convertible(&file.structs[i]) {
            return false;
        }
        i = i + 1;
    }
    let mut k: usize = 0;
    while k < file.functions.len()
        invariant
            k <= file.functions@.len(),
            forall|j: int| 0 <= j < file.structs@.len() ==> struct_convertible(
                #[trigger] file.structs@[j],
            ),
            forall|j: int| 0 <= j < k ==> function_convertible(#[trigger] file.functions@[j]),
        decreases file.functions@.len() - k,
    {
        if !function_is_convertible(&file.functions[k]) {
            return false;
        }
        k = k + 1;
    }
    true
}

} // verus!
