//! Conversion of expressions.

use vstd::prelude::*;

use crate::ast;
use crate::expression_spec::{
    bound_convertible, bound_value, count_convertible, count_value, expression_converts,
    expression_convertible, expressions_convert, expressions_convertible, parser_accepts_all,
    postfix_converts, postfix_convertible, range_or_expression_converts,
    range_or_expression_convertible, spread_or_expression_converts,
    spread_or_expression_convertible, u32_value, value_converts, value_convertible,
    variable_converts,
};
use crate::literal::{bool_value, parse_bool, parse_unsigned};
use crate::types::{
    Expression, Integer, RangeOrExpression, SpreadOrExpression, StructMember, Variable,
};

verus! {

impl Variable {
    /// A name, carried over as it is written.
    pub fn from_ast(variable: &ast::Variable) -> (r: Variable)
        ensures
            variable_converts(*variable, r),
    {
        Variable { name: variable.value.clone() }
    }
}

impl<F> Expression<F> {
    /// A name used as an expression.
    pub fn from_variable(variable: &ast::Variable) -> (r: Expression<F>)
        ensures
            r matches Expression::Variable(x) && variable_converts(*variable, x),
    {
        Expression::Variable(Variable::from_ast(variable))
    }

    /// A `u32` literal.
    pub fn from_u32(literal: &ast::U32) -> (r: Expression<F>)
        requires
            value_convertible(ast::Value::U32(*literal)),
        ensures
            r == Expression::<F>::Integer(Integer::U32(u32_value(*literal))),
    {
        match parse_unsigned(&literal.number.value, 0xffff_ffffu64) {
            Some(n) => Expression::Integer(Integer::U32(n as u32)),
            None => {
                proof {
                    assert(false);
                }
                Expression::Integer(Integer::U32(0))
            },
        }
    }

    /// A field element literal: its text is handed to `field_from_str`.
    pub fn from_field<P: Fn(&String) -> F>(literal: &ast::Field, field_from_str: &P) -> (r:
        Expression<F>)
        requires
            parser_accepts_all(*field_from_str),
        ensures
            value_converts(ast::Value::Field(*literal), r, *field_from_str),
    {
        Expression::FieldElement(field_from_str(&literal.number.value))
    }

    /// A boolean literal.
    pub fn from_boolean(literal: &ast::Boolean) -> (r: Expression<F>)
        requires
            value_convertible(ast::Value::Boolean(*literal)),
        ensures
            r == Expression::<F>::Boolean(bool_value(literal.value@)),
    {
        match parse_bool(&literal.value) {
            Some(b) => Expression::Boolean(b),
            None => {
                proof {
                    assert(false);
                }
                Expression::Boolean(false)
            },
        }
    }

    /// A literal.
    pub fn from_value<P: Fn(&String) -> F>(value: &ast::Value, field_from_str: &P) -> (r:
        Expression<F>)
        requires
            value_convertible(*value),
            parser_accepts_all(*field_from_str),
        ensures
            value_converts(*value, r, *field_from_str),
    {
        match value {
            ast::Value::U32(num) => Expression::from_u32(num),
            ast::Value::Field(fe) => Expression::from_field(fe, field_from_str),
            ast::Value::Boolean(b) => Expression::from_boolean(b),
        }
    }

    /// The size of an array, read from a `u32` literal.
    pub fn get_count(count: &ast::Value) -> (r: usize)
        requires
            count_convertible(*count),
        ensures
            r == count_value(*count),
    {
        match count {
            ast::Value::U32(f) => match parse_unsigned(&f.number.value, usize::MAX as u64) {
                Some(n) => n as usize,
                None => {
                    proof {
                        assert(false);
                    }
                    0
                },
            },
            _ => {
                proof {
                    assert(false);
                }
                0
            },
        }
    }

    /// `!expression`
    pub fn from_not<P: Fn(&String) -> F>(not: &ast::NotExpression, field_from_str: &P) -> (r:
        Expression<F>)
        requires
            expression_convertible(ast::Expression::Not(*not)),
            parser_accepts_all(*field_from_str),
        ensures
            expression_converts(ast::Expression::Not(*not), r, *field_from_str),
        decreases not,
    {
        Expression::Not(Box::new(Expression::from_expression(&not.expression, field_from_str)))
    }

    /// `left op right`
    pub fn from_binary<P: Fn(&String) -> F>(
        expression: &ast::BinaryExpression,
        field_from_str: &P,
    ) -> (r: Expression<F>)
        requires
            expression_convertible(ast::Expression::Binary(*expression)),
            parser_accepts_all(*field_from_str),
        ensures
            expression_converts(ast::Expression::Binary(*expression), r, *field_from_str),
        decreases expression,
    {
        let left = Box::new(Expression::from_expression(&expression.left, field_from_str));
        let right = Box::new(Expression::from_expression(&expression.right, field_from_str));
        match expression.operation {
            // Boolean operations
            ast::BinaryOperator::Or => Expression::Or(left, right),
            ast::BinaryOperator::And => Expression::And(left, right),
            ast::BinaryOperator::Eq => Expression::Eq(left, right),
            ast::BinaryOperator::Neq => {
                // not reached: the precondition leaves out `!=`, whose
                // conversion, `!` of the conversion of the same comparison,
                // never terminates
                proof {
                    assert(false);
                }
                Expression::Not(left)
            },
            ast::BinaryOperator::Geq => Expression::Geq(left, right),
            ast::BinaryOperator::Gt => Expression::Gt(left, right),
            ast::BinaryOperator::Leq => Expression::Leq(left, right),
            ast::BinaryOperator::Lt => Expression::Lt(left, right),
            // Number operations
            ast::BinaryOperator::Add => Expression::Add(left, right),
            ast::BinaryOperator::Sub => Expression::Sub(left, right),
            ast::BinaryOperator::Mul => Expression::Mul(left, right),
            ast::BinaryOperator::Div => Expression::Div(left, right),
            ast::BinaryOperator::Pow => Expression::Pow(left, right),
        }
    }

    /// `if first then second else third`
    pub fn from_ternary<P: Fn(&String) -> F>(
        expression: &ast::TernaryExpression,
        field_from_str: &P,
    ) -> (r: Expression<F>)
        requires
            expression_convertible(ast::Expression::Ternary(*expression)),
            parser_accepts_all(*field_from_str),
        ensures
            expression_converts(ast::Expression::Ternary(*expression), r, *field_from_str),
        decreases expression,
    {
        Expression::IfElse(
            Box::new(Expression::from_expression(&expression.first, field_from_str)),
            Box::new(Expression::from_expression(&expression.second, field_from_str)),
            Box::new(Expression::from_expression(&expression.third, field_from_str)),
        )
    }

    /// `[a, ...b, c]`: each element converted in order.
    pub fn from_array_inline<P: Fn(&String) -> F>(
        array: &ast::ArrayInlineExpression,
        field_from_str: &P,
    ) -> (r: Expression<F>)
        requires
            expression_convertible(ast::Expression::ArrayInline(*array)),
            parser_accepts_all(*field_from_str),
        ensures
            expression_converts(ast::Expression::ArrayInline(*array), r, *field_from_str),
        decreases array,
    {
        let mut elements: Vec<Box<SpreadOrExpression<F>>> = Vec::new();
        let mut i: usize = 0;
        while i < array.expressions.len()
            invariant
                i <= array.expressions@.len(),
                elements@.len() == i,
                parser_accepts_all(*field_from_str),
                expression_convertible(ast::Expression::ArrayInline(*array)),
                forall|j: int|
                    0 <= j < i ==> spread_or_expression_converts(
                        #[trigger] array.expressions@[j],
                        *elements@[j],
                        *field_from_str,
                    ),
            decreases array.expressions@.len() - i,
        {
            proof {
                assert(decreases_to!(*array => array.expressions));
                let ghost e = ast::Expression::ArrayInline(*array);
                assert(e->ArrayInline_0 == *array);
            }
            let element = SpreadOrExpression::from_ast(&array.expressions[i], field_from_str);
            elements.push(Box::new(element));
            i = i + 1;
        }
        Expression::Array(elements)
    }

    /// `[expression; count]`: `count` elements, each the conversion of
    /// `expression`.
    pub fn from_array_initializer<P: Fn(&String) -> F>(
        array: &ast::ArrayInitializerExpression,
        field_from_str: &P,
    ) -> (r: Expression<F>)
        requires
            expression_convertible(ast::Expression::ArrayInitializer(*array)),
            parser_accepts_all(*field_from_str),
        ensures
            expression_converts(ast::Expression::ArrayInitializer(*array), r, *field_from_str),
        decreases array,
    {
        let count = Expression::<F>::get_count(&array.count);
        let mut elements: Vec<Box<SpreadOrExpression<F>>> = Vec::new();
        let mut i: usize = 0;
        while i < count
            invariant
                i <= count,
                count == count_value(array.count),
                elements@.len() == i,
                parser_accepts_all(*field_from_str),
                expression_convertible(ast::Expression::ArrayInitializer(*array)),
                forall|j: int|
                    0 <= j < i ==> spread_or_expression_converts(
                        *array.expression,
                        *#[trigger] elements@[j],
                        *field_from_str,
                    ),
            decreases count - i,
        {
            let element = SpreadOrExpression::from_ast(&array.expression, field_from_str);
            elements.push(Box::new(element));
            i = i + 1;
        }
        Expression::Array(elements)
    }

    /// `Name { a: x, b: y }`
    pub fn from_struct_inline<P: Fn(&String) -> F>(
        expression: &ast::StructInlineExpression,
        field_from_str: &P,
    ) -> (r: Expression<F>)
        requires
            expression_convertible(ast::Expression::StructInline(*expression)),
            parser_accepts_all(*field_from_str),
        ensures
            expression_converts(ast::Expression::StructInline(*expression), r, *field_from_str),
        decreases expression,
    {
        let variable = Variable::from_ast(&expression.variable);
        let mut members: Vec<StructMember<F>> = Vec::new();
        let mut i: usize = 0;
        while i < expression.members.len()
            invariant
                i <= expression.members@.len(),
                members@.len() == i,
                parser_accepts_all(*field_from_str),
                expression_convertible(ast::Expression::StructInline(*expression)),
                forall|j: int|
                    0 <= j < i ==> variable_converts(
                        (#[trigger] expression.members@[j]).variable,
                        members@[j].variable,
                    ) && expression_converts(
                        expression.members@[j].expression,
                        members@[j].expression,
                        *field_from_str,
                    ),
            decreases expression.members@.len() - i,
        {
            proof {
                assert(decreases_to!(*expression => expression.members));
            }
            let member = StructMember::from_inline(&expression.members[i], field_from_str);
            members.push(member);
            i = i + 1;
        }
        Expression::Struct(variable, members)
    }

    /// A name followed by accesses. The accesses are applied in turn, each
    /// wrapping what the previous ones built: `a(34)[42]` becomes
    /// `ArrayAccess(FunctionCall(a, [34]), 42)`.
    pub fn from_postfix<P: Fn(&String) -> F>(
        expression: &ast::PostfixExpression,
        field_from_str: &P,
    ) -> (r: Expression<F>)
        requires
            expression_convertible(ast::Expression::Postfix(*expression)),
            parser_accepts_all(*field_from_str),
        ensures
            expression_converts(ast::Expression::Postfix(*expression), r, *field_from_str),
        decreases expression,
    {
        let mut acc: Expression<F> = Expression::from_variable(&expression.variable);
        let mut i: usize = 0;
        while i < expression.accesses.len()
            invariant
                i <= expression.accesses@.len(),
                parser_accepts_all(*field_from_str),
                expression_convertible(ast::Expression::Postfix(*expression)),
                postfix_converts(*expression, i as nat, acc, *field_from_str),
            decreases expression.accesses@.len() - i,
        {
            proof {
                lemma_postfix_convertible_prefix(*expression, expression.accesses@.len(), (i + 1) as nat);
                assert(decreases_to!(*expression => expression.accesses));
            }
            match &expression.accesses[i] {
                ast::Access::Call(function) => {
                    let arguments = Expression::from_expressions(&function.expressions, field_from_str);
                    acc = match acc {
                        Expression::Variable(variable) => Expression::FunctionCall(variable, arguments),
                        other => {
                            // only names are callable, and a call stands right after the name
                            proof {
                                assert(false);
                            }
                            other
                        },
                    };
                },
                ast::Access::Member(member) => {
                    acc = Expression::StructMemberAccess(Box::new(acc), Variable::from_ast(&member.variable));
                },
                ast::Access::Array(array) => {
                    let index = RangeOrExpression::from_ast(&array.expression, field_from_str);
                    acc = Expression::ArrayAccess(Box::new(acc), Box::new(index));
                },
            }
            i = i + 1;
        }
        acc
    }

    /// Expressions converted in order.
    pub fn from_expressions<P: Fn(&String) -> F>(
        expressions: &Vec<ast::Expression>,
        field_from_str: &P,
    ) -> (r: Vec<Expression<F>>)
        requires
            expressions_convertible(*expressions),
            parser_accepts_all(*field_from_str),
        ensures
            expressions_convert(*expressions, r, *field_from_str),
        decreases expressions,
    {
        let mut out: Vec<Expression<F>> = Vec::new();
        let mut i: usize = 0;
        while i < expressions.len()
            invariant
                i <= expressions@.len(),
                out@.len() == i,
                parser_accepts_all(*field_from_str),
                expressions_convertible(*expressions),
                forall|j: int|
                    0 <= j < i ==> expression_converts(
                        #[trigger] expressions@[j],
                        out@[j],
                        *field_from_str,
                    ),
            decreases expressions@.len() - i,
        {
            let e = Expression::from_expression(&expressions[i], field_from_str);
            out.push(e);
            i = i + 1;
        }
        out
    }

    /// An expression.
    pub fn from_expression<P: Fn(&String) -> F>(
        expression: &ast::Expression,
        field_from_str: &P,
    ) -> (r: Expression<F>)
        requires
            expression_convertible(*expression),
            parser_accepts_all(*field_from_str),
        ensures
            expression_converts(*expression, r, *field_from_str),
        decreases expression,
    {
        match expression {
            ast::Expression::Value(value) => Expression::from_value(value, field_from_str),
            ast::Expression::Variable(variable) => Expression::from_variable(variable),
            ast::Expression::Not(e) => Expression::from_not(e, field_from_str),
            ast::Expression::Binary(e) => Expression::from_binary(e, field_from_str),
            ast::Expression::Ternary(e) => Expression::from_ternary(e, field_from_str),
            ast::Expression::ArrayInline(e) => Expression::from_array_inline(e, field_from_str),
            ast::Expression::ArrayInitializer(e) => Expression::from_array_initializer(
                e,
                field_from_str,
            ),
            ast::Expression::StructInline(e) => Expression::from_struct_inline(e, field_from_str),
            ast::Expression::Postfix(e) => Expression::from_postfix(e, field_from_str),
        }
    }
}

/// A postfix expression whose first `n` accesses convert has convertible
/// first `m` accesses for every `m <= n`.
pub proof fn lemma_postfix_convertible_prefix(p: ast::PostfixExpression, n: nat, m: nat)
    requires
        postfix_convertible(p, n),
        m <= n,
    ensures
        postfix_convertible(p, m),
        m >= 1 ==> match p.accesses@[m - 1] {
            ast::Access::Call(c) => m == 1 && expressions_convertible(c.expressions),
            ast::Access::Member(_) => true,
            ast::Access::Array(arr) => range_or_expression_convertible(arr.expression),
        },
    decreases n - m,
{
    if m < n {
        lemma_postfix_convertible_prefix(p, (n - 1) as nat, m);
    }
}

impl<F> SpreadOrExpression<F> {
    /// An array element.
    pub fn from_ast<P: Fn(&String) -> F>(s_or_e: &ast::SpreadOrExpression, field_from_str: &P) -> (r:
        SpreadOrExpression<F>)
        requires
            spread_or_expression_convertible(*s_or_e),
            parser_accepts_all(*field_from_str),
        ensures
            spread_or_expression_converts(*s_or_e, r, *field_from_str),
        decreases s_or_e,
    {
        match s_or_e {
            ast::SpreadOrExpression::Spread(spread) => SpreadOrExpression::Spread(
                Expression::from_expression(&spread.expression, field_from_str),
            ),
            ast::SpreadOrExpression::Expression(expression) => SpreadOrExpression::Expression(
                Expression::from_expression(expression, field_from_str),
            ),
        }
    }
}

impl<F> RangeOrExpression<F> {
    /// A range bound: converted as an expression, which must be a constant.
    pub fn bound_from<P: Fn(&String) -> F>(bound: &ast::Expression, field_from_str: &P) -> (r: Integer)
        requires
            bound_convertible(*bound),
            parser_accepts_all(*field_from_str),
        ensures
            r == bound_value(*bound),
    {
        match bound {
            ast::Expression::Value(value) => match Expression::from_value(value, field_from_str) {
                Expression::Integer(number) => number,
                _ => {
                    proof {
                        assert(false);
                    }
                    Integer::U32(0)
                },
            },
            _ => {
                // range bounds are `u32` literals
                proof {
                    assert(false);
                }
                Integer::U32(0)
            },
        }
    }

    /// An array index.
    pub fn from_ast<P: Fn(&String) -> F>(
        range_or_expression: &ast::RangeOrExpression,
        field_from_str: &P,
    ) -> (r: RangeOrExpression<F>)
        requires
            range_or_expression_convertible(*range_or_expression),
            parser_accepts_all(*field_from_str),
        ensures
            range_or_expression_converts(*range_or_expression, r, *field_from_str),
        decreases range_or_expression,
    {
        match range_or_expression {
            ast::RangeOrExpression::Range(range) => {
                let from = match &range.from {
                    Some(from) => Some(RangeOrExpression::<F>::bound_from(&from.0, field_from_str)),
                    None => None,
                };
                let to = match &range.to {
                    Some(to) => Some(RangeOrExpression::<F>::bound_from(&to.0, field_from_str)),
                    None => None,
                };
                RangeOrExpression::Range(from, to)
            },
            ast::RangeOrExpression::Expression(expression) => RangeOrExpression::Expression(
                Expression::from_expression(expression, field_from_str),
            ),
        }
    }
}

impl<F> StructMember<F> {
    /// `variable: expression` inside a struct literal.
    pub fn from_inline<P: Fn(&String) -> F>(member: &ast::InlineStructMember, field_from_str: &P) -> (r:
        StructMember<F>)
        requires
            expression_convertible(member.expression),
            parser_accepts_all(*field_from_str),
        ensures
            variable_converts(member.variable, r.variable),
            expression_converts(member.expression, r.expression, *field_from_str),
        decreases member,
    {
        StructMember {
            variable: Variable::from_ast(&member.variable),
            expression: Expression::from_expression(&member.expression, field_from_str),
        }
    }
}

} // verus!
