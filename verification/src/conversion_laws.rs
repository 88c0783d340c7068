//! Laws on what single constructs convert to, stated against independent
//! descriptions of their inputs: a number written out in decimal, and the
//! conversion of a bound read as an expression.

use vstd::prelude::*;

use crate::ast;
use crate::definition_spec::{basic_type, type_convertible, type_converts};
use crate::expression_spec::{
    expression_converts, expression_convertible, range_convertible,
    range_or_expression_converts, value_convertible,
};
use crate::literal::{all_digits, digit_value, digits_value, parses_unsigned, unsigned_value};
use crate::statement_spec::{statement_convertible, statement_converts};
use crate::types;

verus! {

/// The decimal digit for `d`, for `0 <= d <= 9`.
pub open spec fn digit_char(d: int) -> char {
    if d == 0 {
        '0'
    } else if d == 1 {
        '1'
    } else if d == 2 {
        '2'
    } else if d == 3 {
        '3'
    } else if d == 4 {
        '4'
    } else if d == 5 {
        '5'
    } else if d == 6 {
        '6'
    } else if d == 7 {
        '7'
    } else if d == 8 {
        '8'
    } else {
        '9'
    }
}

/// `v` written out in decimal, without leading zeros.
pub open spec fn decimal(v: nat) -> Seq<char>
    decreases v,
{
    if v < 10 {
        seq![digit_char(v as int)]
    } else {
        decimal(v / 10).push(digit_char((v % 10) as int))
    }
}

/// Decimal digits denote the number they write out.
pub proof fn lemma_decimal(v: nat)
    ensures
        decimal(v).len() > 0,
        all_digits(decimal(v)),
        decimal(v)[0] != '+',
        digits_value(decimal(v)) == v,
    decreases v,
{
    if v < 10 {
        let s = decimal(v);
        assert(s.drop_last() =~= Seq::<char>::empty());
        assert(digit_value(digit_char(v as int)) == v);
        assert(s.last() == digit_char(v as int));
        assert(digits_value(s.drop_last()) == 0);
        assert(digits_value(s) == digits_value(s.drop_last()) * 10 + digit_value(s.last()));
    } else {
        lemma_decimal(v / 10);
        let s = decimal(v);
        assert(s.drop_last() =~= decimal(v / 10));
        assert(digit_value(digit_char((v % 10) as int)) == v % 10);
        assert(s.last() == digit_char((v % 10) as int));
        assert((v / 10) * 10 + v % 10 == v);
        assert(digits_value(s) == digits_value(s.drop_last()) * 10 + digit_value(s.last()));
        assert(all_digits(s)) by {
            assert forall|i: int| 0 <= i < s.len() implies crate::literal::is_digit(#[trigger] s[i]) by {
                if i < s.len() - 1 {
                    assert(s[i] == decimal(v / 10)[i]);
                }
            }
        }
    }
}

/// A `u32` literal written as `v` in decimal, with or without a leading
/// `+`, is read as `v`.
pub proof fn lemma_decimal_reads(v: nat, text: Seq<char>, max: int)
    requires
        v <= max,
        text == decimal(v) || text == seq!['+'] + decimal(v),
    ensures
        parses_unsigned(text, max),
        unsigned_value(text) == v,
{
    lemma_decimal(v);
    if text != decimal(v) {
        assert(text.drop_first() =~= decimal(v));
    }
}

/// A `u32` literal converts to the integer its digits write out: the
/// literal of any `v` in decimal, with or without a leading `+`, converts,
/// and to `v`.
pub proof fn law_u32_literal<F, P: Fn(&String) -> F>(
    literal: ast::U32,
    v: u32,
    t: types::Expression<F>,
    pf: P,
)
    requires
        literal.number.value@ == decimal(v as nat) || literal.number.value@ == seq!['+'] + decimal(
            v as nat,
        ),
    ensures
        expression_convertible(ast::Expression::Value(ast::Value::U32(literal))),
        expression_converts(ast::Expression::Value(ast::Value::U32(literal)), t, pf) ==> t
            == types::Expression::<F>::Integer(types::Integer::U32(v)),
{
    lemma_decimal_reads(v as nat, literal.number.value@, u32::MAX as int);
}

/// An array size converts to the number its digits write out: the size
/// literal of any `n` in decimal gives an array type of size `n`, and an
/// array initializer of `n` elements.
pub proof fn law_array_size<F, P: Fn(&String) -> F>(
    array_type: ast::ArrayType,
    initializer: ast::ArrayInitializerExpression,
    n: usize,
    t: types::Type,
    e: types::Expression<F>,
    pf: P,
)
    requires
        array_type.count matches ast::Value::U32(u) && u.number.value@ == decimal(n as nat),
        initializer.count == array_type.count,
    ensures
        type_convertible(ast::Type::Array(array_type)),
        type_converts(ast::Type::Array(array_type), t) ==> t == types::Type::Array(
            Box::new(basic_type(array_type.ty)),
            n,
        ),
        expression_converts(ast::Expression::ArrayInitializer(initializer), e, pf) ==> (e matches types::Expression::Array(
            v,
        ) && v@.len() == n),
{
    let u = array_type.count->U32_0;
    lemma_decimal_reads(n as nat, u.number.value@, usize::MAX as int);
}

/// Each bound of a range converts to what its own literal converts to as
/// an expression, and is left out exactly when the range leaves it out.
pub proof fn law_range_bounds<F, P: Fn(&String) -> F>(
    range: ast::Range,
    t: types::RangeOrExpression<F>,
    pf: P,
)
    requires
        range_convertible(range),
        range_or_expression_converts(ast::RangeOrExpression::Range(range), t, pf),
    ensures
        t matches types::RangeOrExpression::Range(from, to) && {
            &&& (range.from is None <==> from is None)
            &&& (range.to is None <==> to is None)
            &&& (range.from matches Some(b) ==> expression_converts(
                b.0,
                types::Expression::Integer(from.unwrap()),
                pf,
            ))
            &&& (range.to matches Some(b) ==> expression_converts(
                b.0,
                types::Expression::Integer(to.unwrap()),
                pf,
            ))
        },
{
}

/// The bounds of a `for` loop convert to what their literals convert to as
/// expressions.
pub proof fn law_loop_bounds<F, P: Fn(&String) -> F>(
    statement: ast::ForStatement,
    t: types::Statement<F>,
    pf: P,
)
    requires
        statement_convertible(ast::Statement::Iteration(statement)),
        statement_converts(ast::Statement::Iteration(statement), t, pf),
    ensures
        t matches types::Statement::For(_, from, to, _) && expression_converts(
            statement.start,
            types::Expression::Integer(from),
            pf,
        ) && expression_converts(statement.stop, types::Expression::Integer(to), pf),
{
}

/// A boolean literal converts exactly when it is `true` or `false`, and to
/// the truth value it names.
pub proof fn law_boolean_literal<F, P: Fn(&String) -> F>(
    literal: ast::Boolean,
    t: types::Expression<F>,
    pf: P,
)
    ensures
        expression_convertible(ast::Expression::Value(ast::Value::Boolean(literal))) <==> (
        literal.value@ == "true"@ || literal.value@ == "false"@),
        literal.value@ == "true"@ && expression_converts(
            ast::Expression::Value(ast::Value::Boolean(literal)),
            t,
            pf,
        ) ==> t == types::Expression::<F>::Boolean(true),
        literal.value@ == "false"@ && expression_converts(
            ast::Expression::Value(ast::Value::Boolean(literal)),
            t,
            pf,
        ) ==> t == types::Expression::<F>::Boolean(false),
{
    reveal_strlit("true");
    reveal_strlit("false");
    assert("true"@.len() != "false"@.len());
}

/// A field element literal always converts, to an element that the parser
/// gives for the literal's own text.
pub proof fn law_field_literal<F, P: Fn(&String) -> F>(
    literal: ast::Field,
    t: types::Expression<F>,
    pf: P,
)
    ensures
        expression_convertible(ast::Expression::Value(ast::Value::Field(literal))),
        expression_converts(ast::Expression::Value(ast::Value::Field(literal)), t, pf) ==> (t matches types::Expression::FieldElement(
            x,
        ) && call_ensures(pf, (&literal.number.value,), x)),
{
}

/// A name converts to a name with the same text.
pub proof fn law_name<F, P: Fn(&String) -> F>(
    variable: ast::Variable,
    t: types::Expression<F>,
    pf: P,
)
    ensures
        expression_convertible(ast::Expression::Variable(variable)),
        expression_converts(ast::Expression::Variable(variable), t, pf) ==> (t matches types::Expression::Variable(
            x,
        ) && x.name@ == variable.value@),
{
}

/// Each binary operator other than `!=` converts to its own operation, on
/// the conversions of the left and the right operand, in that order.
pub proof fn law_binary_operators<F, P: Fn(&String) -> F>(
    b: ast::BinaryExpression,
    t: types::Expression<F>,
    pf: P,
)
    requires
        expression_converts(ast::Expression::Binary(b), t, pf),
    ensures
        b.operation != ast::BinaryOperator::Neq,
        b.operation == ast::BinaryOperator::Or ==> t is Or,
        b.operation == ast::BinaryOperator::And ==> t is And,
        b.operation == ast::BinaryOperator::Eq ==> t is Eq,
        b.operation == ast::BinaryOperator::Geq ==> t is Geq,
        b.operation == ast::BinaryOperator::Gt ==> t is Gt,
        b.operation == ast::BinaryOperator::Leq ==> t is Leq,
        b.operation == ast::BinaryOperator::Lt ==> t is Lt,
        b.operation == ast::BinaryOperator::Add ==> t is Add,
        b.operation == ast::BinaryOperator::Sub ==> t is Sub,
        b.operation == ast::BinaryOperator::Mul ==> t is Mul,
        b.operation == ast::BinaryOperator::Div ==> t is Div,
        b.operation == ast::BinaryOperator::Pow ==> t is Pow,
        exists|l: types::Expression<F>, r: types::Expression<F>|
            expression_converts(*b.left, l, pf) && expression_converts(*b.right, r, pf) && (
            #[trigger] binary_parts(t)) == Some((l, r)),
{
    let (l, r) = crate::expression_spec::binary_operands(b.operation, t).unwrap();
    assert(binary_parts(t) == Some((*l, *r)));
}

/// The two operands of a binary operation, in order.
pub open spec fn binary_parts<F>(t: types::Expression<F>) -> Option<
    (types::Expression<F>, types::Expression<F>),
> {
    match t {
        types::Expression::Or(l, r) => Some((*l, *r)),
        types::Expression::And(l, r) => Some((*l, *r)),
        types::Expression::Eq(l, r) => Some((*l, *r)),
        types::Expression::Geq(l, r) => Some((*l, *r)),
        types::Expression::Gt(l, r) => Some((*l, *r)),
        types::Expression::Leq(l, r) => Some((*l, *r)),
        types::Expression::Lt(l, r) => Some((*l, *r)),
        types::Expression::Add(l, r) => Some((*l, *r)),
        types::Expression::Sub(l, r) => Some((*l, *r)),
        types::Expression::Mul(l, r) => Some((*l, *r)),
        types::Expression::Div(l, r) => Some((*l, *r)),
        types::Expression::Pow(l, r) => Some((*l, *r)),
        _ => None,
    }
}

/// `x op= y` assigns to `x` its own operation: `+=` an addition, `-=` a
/// subtraction, `*=` a product, `/=` a quotient, `**=` a power; `x = y`
/// assigns the conversion of `y` itself.
pub proof fn law_assignment_operators<F, P: Fn(&String) -> F>(
    s: ast::AssignStatement,
    t: types::Statement<F>,
    pf: P,
)
    requires
        crate::statement_spec::assign_converts(s, t, pf),
    ensures
        t matches types::Statement::Assign(_, value) && {
            &&& s.assign == ast::OperationAssign::Assign ==> expression_converts(s.expression, value, pf)
            &&& s.assign == ast::OperationAssign::AddAssign ==> value is Add
            &&& s.assign == ast::OperationAssign::SubAssign ==> value is Sub
            &&& s.assign == ast::OperationAssign::MulAssign ==> value is Mul
            &&& s.assign == ast::OperationAssign::DivAssign ==> value is Div
            &&& s.assign == ast::OperationAssign::PowAssign ==> value is Pow
            &&& s.assign != ast::OperationAssign::Assign ==> (binary_parts(value) matches Some((_, r))
                && expression_converts(s.expression, r, pf))
        },
{
    let value = t->Assign_1;
    if s.assign != ast::OperationAssign::Assign {
        let (l, r) = crate::statement_spec::compound_operands(s.assign, value).unwrap();
        assert(binary_parts(value) == Some((*l, *r)));
    }
}

/// The basic types convert to their own types, a struct type to the type of
/// the struct of that name.
pub proof fn law_basic_and_struct_types(b: ast::BasicType, st: ast::StructType, t: types::Type)
    ensures
        type_convertible(ast::Type::Basic(b)),
        type_convertible(ast::Type::Struct(st)),
        b == ast::BasicType::U32 && type_converts(ast::Type::Basic(b), t) ==> t == types::Type::U32,
        b == ast::BasicType::Field && type_converts(ast::Type::Basic(b), t) ==> t
            == types::Type::FieldElement,
        b == ast::BasicType::Boolean && type_converts(ast::Type::Basic(b), t) ==> t
            == types::Type::Boolean,
        type_converts(ast::Type::Struct(st), t) ==> (t matches types::Type::Struct(x) && x.name@
            == st.variable.value@),
{
}

/// A parameter is public exactly when it is declared public: without a
/// visibility, or declared private, it is private.
pub proof fn law_parameter_visibility(p: ast::Parameter, t: types::ParameterModel)
    requires
        crate::definition_spec::parameter_converts(p, t),
    ensures
        p.visibility == Some(ast::Visibility::Public) ==> !t.private,
        p.visibility == Some(ast::Visibility::Private) ==> t.private,
        p.visibility is None ==> t.private,
        t.variable.name@ == p.variable.value@,
{
}

} // verus!
