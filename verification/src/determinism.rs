//! A syntax tree has one conversion, up to sameness, when the field element
//! parser depends only on the text it is given.

use vstd::prelude::*;

use crate::ast;
use crate::expression_spec::{
    binary_operands, expression_converts, expressions_convert, postfix_converts,
    range_or_expression_converts, spread_or_expression_converts,
};
use crate::sameness::{
    expression_same, expressions_same, range_or_expression_same, spread_or_expression_same,
};
use crate::definition_spec::{
    basic_type, function_converts, import_converts, optional_type_converts, struct_converts,
    type_converts,
};
use crate::sameness::{
    assignee_same, conditional_same, function_same, import_same, nested_or_end_same,
    optional_type_same, statement_same, statements_same, struct_same, type_same, variable_same,
};
use crate::statement_spec::{
    assign_converts, assignee_converts, assignee_expression_converts, compound_operands,
    conditional_converts, nested_or_end_converts, statement_converts, statements_convert,
};
use crate::types;

verus! {

/// The parser gives the same element for the same text.
pub open spec fn parser_deterministic<F, P: Fn(&String) -> F>(pf: P) -> bool {
    forall|s1: &String, s2: &String, x: F, y: F|
        #![trigger call_ensures(pf, (s1,), x), call_ensures(pf, (s2,), y)]
        s1@ == s2@ && call_ensures(pf, (s1,), x) && call_ensures(pf, (s2,), y) ==> x == y
}

/// Two conversions of one expression are the same.
pub proof fn lemma_expression_deterministic<F, P: Fn(&String) -> F>(
    e: ast::Expression,
    t1: types::Expression<F>,
    t2: types::Expression<F>,
    pf: P,
)
    requires
        parser_deterministic(pf),
        expression_converts(e, t1, pf),
        expression_converts(e, t2, pf),
    ensures
        expression_same(t1, t2),
    decreases e, 0nat,
{
    match e {
        ast::Expression::Value(v) => {},
        ast::Expression::Variable(_) => {},
        ast::Expression::Not(n) => {
            lemma_expression_deterministic(*n.expression, *t1->Not_0, *t2->Not_0, pf);
        },
        ast::Expression::Binary(b) => {
            let (l1, r1) = binary_operands(b.operation, t1).unwrap();
            let (l2, r2) = binary_operands(b.operation, t2).unwrap();
            lemma_expression_deterministic(*b.left, *l1, *l2, pf);
            lemma_expression_deterministic(*b.right, *r1, *r2, pf);
        },
        ast::Expression::Ternary(x) => {
            lemma_expression_deterministic(*x.first, *t1->IfElse_0, *t2->IfElse_0, pf);
            lemma_expression_deterministic(*x.second, *t1->IfElse_1, *t2->IfElse_1, pf);
            lemma_expression_deterministic(*x.third, *t1->IfElse_2, *t2->IfElse_2, pf);
        },
        ast::Expression::ArrayInline(arr) => {
            let v1 = t1->Array_0;
            let v2 = t2->Array_0;
            assert forall|i: int| 0 <= i < v1@.len() implies spread_or_expression_same(
                *#[trigger] v1@[i],
                *v2@[i],
            ) by {
                lemma_spread_or_expression_deterministic(arr.expressions@[i], *v1@[i], *v2@[i], pf);
            }
        },
        ast::Expression::ArrayInitializer(arr) => {
            let v1 = t1->Array_0;
            let v2 = t2->Array_0;
            assert forall|i: int| 0 <= i < v1@.len() implies spread_or_expression_same(
                *#[trigger] v1@[i],
                *v2@[i],
            ) by {
                lemma_spread_or_expression_deterministic(*arr.expression, *v1@[i], *v2@[i], pf);
            }
        },
        ast::Expression::StructInline(s) => {
            let m1 = t1->Struct_1;
            let m2 = t2->Struct_1;
            assert forall|i: int| 0 <= i < m1@.len() implies crate::sameness::variable_same(
                (#[trigger] m1@[i]).variable,
                m2@[i].variable,
            ) && expression_same(m1@[i].expression, m2@[i].expression) by {
                lemma_expression_deterministic(
                    s.members@[i].expression,
                    m1@[i].expression,
                    m2@[i].expression,
                    pf,
                );
            }
        },
        ast::Expression::Postfix(p) => {
            lemma_postfix_deterministic(p, p.accesses@.len(), t1, t2, pf);
        },
    }
}

/// Two conversions of one array element are the same.
pub proof fn lemma_spread_or_expression_deterministic<F, P: Fn(&String) -> F>(
    s: ast::SpreadOrExpression,
    t1: types::SpreadOrExpression<F>,
    t2: types::SpreadOrExpression<F>,
    pf: P,
)
    requires
        parser_deterministic(pf),
        spread_or_expression_converts(s, t1, pf),
        spread_or_expression_converts(s, t2, pf),
    ensures
        spread_or_expression_same(t1, t2),
    decreases s, 0nat,
{
    match s {
        ast::SpreadOrExpression::Spread(sp) => {
            lemma_expression_deterministic(sp.expression, t1->Spread_0, t2->Spread_0, pf);
        },
        ast::SpreadOrExpression::Expression(e) => {
            lemma_expression_deterministic(e, t1->Expression_0, t2->Expression_0, pf);
        },
    }
}

/// Two conversions of one array index are the same.
pub proof fn lemma_range_or_expression_deterministic<F, P: Fn(&String) -> F>(
    r: ast::RangeOrExpression,
    t1: types::RangeOrExpression<F>,
    t2: types::RangeOrExpression<F>,
    pf: P,
)
    requires
        parser_deterministic(pf),
        range_or_expression_converts(r, t1, pf),
        range_or_expression_converts(r, t2, pf),
    ensures
        range_or_expression_same(t1, t2),
    decreases r, 0nat,
{
    match r {
        ast::RangeOrExpression::Range(_) => {},
        ast::RangeOrExpression::Expression(e) => {
            lemma_expression_deterministic(e, t1->Expression_0, t2->Expression_0, pf);
        },
    }
}

/// Two conversions of one list of expressions are the same.
pub proof fn lemma_expressions_deterministic<F, P: Fn(&String) -> F>(
    v: Vec<ast::Expression>,
    t1: Vec<types::Expression<F>>,
    t2: Vec<types::Expression<F>>,
    pf: P,
)
    requires
        parser_deterministic(pf),
        expressions_convert(v, t1, pf),
        expressions_convert(v, t2, pf),
    ensures
        expressions_same(t1, t2),
    decreases v, 0nat,
{
    assert forall|i: int| 0 <= i < t1@.len() implies expression_same(#[trigger] t1@[i], t2@[i]) by {
        lemma_expression_deterministic(v@[i], t1@[i], t2@[i], pf);
    }
}

/// Two conversions of one postfix expression are the same.
pub proof fn lemma_postfix_deterministic<F, P: Fn(&String) -> F>(
    p: ast::PostfixExpression,
    n: nat,
    t1: types::Expression<F>,
    t2: types::Expression<F>,
    pf: P,
)
    requires
        parser_deterministic(pf),
        postfix_converts(p, n, t1, pf),
        postfix_converts(p, n, t2, pf),
    ensures
        expression_same(t1, t2),
    decreases p, n,
{
    if n > 0 {
        match p.accesses@[n - 1] {
            ast::Access::Call(c) => {
                lemma_postfix_deterministic(
                    p,
                    (n - 1) as nat,
                    types::Expression::Variable(t1->FunctionCall_0),
                    types::Expression::Variable(t2->FunctionCall_0),
                    pf,
                );
                lemma_expressions_deterministic(
                    c.expressions,
                    t1->FunctionCall_1,
                    t2->FunctionCall_1,
                    pf,
                );
            },
            ast::Access::Member(_) => {
                lemma_postfix_deterministic(
                    p,
                    (n - 1) as nat,
                    *t1->StructMemberAccess_0,
                    *t2->StructMemberAccess_0,
                    pf,
                );
            },
            ast::Access::Array(arr) => {
                lemma_postfix_deterministic(
                    p,
                    (n - 1) as nat,
                    *t1->ArrayAccess_0,
                    *t2->ArrayAccess_0,
                    pf,
                );
                lemma_range_or_expression_deterministic(
                    arr.expression,
                    *t1->ArrayAccess_1,
                    *t2->ArrayAccess_1,
                    pf,
                );
            },
        }
    }
}

/// Two conversions of one assignee, as places, are the same.
pub proof fn lemma_assignee_deterministic<F, P: Fn(&String) -> F>(
    a: ast::Assignee,
    n: nat,
    t1: types::Assignee<F>,
    t2: types::Assignee<F>,
    pf: P,
)
    requires
        parser_deterministic(pf),
        assignee_converts(a, n, t1, pf),
        assignee_converts(a, n, t2, pf),
    ensures
        assignee_same(t1, t2),
    decreases n,
{
    if n > 0 {
        match a.accesses@[n - 1] {
            ast::AssigneeAccess::Array(arr) => {
                lemma_assignee_deterministic(a, (n - 1) as nat, *t1->Array_0, *t2->Array_0, pf);
                lemma_range_or_expression_deterministic(arr.expression, t1->Array_1, t2->Array_1, pf);
            },
            ast::AssigneeAccess::Member(_) => {
                lemma_assignee_deterministic(
                    a,
                    (n - 1) as nat,
                    *t1->StructMember_0,
                    *t2->StructMember_0,
                    pf,
                );
            },
        }
    }
}

/// Two conversions of one assignee, read as expressions, are the same.
pub proof fn lemma_assignee_expression_deterministic<F, P: Fn(&String) -> F>(
    a: ast::Assignee,
    n: nat,
    t1: types::Expression<F>,
    t2: types::Expression<F>,
    pf: P,
)
    requires
        parser_deterministic(pf),
        assignee_expression_converts(a, n, t1, pf),
        assignee_expression_converts(a, n, t2, pf),
    ensures
        expression_same(t1, t2),
    decreases n,
{
    if n > 0 {
        match a.accesses@[n - 1] {
            ast::AssigneeAccess::Array(arr) => {
                lemma_assignee_expression_deterministic(
                    a,
                    (n - 1) as nat,
                    *t1->ArrayAccess_0,
                    *t2->ArrayAccess_0,
                    pf,
                );
                lemma_range_or_expression_deterministic(
                    arr.expression,
                    *t1->ArrayAccess_1,
                    *t2->ArrayAccess_1,
                    pf,
                );
            },
            ast::AssigneeAccess::Member(_) => {
                lemma_assignee_expression_deterministic(
                    a,
                    (n - 1) as nat,
                    *t1->StructMemberAccess_0,
                    *t2->StructMemberAccess_0,
                    pf,
                );
            },
        }
    }
}

/// Two conversions of one type are the same.
pub proof fn lemma_type_deterministic(a: ast::Type, t1: types::Type, t2: types::Type)
    requires
        type_converts(a, t1),
        type_converts(a, t2),
    ensures
        type_same(t1, t2),
{
    if let ast::Type::Array(at) = a {
        assert(type_same(basic_type(at.ty), basic_type(at.ty)));
    }
}

/// Two conversions of one optional type are the same.
pub proof fn lemma_optional_type_deterministic(
    a: Option<ast::Type>,
    t1: Option<types::Type>,
    t2: Option<types::Type>,
)
    requires
        optional_type_converts(a, t1),
        optional_type_converts(a, t2),
    ensures
        optional_type_same(t1, t2),
{
    if let Some(x) = a {
        lemma_type_deterministic(x, t1.unwrap(), t2.unwrap());
    }
}

/// Two conversions of one assignment are the same.
pub proof fn lemma_assign_deterministic<F, P: Fn(&String) -> F>(
    s: ast::AssignStatement,
    t1: types::Statement<F>,
    t2: types::Statement<F>,
    pf: P,
)
    requires
        parser_deterministic(pf),
        assign_converts(s, t1, pf),
        assign_converts(s, t2, pf),
    ensures
        statement_same(t1, t2),
{
    let n = s.assignee.accesses@.len();
    lemma_assignee_deterministic(s.assignee, n, t1->Assign_0, t2->Assign_0, pf);
    let v1 = t1->Assign_1;
    let v2 = t2->Assign_1;
    if s.assign == ast::OperationAssign::Assign {
        lemma_expression_deterministic(s.expression, v1, v2, pf);
    } else {
        let (l1, r1) = compound_operands(s.assign, v1).unwrap();
        let (l2, r2) = compound_operands(s.assign, v2).unwrap();
        lemma_assignee_expression_deterministic(s.assignee, n, *l1, *l2, pf);
        lemma_expression_deterministic(s.expression, *r1, *r2, pf);
    }
}

/// Two conversions of one statement are the same.
pub proof fn lemma_statement_deterministic<F, P: Fn(&String) -> F>(
    s: ast::Statement,
    t1: types::Statement<F>,
    t2: types::Statement<F>,
    pf: P,
)
    requires
        parser_deterministic(pf),
        statement_converts(s, t1, pf),
        statement_converts(s, t2, pf),
    ensures
        statement_same(t1, t2),
    decreases s, 0nat,
{
    match s {
        ast::Statement::Return(r) => {
            lemma_expressions_deterministic(r.expressions, t1->Return_0, t2->Return_0, pf);
        },
        ast::Statement::Definition(d) => {
            lemma_optional_type_deterministic(d.ty, t1->Definition_1, t2->Definition_1);
            lemma_expression_deterministic(d.expression, t1->Definition_2, t2->Definition_2, pf);
        },
        ast::Statement::Assign(a) => {
            lemma_assign_deterministic(a, t1, t2, pf);
        },
        ast::Statement::MultipleAssignment(m) => {
            let call1 = t1->MultipleAssign_1;
            let call2 = t2->MultipleAssign_1;
            lemma_expressions_deterministic(
                m.arguments,
                call1->FunctionCall_1,
                call2->FunctionCall_1,
                pf,
            );
            let xs = t1->MultipleAssign_0;
            let ys = t2->MultipleAssign_0;
            assert forall|i: int| 0 <= i < xs@.len() implies assignee_same(
                #[trigger] xs@[i],
                ys@[i],
            ) by {
                assert(ys@[i] matches types::Assignee::Variable(_));
            }
        },
        ast::Statement::Conditional(c) => {
            lemma_conditional_deterministic(c, t1->Conditional_0, t2->Conditional_0, pf);
        },
        ast::Statement::Iteration(f) => {
            lemma_statements_deterministic(f.statements, t1->For_3, t2->For_3, pf);
        },
        ast::Statement::Assert(ast::AssertStatement::AssertEq(e)) => {
            lemma_expression_deterministic(e.left, t1->AssertEq_0, t2->AssertEq_0, pf);
            lemma_expression_deterministic(e.right, t1->AssertEq_1, t2->AssertEq_1, pf);
        },
        ast::Statement::Expression(e) => {
            lemma_expression_deterministic(e.expression, t1->Expression_0, t2->Expression_0, pf);
        },
    }
}

/// Two conversions of one list of statements are the same.
pub proof fn lemma_statements_deterministic<F, P: Fn(&String) -> F>(
    v: Vec<ast::Statement>,
    t1: Vec<types::Statement<F>>,
    t2: Vec<types::Statement<F>>,
    pf: P,
)
    requires
        parser_deterministic(pf),
        statements_convert(v, t1, pf),
        statements_convert(v, t2, pf),
    ensures
        statements_same(t1, t2),
    decreases v, 0nat,
{
    assert forall|i: int| 0 <= i < t1@.len() implies statement_same(#[trigger] t1@[i], t2@[i]) by {
        lemma_statement_deterministic(v@[i], t1@[i], t2@[i], pf);
    }
}

/// Two conversions of one conditional are the same.
pub proof fn lemma_conditional_deterministic<F, P: Fn(&String) -> F>(
    c: ast::ConditionalStatement,
    t1: types::ConditionalStatement<F>,
    t2: types::ConditionalStatement<F>,
    pf: P,
)
    requires
        parser_deterministic(pf),
        conditional_converts(c, t1, pf),
        conditional_converts(c, t2, pf),
    ensures
        conditional_same(t1, t2),
    decreases c, 0nat,
{
    lemma_expression_deterministic(c.condition, t1.condition, t2.condition, pf);
    lemma_statements_deterministic(c.statements, t1.statements, t2.statements, pf);
    if let Some(n) = c.next {
        lemma_nested_or_end_deterministic(n, t1.next.unwrap(), t2.next.unwrap(), pf);
    }
}

/// Two conversions of what follows one conditional block are the same.
pub proof fn lemma_nested_or_end_deterministic<F, P: Fn(&String) -> F>(
    n: ast::ConditionalNestedOrEnd,
    t1: types::ConditionalNestedOrEnd<F>,
    t2: types::ConditionalNestedOrEnd<F>,
    pf: P,
)
    requires
        parser_deterministic(pf),
        nested_or_end_converts(n, t1, pf),
        nested_or_end_converts(n, t2, pf),
    ensures
        nested_or_end_same(t1, t2),
    decreases n, 0nat,
{
    match n {
        ast::ConditionalNestedOrEnd::Nested(c) => {
            lemma_conditional_deterministic(*c, *t1->Nested_0, *t2->Nested_0, pf);
        },
        ast::ConditionalNestedOrEnd::End(v) => {
            lemma_statements_deterministic(v, t1->End_0, t2->End_0, pf);
        },
    }
}

/// Two conversions of one struct definition are the same.
pub proof fn lemma_struct_deterministic(s: ast::Struct, t1: types::Struct, t2: types::Struct)
    requires
        struct_converts(s, t1),
        struct_converts(s, t2),
    ensures
        struct_same(t1, t2),
{
    assert forall|i: int| 0 <= i < t1.fields@.len() implies variable_same(
        (#[trigger] t1.fields@[i]).variable,
        t2.fields@[i].variable,
    ) && type_same(t1.fields@[i].ty, t2.fields@[i].ty) by {
        lemma_type_deterministic(s.fields@[i].ty, t1.fields@[i].ty, t2.fields@[i].ty);
    }
}

/// Two conversions of one function definition are the same.
pub proof fn lemma_function_deterministic<F, P: Fn(&String) -> F>(
    f: ast::Function,
    t1: types::Function<F>,
    t2: types::Function<F>,
    pf: P,
)
    requires
        parser_deterministic(pf),
        function_converts(f, t1, pf),
        function_converts(f, t2, pf),
    ensures
        function_same(t1, t2),
{
    assert forall|i: int| 0 <= i < t1.parameters@.len() implies crate::sameness::parameter_same(
        #[trigger] t1.parameters@[i],
        t2.parameters@[i],
    ) by {
        lemma_type_deterministic(
            f.parameters@[i].ty,
            t1.parameters@[i].ty,
            t2.parameters@[i].ty,
        );
    }
    assert forall|i: int| 0 <= i < t1.returns@.len() implies type_same(
        #[trigger] t1.returns@[i],
        t2.returns@[i],
    ) by {
        lemma_type_deterministic(f.returns@[i], t1.returns@[i], t2.returns@[i]);
    }
    lemma_statements_deterministic(f.statements, t1.statements, t2.statements, pf);
}

/// Two conversions of one import are the same.
pub proof fn lemma_import_deterministic(i: ast::Import, t1: types::Import, t2: types::Import)
    requires
        import_converts(i, t1),
        import_converts(i, t2),
    ensures
        import_same(t1, t2),
{
    assert forall|k: int| 0 <= k < t1.symbols@.len() implies variable_same(
        (#[trigger] t1.symbols@[k]).symbol,
        t2.symbols@[k].symbol,
    ) && match t1.symbols@[k].alias {
        Some(x) => t2.symbols@[k].alias matches Some(y) && variable_same(x, y),
        None => t2.symbols@[k].alias is None,
    } by {
        assert(crate::definition_spec::symbol_converts(i.symbols@[k], t1.symbols@[k]));
        assert(crate::definition_spec::symbol_converts(i.symbols@[k], t2.symbols@[k]));
    }
}

} // verus!
