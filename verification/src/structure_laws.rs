//! Laws on the shape of a conversion: every construct becomes the construct
//! of the typed program that corresponds to it, built from the conversions
//! of its own parts, with every list kept in its order.

use vstd::prelude::*;

use crate::ast;
use crate::definition_spec::{
    function_converts, import_converts, parameter_converts, struct_converts, type_converts,
};
use crate::expression_spec::{
    expression_converts, postfix_converts, range_or_expression_converts,
    spread_or_expression_converts,
};
use crate::program_from::program_converts;
use crate::statement_spec::{
    assignee_converts, conditional_converts, nested_or_end_converts, statement_converts,
};
use crate::types;

verus! {

/// Expressions convert part by part.
pub proof fn law_expression_structure<F, P: Fn(&String) -> F>(
    e: ast::Expression,
    t: types::Expression<F>,
    pf: P,
)
    requires
        expression_converts(e, t, pf),
    ensures
        e matches ast::Expression::Not(n) ==> (t matches types::Expression::Not(x)
            && expression_converts(*n.expression, *x, pf)),
        e matches ast::Expression::Ternary(x) ==> (t matches types::Expression::IfElse(a, b, c)
            && expression_converts(*x.first, *a, pf) && expression_converts(*x.second, *b, pf)
            && expression_converts(*x.third, *c, pf)),
        e matches ast::Expression::ArrayInline(arr) ==> (t matches types::Expression::Array(v)
            && v@.len() == arr.expressions@.len() && forall|i: int|
            0 <= i < v@.len() ==> spread_or_expression_converts(
                #[trigger] arr.expressions@[i],
                *v@[i],
                pf,
            )),
        e matches ast::Expression::ArrayInitializer(arr) ==> (t matches types::Expression::Array(v)
            && forall|i: int|
            0 <= i < v@.len() ==> spread_or_expression_converts(*arr.expression, *#[trigger] v@[i], pf)),
        e matches ast::Expression::StructInline(st) ==> (t matches types::Expression::Struct(x, ms)
            && x.name@ == st.variable.value@ && ms@.len() == st.members@.len() && forall|i: int|
            0 <= i < ms@.len() ==> (#[trigger] ms@[i]).variable.name@
                == st.members@[i].variable.value@ && expression_converts(
                st.members@[i].expression,
                ms@[i].expression,
                pf,
            )),
        e matches ast::Expression::Postfix(p) ==> (p.accesses@.len() == 0 ==> (t matches types::Expression::Variable(
            x,
        ) && x.name@ == p.variable.value@)),
        e matches ast::Expression::Postfix(p) ==> (p.accesses@.len() > 0 ==> match p.accesses@.last() {
            ast::Access::Call(c) => t matches types::Expression::FunctionCall(x, args) && x.name@
                == p.variable.value@ && args@.len() == c.expressions@.len() && forall|i: int|
                0 <= i < args@.len() ==> expression_converts(
                    #[trigger] c.expressions@[i],
                    args@[i],
                    pf,
                ),
            ast::Access::Member(m) => t matches types::Expression::StructMemberAccess(_, x) && x.name@
                == m.variable.value@,
            ast::Access::Array(a) => t matches types::Expression::ArrayAccess(_, index)
                && range_or_expression_converts(a.expression, *index, pf),
        }),
{
    if let ast::Expression::Postfix(p) = e {
        let n = p.accesses@.len();
        assert(postfix_converts(p, n, t, pf));
        if n > 0 {
            if let ast::Access::Call(c) = p.accesses@[n - 1] {
                let x = t->FunctionCall_0;
                assert(postfix_converts(p, (n - 1) as nat, types::Expression::Variable(x), pf));
                if n > 1 {
                    assert(!postfix_converts(p, (n - 1) as nat, types::Expression::Variable(x), pf));
                }
                assert(n == 1);
                assert(x.name@ == p.variable.value@);
                assert(crate::expression_spec::expressions_convert(c.expressions, t->FunctionCall_1, pf));
            }
        }
    }
}

/// Array elements convert part by part.
pub proof fn law_element_structure<F, P: Fn(&String) -> F>(
    s: ast::SpreadOrExpression,
    t: types::SpreadOrExpression<F>,
    pf: P,
)
    requires
        spread_or_expression_converts(s, t, pf),
    ensures
        s matches ast::SpreadOrExpression::Spread(sp) ==> (t matches types::SpreadOrExpression::Spread(
            x,
        ) && expression_converts(sp.expression, x, pf)),
        s matches ast::SpreadOrExpression::Expression(e) ==> (t matches types::SpreadOrExpression::Expression(
            x,
        ) && expression_converts(e, x, pf)),
{
}

/// The place an assignee denotes wraps its last access around the place of
/// the accesses before it.
pub proof fn law_assignee_structure<F, P: Fn(&String) -> F>(
    a: ast::Assignee,
    n: nat,
    t: types::Assignee<F>,
    pf: P,
)
    requires
        assignee_converts(a, n, t, pf),
    ensures
        n == 0 ==> (t matches types::Assignee::Variable(x) && x.name@ == a.variable.value@),
        n > 0 ==> match a.accesses@[n - 1] {
            ast::AssigneeAccess::Array(arr) => t matches types::Assignee::Array(inner, index)
                && assignee_converts(a, (n - 1) as nat, *inner, pf) && range_or_expression_converts(
                arr.expression,
                index,
                pf,
            ),
            ast::AssigneeAccess::Member(m) => t matches types::Assignee::StructMember(inner, x)
                && assignee_converts(a, (n - 1) as nat, *inner, pf) && x.name@ == m.variable.value@,
        },
{
}

/// Statements convert part by part, keeping every list in order.
pub proof fn law_statement_structure<F, P: Fn(&String) -> F>(
    s: ast::Statement,
    t: types::Statement<F>,
    pf: P,
)
    requires
        statement_converts(s, t, pf),
    ensures
        s matches ast::Statement::Return(r) ==> (t matches types::Statement::Return(es) && es@.len()
            == r.expressions@.len() && forall|i: int|
            0 <= i < es@.len() ==> expression_converts(#[trigger] r.expressions@[i], es@[i], pf)),
        s matches ast::Statement::Definition(d) ==> (t matches types::Statement::Definition(
            target,
            ty,
            value,
        ) && (target matches types::Assignee::Variable(x) && x.name@ == d.variable.value@) && (
        d.ty is None <==> ty is None) && (d.ty matches Some(a) ==> type_converts(a, ty.unwrap()))
            && expression_converts(d.expression, value, pf)),
        s matches ast::Statement::MultipleAssignment(m) ==> (t matches types::Statement::MultipleAssign(
            targets,
            call,
        ) && targets@.len() == m.assignees@.len() && (forall|i: int|
            0 <= i < targets@.len() ==> (#[trigger] targets@[i] matches types::Assignee::Variable(x)
                && x.name@ == m.assignees@[i].id.value@)) && (call matches types::Expression::FunctionCall(
            f,
            args,
        ) && f.name@ == m.function_name.value@ && args@.len() == m.arguments@.len() && forall|
            i: int,
        | 0 <= i < args@.len() ==> expression_converts(#[trigger] m.arguments@[i], args@[i], pf))),
        s matches ast::Statement::Conditional(c) ==> (t matches types::Statement::Conditional(x)
            && conditional_converts(c, x, pf)),
        s matches ast::Statement::Iteration(f) ==> (t matches types::Statement::For(x, _, _, body)
            && x.name@ == f.index.value@ && body@.len() == f.statements@.len() && forall|i: int|
            0 <= i < body@.len() ==> statement_converts(#[trigger] f.statements@[i], body@[i], pf)),
        s matches ast::Statement::Assert(ast::AssertStatement::AssertEq(a)) ==> (t matches types::Statement::AssertEq(
            l,
            r,
        ) && expression_converts(a.left, l, pf) && expression_converts(a.right, r, pf)),
        s matches ast::Statement::Expression(e) ==> (t matches types::Statement::Expression(x)
            && expression_converts(e.expression, x, pf)),
{
    if let ast::Statement::Definition(d) = s {
        if let Some(a) = d.ty {
            assert(crate::definition_spec::optional_type_converts(d.ty, t->Definition_1));
        }
    }
}

/// A conditional converts part by part: its condition, its statements in
/// order, and what follows it, if anything does.
pub proof fn law_conditional_structure<F, P: Fn(&String) -> F>(
    c: ast::ConditionalStatement,
    t: types::ConditionalStatement<F>,
    n: ast::ConditionalNestedOrEnd,
    u: types::ConditionalNestedOrEnd<F>,
    pf: P,
)
    ensures
        conditional_converts(c, t, pf) ==> {
            &&& expression_converts(c.condition, t.condition, pf)
            &&& t.statements@.len() == c.statements@.len()
            &&& forall|i: int|
                0 <= i < t.statements@.len() ==> statement_converts(
                    #[trigger] c.statements@[i],
                    t.statements@[i],
                    pf,
                )
            &&& (c.next is None <==> t.next is None)
            &&& (c.next matches Some(x) ==> nested_or_end_converts(x, t.next.unwrap(), pf))
        },
        nested_or_end_converts(n, u, pf) ==> match n {
            ast::ConditionalNestedOrEnd::Nested(x) => u matches types::ConditionalNestedOrEnd::Nested(
                y,
            ) && conditional_converts(*x, *y, pf),
            ast::ConditionalNestedOrEnd::End(v) => u matches types::ConditionalNestedOrEnd::End(w)
                && w@.len() == v@.len() && forall|i: int|
                0 <= i < w@.len() ==> statement_converts(#[trigger] v@[i], w@[i], pf),
        },
{
}

/// Definitions convert part by part, keeping every list in order.
pub proof fn law_definition_structure<F, P: Fn(&String) -> F>(
    s: ast::Struct,
    ts: types::Struct,
    f: ast::Function,
    tf: types::Function<F>,
    i: ast::Import,
    ti: types::Import,
    pf: P,
)
    ensures
        struct_converts(s, ts) ==> {
            &&& ts.variable.name@ == s.variable.value@
            &&& ts.fields@.len() == s.fields@.len()
            &&& forall|k: int|
                0 <= k < ts.fields@.len() ==> (#[trigger] ts.fields@[k]).variable.name@
                    == s.fields@[k].variable.value@ && type_converts(s.fields@[k].ty, ts.fields@[k].ty)
        },
        function_converts(f, tf, pf) ==> {
            &&& tf.function_name.0@ == f.function_name.value@
            &&& tf.parameters@.len() == f.parameters@.len()
            &&& forall|k: int|
                0 <= k < tf.parameters@.len() ==> parameter_converts(
                    #[trigger] f.parameters@[k],
                    tf.parameters@[k],
                )
            &&& tf.returns@.len() == f.returns@.len()
            &&& forall|k: int|
                0 <= k < tf.returns@.len() ==> type_converts(#[trigger] f.returns@[k], tf.returns@[k])
            &&& tf.statements@.len() == f.statements@.len()
            &&& forall|k: int|
                0 <= k < tf.statements@.len() ==> statement_converts(
                    #[trigger] f.statements@[k],
                    tf.statements@[k],
                    pf,
                )
        },
        import_converts(i, ti) ==> {
            &&& ti.path_string@ == i.source.value@
            &&& ti.symbols@.len() == i.symbols@.len()
            &&& forall|k: int|
                0 <= k < ti.symbols@.len() ==> (#[trigger] ti.symbols@[k]).symbol.name@
                    == i.symbols@[k].value.value@ && (i.symbols@[k].alias is None
                    <==> ti.symbols@[k].alias is None) && (i.symbols@[k].alias matches Some(a)
                    ==> ti.symbols@[k].alias.unwrap().name@ == a.value@)
        },
{
    if import_converts(i, ti) {
        assert forall|k: int| 0 <= k < ti.symbols@.len() implies (#[trigger] ti.symbols@[k]).symbol.name@
            == i.symbols@[k].value.value@ && (i.symbols@[k].alias is None
            <==> ti.symbols@[k].alias is None) && (i.symbols@[k].alias matches Some(a)
            ==> ti.symbols@[k].alias.unwrap().name@ == a.value@) by {
            assert(crate::definition_spec::symbol_converts(i.symbols@[k], ti.symbols@[k]));
        }
    }
}

/// A program carries the name it was given and the file's imports, in
/// order.
pub proof fn law_program_name_and_imports<F, P: Fn(&String) -> F>(
    file: ast::File,
    name: Seq<char>,
    t: types::Program<F>,
    pf: P,
)
    requires
        program_converts(file, name, t, pf),
    ensures
        t.name.name@ == name,
        t.imports@.len() == file.imports@.len(),
        forall|k: int|
            0 <= k < t.imports@.len() ==> import_converts(#[trigger] file.imports@[k], t.imports@[k]),
{
}

} // verus!
