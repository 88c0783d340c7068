//! Properties of a converted program that span several conversions.

use vstd::prelude::*;

use crate::ast;
use crate::definition_spec::{function_converts, struct_converts};
use crate::determinism::{
    lemma_function_deterministic, lemma_import_deterministic, lemma_range_or_expression_deterministic,
    lemma_spread_or_expression_deterministic, lemma_struct_deterministic, parser_deterministic,
};
use crate::expression_spec::{count_value, expression_converts};
use crate::program_from::{
    distinct_in_order, function_names, last_index_of, lemma_distinct_in_order,
    lemma_last_index_of, main_parameter_count, no_duplicates, program_converts, struct_names,
};
use crate::sameness::{
    expression_same, function_same, import_same, spread_or_expression_same, struct_same,
};
use crate::statement_spec::{
    assign_converts, assignee_converts, assignee_expression_converts, compound_operands,
};
use crate::types::{Assignee, Expression, Program, Statement};

verus! {

/// The program has a struct entry named `x`.
pub open spec fn has_struct_named<F>(t: Program<F>, x: Seq<char>) -> bool {
    exists|j: int| 0 <= j < t.structs@.len() && #[trigger] t.structs@[j].0.name@ == x
}

/// The program has a function entry named `x`.
pub open spec fn has_function_named<F>(t: Program<F>, x: Seq<char>) -> bool {
    exists|j: int| 0 <= j < t.functions@.len() && #[trigger] t.functions@[j].0.0@ == x
}

/// Every struct name defined in a file has exactly one entry in the program,
/// no other name has one, and the entry holds the conversion of the last
/// definition with that name: a later definition replaces an earlier one.
pub proof fn law_structs_by_name<F, P: Fn(&String) -> F>(
    file: ast::File,
    name: Seq<char>,
    t: Program<F>,
    pf: P,
)
    requires
        program_converts(file, name, t, pf),
    ensures
        forall|i: int, j: int|
            0 <= i < t.structs@.len() && 0 <= j < t.structs@.len() && i != j
                ==> t.structs@[i].0.name@ != t.structs@[j].0.name@,
        forall|x: Seq<char>|
            has_struct_named(t, x)
                <==> #[trigger] struct_names(file).contains(x),
        forall|i: int|
            #![trigger t.structs@[i]]
            0 <= i < t.structs@.len() ==> {
                let k = last_index_of(struct_names(file), t.structs@[i].0.name@);
                &&& 0 <= k < file.structs@.len()
                &&& file.structs@[k].variable.value@ == t.structs@[i].0.name@
                &&& forall|m: int|
                    k < m < file.structs@.len() ==> file.structs@[m].variable.value@
                        != t.structs@[i].0.name@
                &&& struct_converts(file.structs@[k], t.structs@[i].1)
            },
{
    let names = struct_names(file);
    let keys = distinct_in_order(names);
    assert(names.take(file.structs@.len() as int) =~= names);
    lemma_distinct_in_order(names);
    assert forall|x: Seq<char>|
        has_struct_named(t, x)
            <==> #[trigger] names.contains(x) by {
        if names.contains(x) {
            assert(keys.contains(x));
            let i = choose|i: int| 0 <= i < keys.len() && keys[i] == x;
            assert(t.structs@[i].0.name@ == x);
        }
        if has_struct_named(t, x) {
            let i = choose|i: int| 0 <= i < t.structs@.len() && t.structs@[i].0.name@ == x;
            assert(keys[i] == x);
            assert(keys.contains(x));
        }
    }
    assert forall|i: int| #![trigger t.structs@[i]] 0 <= i < t.structs@.len() implies {
        let k = last_index_of(struct_names(file), t.structs@[i].0.name@);
        &&& 0 <= k < file.structs@.len()
        &&& file.structs@[k].variable.value@ == t.structs@[i].0.name@
        &&& forall|m: int|
            k < m < file.structs@.len() ==> file.structs@[m].variable.value@
                != t.structs@[i].0.name@
        &&& struct_converts(file.structs@[k], t.structs@[i].1)
    } by {
        let x = t.structs@[i].0.name@;
        assert(keys[i] == x);
        assert(keys.contains(x));
        lemma_last_index_of(names, x);
        let k = last_index_of(names, x);
        assert forall|m: int| k < m < file.structs@.len() implies file.structs@[m].variable.value@
            != x by {
            assert(names[m] == file.structs@[m].variable.value@);
        }
    }
}

/// Every function name defined in a file has exactly one entry in the
/// program, no other name has one, and the entry holds the conversion of the
/// last definition with that name: a later definition replaces an earlier
/// one.
pub proof fn law_functions_by_name<F, P: Fn(&String) -> F>(
    file: ast::File,
    name: Seq<char>,
    t: Program<F>,
    pf: P,
)
    requires
        program_converts(file, name, t, pf),
    ensures
        forall|i: int, j: int|
            0 <= i < t.functions@.len() && 0 <= j < t.functions@.len() && i != j
                ==> t.functions@[i].0.0@ != t.functions@[j].0.0@,
        forall|x: Seq<char>|
            has_function_named(t, x)
                <==> #[trigger] function_names(file).contains(x),
        forall|i: int|
            #![trigger t.functions@[i]]
            0 <= i < t.functions@.len() ==> {
                let k = last_index_of(function_names(file), t.functions@[i].0.0@);
                &&& 0 <= k < file.functions@.len()
                &&& file.functions@[k].function_name.value@ == t.functions@[i].0.0@
                &&& forall|m: int|
                    k < m < file.functions@.len() ==> file.functions@[m].function_name.value@
                        != t.functions@[i].0.0@
                &&& function_converts(file.functions@[k], t.functions@[i].1, pf)
            },
{
    let names = function_names(file);
    let keys = distinct_in_order(names);
    assert(names.take(file.functions@.len() as int) =~= names);
    lemma_distinct_in_order(names);
    assert forall|x: Seq<char>|
        has_function_named(t, x)
            <==> #[trigger] names.contains(x) by {
        if names.contains(x) {
            assert(keys.contains(x));
            let i = choose|i: int| 0 <= i < keys.len() && keys[i] == x;
            assert(t.functions@[i].0.0@ == x);
        }
        if has_function_named(t, x) {
            let i = choose|i: int| 0 <= i < t.functions@.len() && t.functions@[i].0.0@ == x;
            assert(keys[i] == x);
            assert(keys.contains(x));
        }
    }
    assert forall|i: int| #![trigger t.functions@[i]] 0 <= i < t.functions@.len() implies {
        let k = last_index_of(function_names(file), t.functions@[i].0.0@);
        &&& 0 <= k < file.functions@.len()
        &&& file.functions@[k].function_name.value@ == t.functions@[i].0.0@
        &&& forall|m: int|
            k < m < file.functions@.len() ==> file.functions@[m].function_name.value@
                != t.functions@[i].0.0@
        &&& function_converts(file.functions@[k], t.functions@[i].1, pf)
    } by {
        let x = t.functions@[i].0.0@;
        assert(keys[i] == x);
        assert(keys.contains(x));
        lemma_last_index_of(names, x);
        let k = last_index_of(names, x);
        assert forall|m: int| k < m < file.functions@.len() implies file.functions@[m].function_name.value@
            != x by {
            assert(names[m] == file.functions@[m].function_name.value@);
        }
    }
}

/// The number of parameters a program records is that of its function named
/// `main`, or 0 if it has none.
pub proof fn law_main_parameters<F, P: Fn(&String) -> F>(
    file: ast::File,
    name: Seq<char>,
    t: Program<F>,
    pf: P,
)
    requires
        program_converts(file, name, t, pf),
    ensures
        forall|i: int|
            0 <= i < t.functions@.len() && #[trigger] t.functions@[i].0.0@ == "main"@
                ==> t.num_parameters == t.functions@[i].1.parameters@.len(),
        (forall|i: int| 0 <= i < t.functions@.len() ==> #[trigger] t.functions@[i].0.0@ != "main"@)
            ==> t.num_parameters == 0,
{
    law_functions_by_name(file, name, t, pf);
    lemma_last_index_of(function_names(file), "main"@);
    assert(main_parameter_count(file) == t.num_parameters);
    if !function_names(file).contains("main"@) {
        assert(last_index_of(function_names(file), "main"@) == -1);
    }
}

/// The expression that reads the place an assignee writes: each access of
/// the assignee turned into its expression form.
pub open spec fn assignee_as_expression<F>(t: Assignee<F>) -> Expression<F>
    decreases t,
{
    match t {
        Assignee::Variable(x) => Expression::Variable(x),
        Assignee::Array(inner, index) => Expression::ArrayAccess(
            Box::new(assignee_as_expression(*inner)),
            Box::new(index),
        ),
        Assignee::StructMember(inner, x) => Expression::StructMemberAccess(
            Box::new(assignee_as_expression(*inner)),
            x,
        ),
    }
}

/// An assignee read as an expression is the assignee converted as a place
/// with each access turned into its expression form, when the field element
/// parser depends only on its text.
pub proof fn law_assignee_read_is_its_place<F, P: Fn(&String) -> F>(
    a: ast::Assignee,
    n: nat,
    t: Assignee<F>,
    e: Expression<F>,
    pf: P,
)
    requires
        parser_deterministic(pf),
        assignee_converts(a, n, t, pf),
        assignee_expression_converts(a, n, e, pf),
    ensures
        expression_same(e, assignee_as_expression(t)),
    decreases n,
{
    if n > 0 {
        match a.accesses@[n - 1] {
            ast::AssigneeAccess::Array(arr) => {
                law_assignee_read_is_its_place(a, (n - 1) as nat, *t->Array_0, *e->ArrayAccess_0, pf);
                lemma_range_or_expression_deterministic(
                    arr.expression,
                    *e->ArrayAccess_1,
                    t->Array_1,
                    pf,
                );
            },
            ast::AssigneeAccess::Member(_) => {
                law_assignee_read_is_its_place(
                    a,
                    (n - 1) as nat,
                    *t->StructMember_0,
                    *e->StructMemberAccess_0,
                    pf,
                );
            },
        }
    }
}

/// A compound assignment `x op= y` assigns to `x` the operation applied to
/// what `x` reads: the left operand is the target with each access turned
/// into its expression form.
pub proof fn law_compound_assignment_reads_its_target<F, P: Fn(&String) -> F>(
    s: ast::AssignStatement,
    t: Statement<F>,
    pf: P,
)
    requires
        parser_deterministic(pf),
        assign_converts(s, t, pf),
        s.assign != ast::OperationAssign::Assign,
    ensures
        t matches Statement::Assign(target, value) && compound_operands(s.assign, value) matches Some(
            (l, r),
        ) && expression_same(*l, assignee_as_expression(target)),
{
    let n = s.assignee.accesses@.len();
    let target = t->Assign_0;
    let value = t->Assign_1;
    let (l, r) = compound_operands(s.assign, value).unwrap();
    law_assignee_read_is_its_place(s.assignee, n, target, *l, pf);
}

/// The elements of `[e; n]` are `n` conversions of `e`, all the same when
/// the field element parser depends only on its text.
pub proof fn law_array_initializer_elements_alike<F, P: Fn(&String) -> F>(
    arr: ast::ArrayInitializerExpression,
    t: Expression<F>,
    pf: P,
)
    requires
        parser_deterministic(pf),
        expression_converts(ast::Expression::ArrayInitializer(arr), t, pf),
    ensures
        t matches Expression::Array(v) && v@.len() == count_value(arr.count) && forall|i: int, j: int|
            0 <= i < v@.len() && 0 <= j < v@.len() ==> spread_or_expression_same(
                *#[trigger] v@[i],
                *#[trigger] v@[j],
            ),
{
    let v = t->Array_0;
    assert forall|i: int, j: int| 0 <= i < v@.len() && 0 <= j < v@.len() implies spread_or_expression_same(
        *#[trigger] v@[i],
        *#[trigger] v@[j],
    ) by {
        lemma_spread_or_expression_deterministic(*arr.expression, *v@[i], *v@[j], pf);
    }
}

/// Each element of one sequence occurs in the other, and the other way round.
pub open spec fn same_definitions<A>(d1: Seq<A>, d2: Seq<A>) -> bool {
    &&& forall|i: int| 0 <= i < d1.len() ==> d2.contains(#[trigger] d1[i])
    &&& forall|j: int| 0 <= j < d2.len() ==> d1.contains(#[trigger] d2[j])
}

/// In two sequences of the same definitions, each name given once, a name
/// is defined in both or in neither, and then by the same definition.
proof fn lemma_same_definition_by_name<A>(
    d1: Seq<A>,
    d2: Seq<A>,
    n1: Seq<Seq<char>>,
    n2: Seq<Seq<char>>,
    x: Seq<char>,
)
    requires
        n1.len() == d1.len(),
        n2.len() == d2.len(),
        forall|i: int, j: int|
            0 <= i < d1.len() && 0 <= j < d2.len() && d1[i] == d2[j] ==> n1[i] == n2[j],
        same_definitions(d1, d2),
        no_duplicates(n1),
        no_duplicates(n2),
    ensures
        n1.contains(x) <==> n2.contains(x),
        n1.contains(x) ==> d1[last_index_of(n1, x)] == d2[last_index_of(n2, x)],
{
    lemma_last_index_of(n1, x);
    lemma_last_index_of(n2, x);
    if n1.contains(x) {
        let k = last_index_of(n1, x);
        assert(d2.contains(d1[k]));
        let j = choose|j: int| 0 <= j < d2.len() && d2[j] == d1[k];
        assert(n2[j] == x);
        assert(n2.contains(x));
        let k2 = last_index_of(n2, x);
        assert(j == k2);
    }
    if n2.contains(x) {
        let k2 = last_index_of(n2, x);
        assert(d1.contains(d2[k2]));
        let i = choose|i: int| 0 <= i < d1.len() && d1[i] == d2[k2];
        assert(n1[i] == x);
    }
}

/// Struct entries under reordered struct definitions, each name given once.
proof fn lemma_reordered_structs<F, P: Fn(&String) -> F>(
    file: ast::File,
    file2: ast::File,
    name: Seq<char>,
    t: Program<F>,
    t2: Program<F>,
    pf: P,
)
    requires
        parser_deterministic(pf),
        same_definitions(file.structs@, file2.structs@),
        no_duplicates(struct_names(file)),
        no_duplicates(struct_names(file2)),
        program_converts(file, name, t, pf),
        program_converts(file2, name, t2, pf),
    ensures
        forall|i: int|
            #![trigger t.structs@[i]]
            0 <= i < t.structs@.len() ==> has_struct_named(t2, t.structs@[i].0.name@),
        forall|j: int|
            #![trigger t2.structs@[j]]
            0 <= j < t2.structs@.len() ==> has_struct_named(t, t2.structs@[j].0.name@),
        forall|i: int, j: int|
            0 <= i < t.structs@.len() && 0 <= j < t2.structs@.len() && #[trigger] t.structs@[i].0.name@
                == #[trigger] t2.structs@[j].0.name@ ==> struct_same(t.structs@[i].1, t2.structs@[j].1),
{
    let n1 = struct_names(file);
    let n2 = struct_names(file2);
    law_structs_by_name(file, name, t, pf);
    law_structs_by_name(file2, name, t2, pf);
    assert forall|i: int|
        #![trigger t.structs@[i]]
        0 <= i < t.structs@.len() implies has_struct_named(t2, t.structs@[i].0.name@) by {
        let x = t.structs@[i].0.name@;
        lemma_same_definition_by_name(file.structs@, file2.structs@, n1, n2, x);
        assert(n1.contains(x));
        assert(n2.contains(x));
    }
    assert forall|j: int|
        #![trigger t2.structs@[j]]
        0 <= j < t2.structs@.len() implies has_struct_named(t, t2.structs@[j].0.name@) by {
        let x = t2.structs@[j].0.name@;
        lemma_same_definition_by_name(file.structs@, file2.structs@, n1, n2, x);
        assert(n2.contains(x));
        assert(n1.contains(x));
    }
    assert forall|i: int, j: int|
        0 <= i < t.structs@.len() && 0 <= j < t2.structs@.len() && #[trigger] t.structs@[i].0.name@
            == #[trigger] t2.structs@[j].0.name@ implies struct_same(t.structs@[i].1, t2.structs@[j].1) by {
        let x = t.structs@[i].0.name@;
        lemma_same_definition_by_name(file.structs@, file2.structs@, n1, n2, x);
        lemma_last_index_of(n1, x);
        assert(n1.contains(x));
        lemma_struct_deterministic(
            file.structs@[last_index_of(n1, x)],
            t.structs@[i].1,
            t2.structs@[j].1,
        );
    }
}

/// Function entries and the parameters of `main` under reordered function
/// definitions, each name given once.
proof fn lemma_reordered_functions<F, P: Fn(&String) -> F>(
    file: ast::File,
    file2: ast::File,
    name: Seq<char>,
    t: Program<F>,
    t2: Program<F>,
    pf: P,
)
    requires
        parser_deterministic(pf),
        same_definitions(file.functions@, file2.functions@),
        no_duplicates(function_names(file)),
        no_duplicates(function_names(file2)),
        program_converts(file, name, t, pf),
        program_converts(file2, name, t2, pf),
    ensures
        forall|i: int|
            #![trigger t.functions@[i]]
            0 <= i < t.functions@.len() ==> has_function_named(t2, t.functions@[i].0.0@),
        forall|j: int|
            #![trigger t2.functions@[j]]
            0 <= j < t2.functions@.len() ==> has_function_named(t, t2.functions@[j].0.0@),
        forall|i: int, j: int|
            0 <= i < t.functions@.len() && 0 <= j < t2.functions@.len() && #[trigger] t.functions@[i].0.0@
                == #[trigger] t2.functions@[j].0.0@ ==> function_same(t.functions@[i].1, t2.functions@[j].1),
        t2.num_parameters == t.num_parameters,
{
    let n1 = function_names(file);
    let n2 = function_names(file2);
    law_functions_by_name(file, name, t, pf);
    law_functions_by_name(file2, name, t2, pf);
    assert forall|i: int|
        #![trigger t.functions@[i]]
        0 <= i < t.functions@.len() implies has_function_named(t2, t.functions@[i].0.0@) by {
        let x = t.functions@[i].0.0@;
        lemma_same_definition_by_name(file.functions@, file2.functions@, n1, n2, x);
        assert(n1.contains(x));
        assert(n2.contains(x));
    }
    assert forall|j: int|
        #![trigger t2.functions@[j]]
        0 <= j < t2.functions@.len() implies has_function_named(t, t2.functions@[j].0.0@) by {
        let x = t2.functions@[j].0.0@;
        lemma_same_definition_by_name(file.functions@, file2.functions@, n1, n2, x);
        assert(n2.contains(x));
        assert(n1.contains(x));
    }
    assert forall|i: int, j: int|
        0 <= i < t.functions@.len() && 0 <= j < t2.functions@.len() && #[trigger] t.functions@[i].0.0@
            == #[trigger] t2.functions@[j].0.0@ implies function_same(t.functions@[i].1, t2.functions@[j].1) by {
        let x = t.functions@[i].0.0@;
        lemma_same_definition_by_name(file.functions@, file2.functions@, n1, n2, x);
        lemma_last_index_of(n1, x);
        assert(n1.contains(x));
        lemma_function_deterministic(
            file.functions@[last_index_of(n1, x)],
            t.functions@[i].1,
            t2.functions@[j].1,
            pf,
        );
    }
    lemma_same_definition_by_name(file.functions@, file2.functions@, n1, n2, "main"@);
    lemma_last_index_of(n1, "main"@);
    lemma_last_index_of(n2, "main"@);
}

/// Reordering struct and function definitions, each name given once, does
/// not change what a program holds: the same name, the same imports, the same
/// definition under each name, and the same number of parameters of `main`,
/// when the field element parser depends only on its text.
pub proof fn law_reordering_definitions<F, P: Fn(&String) -> F>(
    file: ast::File,
    file2: ast::File,
    name: Seq<char>,
    t: Program<F>,
    t2: Program<F>,
    pf: P,
)
    requires
        parser_deterministic(pf),
        file2.imports@ == file.imports@,
        same_definitions(file.structs@, file2.structs@),
        same_definitions(file.functions@, file2.functions@),
        no_duplicates(struct_names(file)),
        no_duplicates(struct_names(file2)),
        no_duplicates(function_names(file)),
        no_duplicates(function_names(file2)),
        program_converts(file, name, t, pf),
        program_converts(file2, name, t2, pf),
    ensures
        t2.name.name@ == t.name.name@,
        t2.num_parameters == t.num_parameters,
        t2.imports@.len() == t.imports@.len(),
        forall|i: int| 0 <= i < t.imports@.len() ==> import_same(#[trigger] t.imports@[i], t2.imports@[i]),
        forall|i: int|
            #![trigger t.structs@[i]]
            0 <= i < t.structs@.len() ==> has_struct_named(t2, t.structs@[i].0.name@),
        forall|j: int|
            #![trigger t2.structs@[j]]
            0 <= j < t2.structs@.len() ==> has_struct_named(t, t2.structs@[j].0.name@),
        forall|i: int, j: int|
            0 <= i < t.structs@.len() && 0 <= j < t2.structs@.len() && #[trigger] t.structs@[i].0.name@
                == #[trigger] t2.structs@[j].0.name@ ==> struct_same(t.structs@[i].1, t2.structs@[j].1),
        forall|i: int|
            #![trigger t.functions@[i]]
            0 <= i < t.functions@.len() ==> has_function_named(t2, t.functions@[i].0.0@),
        forall|j: int|
            #![trigger t2.functions@[j]]
            0 <= j < t2.functions@.len() ==> has_function_named(t, t2.functions@[j].0.0@),
        forall|i: int, j: int|
            0 <= i < t.functions@.len() && 0 <= j < t2.functions@.len() && #[trigger] t.functions@[i].0.0@
                == #[trigger] t2.functions@[j].0.0@ ==> function_same(t.functions@[i].1, t2.functions@[j].1),
{
    lemma_reordered_structs(file, file2, name, t, t2, pf);
    lemma_reordered_functions(file, file2, name, t, t2, pf);
    assert forall|i: int| 0 <= i < t.imports@.len() implies import_same(
        #[trigger] t.imports@[i],
        t2.imports@[i],
    ) by {
        lemma_import_deterministic(file.imports@[i], t.imports@[i], t2.imports@[i]);
    }
}

} // verus!
