//! Conversion of a whole source file into a program.
//!
//! Struct and function definitions are collected by name; when a name is
//! defined twice the later definition replaces the earlier one. The program
//! records how many parameters its `main` function takes.

use vstd::prelude::*;
use vstd::string::*;

use crate::ast;
use crate::definition_spec::{
    function_convertible, function_converts, import_converts, struct_convertible, struct_converts,
};
use crate::expression_spec::parser_accepts_all;
use crate::types::{Function, FunctionName, Import, Program, Struct, Variable};

verus! {

// ---------------------------------------------------------------------------
// Sequences of names
// ---------------------------------------------------------------------------
/// The position of the last occurrence of `x` in `s`, or `-1` if there is none.
pub open spec fn last_index_of<A>(s: Seq<A>, x: A) -> int
    decreases s.len(),
{
    if s.len() == 0 {
        -1
    } else if s.last() == x {
        s.len() - 1
    } else {
        last_index_of(s.drop_last(), x)
    }
}

/// The distinct elements of `s`, in the order of their first occurrence.
pub open spec fn distinct_in_order<A>(s: Seq<A>) -> Seq<A>
    decreases s.len(),
{
    if s.len() == 0 {
        Seq::empty()
    } else {
        let d = distinct_in_order(s.drop_last());
        if d.contains(s.last()) {
            d
        } else {
            d.push(s.last())
        }
    }
}

/// No element occurs twice in `s`.
pub open spec fn no_duplicates<A>(s: Seq<A>) -> bool {
    forall|i: int, j: int| 0 <= i < s.len() && 0 <= j < s.len() && i != j ==> s[i] != s[j]
}

/// `last_index_of` finds the last occurrence, and finds one exactly when
/// there is one.
pub proof fn lemma_last_index_of<A>(s: Seq<A>, x: A)
    ensures
        -1 <= last_index_of(s, x) < s.len(),
        last_index_of(s, x) >= 0 <==> s.contains(x),
        last_index_of(s, x) >= 0 ==> s[last_index_of(s, x)] == x,
        forall|k: int| last_index_of(s, x) < k < s.len() ==> s[k] != x,
    decreases s.len(),
{
    if s.len() > 0 {
        lemma_last_index_of(s.drop_last(), x);
        if s.last() != x {
            if s.drop_last().contains(x) {
                let k = choose|k: int| 0 <= k < s.drop_last().len() && s.drop_last()[k] == x;
                assert(s[k] == x);
            }
            if s.contains(x) {
                let k = choose|k: int| 0 <= k < s.len() && s[k] == x;
                assert(s.drop_last()[k] == x);
            }
            assert forall|k: int| last_index_of(s, x) < k < s.len() implies s[k] != x by {
                if k < s.len() - 1 {
                    assert(s[k] == s.drop_last()[k]);
                }
            }
        }
    }
}

/// Appending `x` moves the last occurrence of `x` to the end and leaves the
/// others where they were.
pub proof fn lemma_last_index_of_push<A>(s: Seq<A>, x: A, y: A)
    ensures
        last_index_of(s.push(x), y) == if y == x {
            s.len() as int
        } else {
            last_index_of(s, y)
        },
{
    assert(s.push(x).drop_last() =~= s);
}

/// The distinct elements of `s` are those of `s`, each once.
pub proof fn lemma_distinct_in_order<A>(s: Seq<A>)
    ensures
        no_duplicates(distinct_in_order(s)),
        forall|x: A| #[trigger] distinct_in_order(s).contains(x) <==> s.contains(x),
    decreases s.len(),
{
    if s.len() > 0 {
        let t = s.drop_last();
        lemma_distinct_in_order(t);
        let d = distinct_in_order(t);
        assert forall|x: A| #[trigger] distinct_in_order(s).contains(x) <==> s.contains(x) by {
            if s.contains(x) {
                let k = choose|k: int| 0 <= k < s.len() && s[k] == x;
                if k < t.len() {
                    assert(t[k] == x);
                }
            }
            if t.contains(x) {
                let k = choose|k: int| 0 <= k < t.len() && t[k] == x;
                assert(s[k] == x);
            }
            if !d.contains(s.last()) {
                if d.push(s.last()).contains(x) && x != s.last() {
                    let k = choose|k: int| 0 <= k < d.push(s.last()).len() && d.push(s.last())[k] == x;
                    assert(d[k] == x);
                }
                if d.contains(x) {
                    let k = choose|k: int| 0 <= k < d.len() && d[k] == x;
                    assert(d.push(s.last())[k] == x);
                }
                assert(d.push(s.last())[d.len() as int] == s.last());
            }
        }
    }
}

/// Appending `x` adds it to the distinct elements unless it is already there.
pub proof fn lemma_distinct_in_order_push<A>(s: Seq<A>, x: A)
    ensures
        distinct_in_order(s.push(x)) == if distinct_in_order(s).contains(x) {
            distinct_in_order(s)
        } else {
            distinct_in_order(s).push(x)
        },
{
    assert(s.push(x).drop_last() =~= s);
}

// ---------------------------------------------------------------------------
// What converting a file means
// ---------------------------------------------------------------------------
/// The names of the struct definitions of a file, in order.
pub open spec fn struct_names(file: ast::File) -> Seq<Seq<char>> {
    file.structs@.map_values(|s: ast::Struct| s.variable.value@)
}

/// The names of the function definitions of a file, in order.
pub open spec fn function_names(file: ast::File) -> Seq<Seq<char>> {
    file.functions@.map_values(|f: ast::Function| f.function_name.value@)
}

/// A file that the conversion accepts: all its definitions convert.
pub open spec fn file_convertible(file: ast::File) -> bool {
    &&& forall|i: int|
        0 <= i < file.structs@.len() ==> struct_convertible(#[trigger] file.structs@[i])
    &&& forall|i: int|
        0 <= i < file.functions@.len() ==> function_convertible(#[trigger] file.functions@[i])
}

/// `entries` holds, for each name among the first `n` struct definitions,
/// in the order in which the names were first defined, the name and the
/// conversion of the last of those definitions with that name.
pub open spec fn struct_entries(
    file: ast::File,
    n: int,
    entries: Seq<(Variable, Struct)>,
) -> bool {
    let names = struct_names(file).take(n);
    let keys = distinct_in_order(names);
    &&& entries.len() == keys.len()
    &&& forall|i: int|
        0 <= i < entries.len() ==> (#[trigger] entries[i]).0.name@ == keys[i] && struct_converts(
            file.structs@[last_index_of(names, keys[i])],
            entries[i].1,
        )
}

/// `entries` holds, for each name among the first `n` function definitions,
/// in the order in which the names were first defined, the name and the
/// conversion of the last of those definitions with that name.
pub open spec fn function_entries<F, P: Fn(&String) -> F>(
    file: ast::File,
    n: int,
    entries: Seq<(FunctionName, Function<F>)>,
    pf: P,
) -> bool {
    let names = function_names(file).take(n);
    let keys = distinct_in_order(names);
    &&& entries.len() == keys.len()
    &&& forall|i: int|
        0 <= i < entries.len() ==> (#[trigger] entries[i]).0.0@ == keys[i] && function_converts(
            file.functions@[last_index_of(names, keys[i])],
            entries[i].1,
            pf,
        )
}

/// The number of parameters of the last function named `main`, or 0 if
/// there is none.
pub open spec fn main_parameter_count(file: ast::File) -> int {
    let k = last_index_of(function_names(file), "main"@);
    if k >= 0 {
        file.functions@[k].parameters@.len() as int
    } else {
        0
    }
}

/// A program whose struct and function entries each have a distinct name,
/// the name of the definition they hold.
pub open spec fn program_well_formed<F>(t: Program<F>) -> bool {
    &&& forall|i: int, j: int|
        0 <= i < t.structs@.len() && 0 <= j < t.structs@.len() && i != j
            ==> t.structs@[i].0.name@ != t.structs@[j].0.name@
    &&& forall|i: int|
        0 <= i < t.structs@.len() ==> (#[trigger] t.structs@[i]).1.variable.name@
            == t.structs@[i].0.name@
    &&& forall|i: int, j: int|
        0 <= i < t.functions@.len() && 0 <= j < t.functions@.len() && i != j
            ==> t.functions@[i].0.0@ != t.functions@[j].0.0@
    &&& forall|i: int|
        0 <= i < t.functions@.len() ==> (#[trigger] t.functions@[i]).1.function_name.0@
            == t.functions@[i].0.0@
}

/// `t` is the conversion of `file` under the name `name`.
pub open spec fn program_converts<F, P: Fn(&String) -> F>(
    file: ast::File,
    name: Seq<char>,
    t: Program<F>,
    pf: P,
) -> bool {
    &&& t.name.name@ == name
    &&& t.num_parameters == main_parameter_count(file)
    &&& t.imports@.len() == file.imports@.len()
    &&& forall|i: int|
        0 <= i < file.imports@.len() ==> import_converts(#[trigger] file.imports@[i], t.imports@[i])
    &&& struct_entries(file, file.structs@.len() as int, t.structs@)
    &&& function_entries(file, file.functions@.len() as int, t.functions@, pf)
}

// ---------------------------------------------------------------------------
// Conversion
// ---------------------------------------------------------------------------
/// Where the struct named `name` stands among `entries`.
fn struct_position(entries: &Vec<(Variable, Struct)>, name: &String) -> (r: Option<usize>)
    ensures
        r matches Some(j) ==> j < entries@.len() && entries@[j as int].0.name@ == name@,
        r is None ==> forall|i: int| 0 <= i < entries@.len() ==> entries@[i].0.name@ != name@,
{
    let mut j: usize = 0;
    while j < entries.len()
        invariant
            j <= entries@.len(),
            forall|i: int| 0 <= i < j ==> entries@[i].0.name@ != name@,
        decreases entries@.len() - j,
    {
        if entries[j].0.name == *name {
            return Some(j);
        }
        j = j + 1;
    }
    None
}

/// Where the function named `name` stands among `entries`.
fn function_position<F>(entries: &Vec<(FunctionName, Function<F>)>, name: &String) -> (r: Option<
    usize,
>)
    ensures
        r matches Some(j) ==> j < entries@.len() && entries@[j as int].0.0@ == name@,
        r is None ==> forall|i: int| 0 <= i < entries@.len() ==> entries@[i].0.0@ != name@,
{
    let mut j: usize = 0;
    while j < entries.len()
        invariant
            j <= entries@.len(),
            forall|i: int| 0 <= i < j ==> entries@[i].0.0@ != name@,
        decreases entries@.len() - j,
    {
        if entries[j].0.0 == *name {
            return Some(j);
        }
        j = j + 1;
    }
    None
}

/// After one more definition named `x`, the entries keep their keys and each
/// other key keeps its last definition.
proof fn lemma_one_more_name(names: Seq<Seq<char>>, k: int, x: Seq<char>)
    requires
        0 <= k < names.len(),
        names[k] == x,
    ensures
        names.take(k + 1) == names.take(k).push(x),
        distinct_in_order(names.take(k + 1)) == if distinct_in_order(names.take(k)).contains(x) {
            distinct_in_order(names.take(k))
        } else {
            distinct_in_order(names.take(k)).push(x)
        },
        forall|y: Seq<char>|
            #[trigger] last_index_of(names.take(k + 1), y) == if y == x {
                k
            } else {
                last_index_of(names.take(k), y)
            },
        no_duplicates(distinct_in_order(names.take(k))),
{
    assert(names.take(k + 1) =~= names.take(k).push(x));
    lemma_distinct_in_order_push(names.take(k), x);
    assert forall|y: Seq<char>|
        #[trigger] last_index_of(names.take(k + 1), y) == if y == x {
            k
        } else {
            last_index_of(names.take(k), y)
        } by {
        lemma_last_index_of_push(names.take(k), x, y);
    }
    lemma_distinct_in_order(names.take(k));
}

impl<F> Program<F> {
    /// Converts a source file into a program called `name`. The text of each
    /// field element literal is handed to `field_from_str`.
    pub fn from<P: Fn(&String) -> F>(file: ast::File, name: String, field_from_str: &P) -> (r:
        Program<F>)
        requires
            file_convertible(file),
            parser_accepts_all(*field_from_str),
        ensures
            program_converts(file, name@, r, *field_from_str),
            program_well_formed(r),
    {
        let mut imports: Vec<Import> = Vec::new();
        let mut i: usize = 0;
        while i < file.imports.len()
            invariant
                i <= file.imports@.len(),
                imports@.len() == i,
                forall|j: int|
                    0 <= j < i ==> import_converts(#[trigger] file.imports@[j], imports@[j]),
            decreases file.imports@.len() - i,
        {
            imports.push(Import::from_ast(&file.imports[i]));
            i = i + 1;
        }

        let ghost snames = struct_names(file);
        let mut structs: Vec<(Variable, Struct)> = Vec::new();
        let mut k: usize = 0;
        while k < file.structs.len()
            invariant
                k <= file.structs@.len(),
                snames == struct_names(file),
                file_convertible(file),
                struct_entries(file, k as int, structs@),
            decreases file.structs@.len() - k,
        {
            let definition = &file.structs[k];
            let key = Variable::from_ast(&definition.variable);
            proof {
                assert(struct_convertible(file.structs@[k as int]));
                lemma_one_more_name(snames, k as int, key.name@);
            }
            let value = Struct::from_ast(definition);
            let ghost before = structs@;
            match struct_position(&structs, &key.name) {
                Some(j) => {
                    structs.set(j, (key, value));
                    proof {
                        let keys = distinct_in_order(snames.take(k as int));
                        assert(keys[j as int] == before[j as int].0.name@);
                        assert(keys.contains(before[j as int].0.name@));
                        assert forall|m: int| 0 <= m < structs@.len() && m != j implies
                            #[trigger] structs@[m].0.name@ != key.name@ by {
                            assert(keys[m] != keys[j as int]);
                        }
                    }
                },
                None => {
                    structs.push((key, value));
                    proof {
                        let keys = distinct_in_order(snames.take(k as int));
                        assert forall|m: int| 0 <= m < keys.len() implies keys[m] != key.name@ by {
                            assert(before[m].0.name@ == keys[m]);
                        }
                        assert(!keys.contains(key.name@));
                    }
                },
            }
            k = k + 1;
        }

        let ghost fnames = function_names(file);
        let mut functions: Vec<(FunctionName, Function<F>)> = Vec::new();
        let mut k: usize = 0;
        while k < file.functions.len()
            invariant
                k <= file.functions@.len(),
                fnames == function_names(file),
                file_convertible(file),
                parser_accepts_all(*field_from_str),
                function_entries(file, k as int, functions@, *field_from_str),
            decreases file.functions@.len() - k,
        {
            let definition = &file.functions[k];
            let key = FunctionName::from_ast(&definition.function_name);
            proof {
                assert(function_convertible(file.functions@[k as int]));
                lemma_one_more_name(fnames, k as int, key.0@);
            }
            let value = Function::from_ast(definition, field_from_str);
            let ghost before = functions@;
            match function_position(&functions, &key.0) {
                Some(j) => {
                    functions.set(j, (key, value));
                    proof {
                        let keys = distinct_in_order(fnames.take(k as int));
                        assert(keys[j as int] == before[j as int].0.0@);
                        assert(keys.contains(before[j as int].0.0@));
                        assert forall|m: int| 0 <= m < functions@.len() && m != j implies
                            #[trigger] functions@[m].0.0@ != key.0@ by {
                            assert(keys[m] != keys[j as int]);
                        }
                    }
                },
                None => {
                    functions.push((key, value));
                    proof {
                        let keys = distinct_in_order(fnames.take(k as int));
                        assert forall|m: int| 0 <= m < keys.len() implies keys[m] != key.0@ by {
                            assert(before[m].0.0@ == keys[m]);
                        }
                        assert(!keys.contains(key.0@));
                    }
                },
            }
            k = k + 1;
        }

        let main_name = String::from_str("main");
        proof {
            assert(fnames.take(fnames.len() as int) =~= fnames);
            assert(snames.take(snames.len() as int) =~= snames);
            lemma_distinct_in_order(fnames);
            lemma_distinct_in_order(snames);
            lemma_last_index_of(fnames, "main"@);
            assert forall|m: int| 0 <= m < structs@.len() implies (#[trigger] structs@[m]).1.variable.name@
                == structs@[m].0.name@ by {
                let x = structs@[m].0.name@;
                assert(distinct_in_order(snames).contains(x));
                lemma_last_index_of(snames, x);
            }
            assert forall|m: int| 0 <= m < functions@.len() implies (#[trigger] functions@[m]).1.function_name.0@
                == functions@[m].0.0@ by {
                let x = functions@[m].0.0@;
                assert(distinct_in_order(fnames).contains(x));
                lemma_last_index_of(fnames, x);
            }
        }
        let num_parameters: usize = match function_position(&functions, &main_name) {
            Some(j) => {
                proof {
                    let keys = distinct_in_order(fnames);
                    assert(keys[j as int] == "main"@);
                    assert(keys.contains("main"@));
                }
                functions[j].1.parameters.len()
            },
            None => {
                proof {
                    let keys = distinct_in_order(fnames);
                    assert forall|m: int| 0 <= m < keys.len() implies keys[m] != "main"@ by {
                        assert(functions@[m].0.0@ == keys[m]);
                    }
                    assert(!keys.contains("main"@));
                }
                0
            },
        };

        Program {
            name: Variable { name },
            num_parameters,
            imports,
            structs,
            functions,
        }
    }
}

} // verus!
