//! What converting types, struct and function definitions and imports means.

use vstd::prelude::*;

use crate::ast;
use crate::expression_spec::{count_convertible, count_value, variable_converts};
use crate::statement_spec::{statements_convert, statements_convertible};
use crate::types;

verus! {

/// The type that a basic type denotes.
pub open spec fn basic_type(b: ast::BasicType) -> types::Type {
    match b {
        ast::BasicType::U32 => types::Type::U32,
        ast::BasicType::Field => types::Type::FieldElement,
        ast::BasicType::Boolean => types::Type::Boolean,
    }
}

/// A type that the conversion accepts: an array size must be a size literal.
pub open spec fn type_convertible(t: ast::Type) -> bool {
    match t {
        ast::Type::Array(at) => count_convertible(at.count),
        _ => true,
    }
}

/// `t` is the conversion of the type `a`.
pub open spec fn type_converts(a: ast::Type, t: types::Type) -> bool {
    match a {
        ast::Type::Basic(b) => t == basic_type(b),
        ast::Type::Array(at) => t matches types::Type::Array(element, n) && *element == basic_type(
            at.ty,
        ) && n == count_value(at.count),
        ast::Type::Struct(st) => t matches types::Type::Struct(x) && variable_converts(
            st.variable,
            x,
        ),
    }
}

/// An optional type that the conversion accepts.
pub open spec fn optional_type_convertible(t: Option<ast::Type>) -> bool {
    t matches Some(x) ==> type_convertible(x)
}

/// `t` is the conversion of the optional type `a`.
pub open spec fn optional_type_converts(a: Option<ast::Type>, t: Option<types::Type>) -> bool {
    match a {
        Some(x) => t matches Some(y) && type_converts(x, y),
        None => t is None,
    }
}

/// Types that the conversion all accepts.
pub open spec fn types_convertible(v: Seq<ast::Type>) -> bool {
    forall|i: int| 0 <= i < v.len() ==> type_convertible(#[trigger] v[i])
}

/// `t` holds the conversions of the types `v`, in order.
pub open spec fn types_convert(v: Seq<ast::Type>, t: Seq<types::Type>) -> bool {
    t.len() == v.len() && forall|i: int| 0 <= i < v.len() ==> type_converts(#[trigger] v[i], t[i])
}

/// `t` is the conversion of the struct field `a`.
pub open spec fn field_converts(a: ast::StructField, t: types::StructField) -> bool {
    variable_converts(a.variable, t.variable) && type_converts(a.ty, t.ty)
}

/// A struct definition that the conversion accepts.
pub open spec fn struct_convertible(s: ast::Struct) -> bool {
    forall|i: int| 0 <= i < s.fields@.len() ==> type_convertible((#[trigger] s.fields@[i]).ty)
}

/// `t` is the conversion of the struct definition `s`: its name and its
/// fields, in order.
pub open spec fn struct_converts(s: ast::Struct, t: types::Struct) -> bool {
    &&& variable_converts(s.variable, t.variable)
    &&& t.fields@.len() == s.fields@.len()
    &&& forall|i: int|
        0 <= i < s.fields@.len() ==> field_converts(#[trigger] s.fields@[i], t.fields@[i])
}

/// A parameter is private unless it is declared public.
pub open spec fn is_private(visibility: Option<ast::Visibility>) -> bool {
    !(visibility == Some(ast::Visibility::Public))
}

/// `t` is the conversion of the parameter `p`.
pub open spec fn parameter_converts(p: ast::Parameter, t: types::ParameterModel) -> bool {
    &&& t.private == is_private(p.visibility)
    &&& type_converts(p.ty, t.ty)
    &&& variable_converts(p.variable, t.variable)
}

/// A function definition that the conversion accepts.
pub open spec fn function_convertible(f: ast::Function) -> bool {
    &&& forall|i: int|
        0 <= i < f.parameters@.len() ==> type_convertible((#[trigger] f.parameters@[i]).ty)
    &&& types_convertible(f.returns@)
    &&& statements_convertible(f.statements)
}

/// `t` is the conversion of the function definition `f`: its name, its
/// parameters, its return types and its statements, each in order.
pub open spec fn function_converts<F, P: Fn(&String) -> F>(
    f: ast::Function,
    t: types::Function<F>,
    pf: P,
) -> bool {
    &&& t.function_name.0@ == f.function_name.value@
    &&& t.parameters@.len() == f.parameters@.len()
    &&& forall|i: int|
        0 <= i < f.parameters@.len() ==> parameter_converts(
            #[trigger] f.parameters@[i],
            t.parameters@[i],
        )
    &&& types_convert(f.returns@, t.returns@)
    &&& statements_convert(f.statements, t.statements, pf)
}

/// `t` is the conversion of the imported symbol `a`.
pub open spec fn symbol_converts(a: ast::ImportSymbol, t: types::ImportSymbol) -> bool {
    &&& variable_converts(a.value, t.symbol)
    &&& match a.alias {
        Some(x) => t.alias matches Some(y) && variable_converts(x, y),
        None => t.alias is None,
    }
}

/// `t` is the conversion of the import `i`: its path and its symbols, in
/// order.
pub open spec fn import_converts(i: ast::Import, t: types::Import) -> bool {
    &&& t.path_string@ == i.source.value@
    &&& t.symbols@.len() == i.symbols@.len()
    &&& forall|k: int|
        0 <= k < i.symbols@.len() ==> symbol_converts(#[trigger] i.symbols@[k], t.symbols@[k])
}

} // verus!
