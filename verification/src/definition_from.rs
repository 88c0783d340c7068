//! Conversion of types, struct and function definitions and imports.

use vstd::prelude::*;

use crate::ast;
use crate::definition_spec::{
    basic_type, field_converts, function_convertible, function_converts, import_converts,
    parameter_converts, struct_convertible, struct_converts, symbol_converts, type_convertible,
    type_converts, types_convert, types_convertible,
};
use crate::expression_spec::parser_accepts_all;
use crate::types::{
    Expression, Function, FunctionName, Import, ImportSymbol, ParameterModel, Statement, Struct,
    StructField, Type, Variable,
};

verus! {

impl Type {
    /// A basic type.
    pub fn from_basic(basic_type: &ast::BasicType) -> (r: Type)
        ensures
            r == crate::definition_spec::basic_type(*basic_type),
    {
        match basic_type {
            ast::BasicType::U32 => Type::U32,
            ast::BasicType::Field => Type::FieldElement,
            ast::BasicType::Boolean => Type::Boolean,
        }
    }

    /// `basic[count]`
    pub fn from_array(array_type: &ast::ArrayType) -> (r: Type)
        requires
            type_convertible(ast::Type::Array(*array_type)),
        ensures
            type_converts(ast::Type::Array(*array_type), r),
    {
        let element_type = Box::new(Type::from_basic(&array_type.ty));
        let count = Expression::<()>::get_count(&array_type.count);
        Type::Array(element_type, count)
    }

    /// A struct type.
    pub fn from_struct(struct_type: &ast::StructType) -> (r: Type)
        ensures
            type_converts(ast::Type::Struct(*struct_type), r),
    {
        Type::Struct(Variable::from_ast(&struct_type.variable))
    }

    /// A type.
    pub fn from_ast(ty: &ast::Type) -> (r: Type)
        requires
            type_convertible(*ty),
        ensures
            type_converts(*ty, r),
    {
        match ty {
            ast::Type::Basic(ty) => Type::from_basic(ty),
            ast::Type::Array(ty) => Type::from_array(ty),
            ast::Type::Struct(ty) => Type::from_struct(ty),
        }
    }

    /// Types converted in order.
    pub fn from_types(types: &Vec<ast::Type>) -> (r: Vec<Type>)
        requires
            types_convertible(types@),
        ensures
            types_convert(types@, r@),
    {
        let mut out: Vec<Type> = Vec::new();
        let mut i: usize = 0;
        while i < types.len()
            invariant
                i <= types@.len(),
                out@.len() == i,
                types_convertible(types@),
                forall|j: int| 0 <= j < i ==> type_converts(#[trigger] types@[j], out@[j]),
            decreases types@.len() - i,
        {
            out.push(Type::from_ast(&types[i]));
            i = i + 1;
        }
        out
    }
}

impl StructField {
    /// A field of a struct definition.
    pub fn from_ast(struct_field: &ast::StructField) -> (r: StructField)
        requires
            type_convertible(struct_field.ty),
        ensures
            field_converts(*struct_field, r),
    {
        StructField {
            variable: Variable::from_ast(&struct_field.variable),
            ty: Type::from_ast(&struct_field.ty),
        }
    }
}

impl Struct {
    /// A struct definition: its name and its fields, in order.
    pub fn from_ast(struct_definition: &ast::Struct) -> (r: Struct)
        requires
            struct_convertible(*struct_definition),
        ensures
            struct_converts(*struct_definition, r),
    {
        let variable = Variable::from_ast(&struct_definition.variable);
        let mut fields: Vec<StructField> = Vec::new();
        let mut i: usize = 0;
        while i < struct_definition.fields.len()
            invariant
                i <= struct_definition.fields@.len(),
                fields@.len() == i,
                struct_convertible(*struct_definition),
                forall|j: int|
                    0 <= j < i ==> field_converts(
                        #[trigger] struct_definition.fields@[j],
                        fields@[j],
                    ),
            decreases struct_definition.fields@.len() - i,
        {
            proof {
                assert(type_convertible(struct_definition.fields@[i as int].ty));
            }
            fields.push(StructField::from_ast(&struct_definition.fields[i]));
            i = i + 1;
        }
        Struct { variable, fields }
    }
}

impl ParameterModel {
    /// A function parameter, private unless declared public.
    pub fn from_ast(parameter: &ast::Parameter) -> (r: ParameterModel)
        requires
            type_convertible(parameter.ty),
        ensures
            parameter_converts(*parameter, r),
    {
        let ty = Type::from_ast(&parameter.ty);
        let variable = Variable::from_ast(&parameter.variable);
        match parameter.visibility {
            Some(visibility) => {
                let private = match visibility {
                    ast::Visibility::Private => true,
                    ast::Visibility::Public => false,
                };
                ParameterModel { private, ty, variable }
            },
            None => ParameterModel { private: true, ty, variable },
        }
    }
}

impl FunctionName {
    /// The name of a function.
    pub fn from_ast(name: &ast::FunctionName) -> (r: FunctionName)
        ensures
            r.0@ == name.value@,
    {
        FunctionName(name.value.clone())
    }
}

impl<F> Function<F> {
    /// A function definition: its name, its parameters, its return types and
    /// its statements, each in order.
    pub fn from_ast<P: Fn(&String) -> F>(function_definition: &ast::Function, field_from_str: &P) -> (r:
        Function<F>)
        requires
            function_convertible(*function_definition),
            parser_accepts_all(*field_from_str),
        ensures
            function_converts(*function_definition, r, *field_from_str),
    {
        let function_name = FunctionName::from_ast(&function_definition.function_name);
        let mut parameters: Vec<ParameterModel> = Vec::new();
        let mut i: usize = 0;
        while i < function_definition.parameters.len()
            invariant
                i <= function_definition.parameters@.len(),
                parameters@.len() == i,
                function_convertible(*function_definition),
                forall|j: int|
                    0 <= j < i ==> parameter_converts(
                        #[trigger] function_definition.parameters@[j],
                        parameters@[j],
                    ),
            decreases function_definition.parameters@.len() - i,
        {
            proof {
                assert(type_convertible(function_definition.parameters@[i as int].ty));
            }
            parameters.push(ParameterModel::from_ast(&function_definition.parameters[i]));
            i = i + 1;
        }
        let return_types = Type::from_types(&function_definition.returns);
        let statements = Statement::from_statements(&function_definition.statements, field_from_str);
        Function { function_name, parameters, returns: return_types, statements }
    }
}

impl ImportSymbol {
    /// An imported name with its optional alias.
    pub fn from_ast(symbol: &ast::ImportSymbol) -> (r: ImportSymbol)
        ensures
            symbol_converts(*symbol, r),
    {
        let alias = match &symbol.alias {
            Some(alias) => Some(Variable::from_ast(alias)),
            None => None,
        };
        ImportSymbol { symbol: Variable::from_ast(&symbol.value), alias }
    }
}

impl Import {
    /// An import: its path and its symbols, in order.
    pub fn from_ast(import: &ast::Import) -> (r: Import)
        ensures
            import_converts(*import, r),
    {
        let mut symbols: Vec<ImportSymbol> = Vec::new();
        let mut i: usize = 0;
        while i < import.symbols.len()
            invariant
                i <= import.symbols@.len(),
                symbols@.len() == i,
                forall|j: int|
                    0 <= j < i ==> symbol_converts(#[trigger] import.symbols@[j], symbols@[j]),
            decreases import.symbols@.len() - i,
        {
            symbols.push(ImportSymbol::from_ast(&import.symbols[i]));
            i = i + 1;
        }
        Import { path_string: import.source.value.clone(), symbols }
    }
}

} // verus!
