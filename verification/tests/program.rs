use leo_compiler::ast;
use leo_compiler::types::{
    Expression, Function, FunctionName, Import, ImportSymbol, Integer, ParameterModel, Program,
    Statement, Struct, StructField, Type, Variable,
};

fn field_from_str(text: &String) -> u64 {
    text.parse::<u64>().unwrap_or_default()
}

fn var(name: &str) -> ast::Variable {
    ast::Variable { value: name.to_string() }
}

fn tvar(name: &str) -> Variable {
    Variable { name: name.to_string() }
}

fn count(text: &str) -> ast::Value {
    ast::Value::U32(ast::U32 { number: ast::Number { value: text.to_string() } })
}

fn parameter(name: &str, visibility: Option<ast::Visibility>) -> ast::Parameter {
    ast::Parameter { visibility, variable: var(name), ty: ast::Type::Basic(ast::BasicType::Field) }
}

fn function(name: &str, parameters: Vec<ast::Parameter>, result: u32) -> ast::Function {
    ast::Function {
        function_name: ast::FunctionName { value: name.to_string() },
        parameters,
        returns: vec![ast::Type::Basic(ast::BasicType::U32)],
        statements: vec![ast::Statement::Return(ast::ReturnStatement {
            expressions: vec![ast::Expression::Value(ast::Value::U32(ast::U32 {
                number: ast::Number { value: result.to_string() },
            }))],
        })],
    }
}

fn structure(name: &str, fields: &[&str]) -> ast::Struct {
    ast::Struct {
        variable: var(name),
        fields: fields
            .iter()
            .map(|f| ast::StructField { variable: var(f), ty: ast::Type::Basic(ast::BasicType::Boolean) })
            .collect(),
    }
}

fn tstructure(name: &str, fields: &[&str]) -> Struct {
    Struct {
        variable: tvar(name),
        fields: fields.iter().map(|f| StructField { variable: tvar(f), ty: Type::Boolean }).collect(),
    }
}

fn convert(file: ast::File) -> Program<u64> {
    Program::from(file, "test".to_string(), &field_from_str)
}

#[test]
fn types() {
    assert_eq!(Type::from_ast(&ast::Type::Basic(ast::BasicType::U32)), Type::U32);
    assert_eq!(Type::from_ast(&ast::Type::Basic(ast::BasicType::Field)), Type::FieldElement);
    assert_eq!(Type::from_ast(&ast::Type::Basic(ast::BasicType::Boolean)), Type::Boolean);
    assert_eq!(
        Type::from_ast(&ast::Type::Array(ast::ArrayType { ty: ast::BasicType::U32, count: count("4") })),
        Type::Array(Box::new(Type::U32), 4)
    );
    assert_eq!(
        Type::from_ast(&ast::Type::Struct(ast::StructType { variable: var("Point") })),
        Type::Struct(tvar("Point"))
    );
}

#[test]
fn parameters_are_private_unless_public() {
    let p = |v| ParameterModel::from_ast(&parameter("a", v)).private;
    assert!(p(None));
    assert!(p(Some(ast::Visibility::Private)));
    assert!(!p(Some(ast::Visibility::Public)));
}

#[test]
fn imports() {
    let import = ast::Import {
        source: ast::ImportSource { value: "lib/geometry".to_string() },
        symbols: vec![
            ast::ImportSymbol { value: var("Point"), alias: None },
            ast::ImportSymbol { value: var("distance"), alias: Some(var("dist")) },
        ],
    };
    assert_eq!(
        Import::from_ast(&import),
        Import {
            path_string: "lib/geometry".to_string(),
            symbols: vec![
                ImportSymbol { symbol: tvar("Point"), alias: None },
                ImportSymbol { symbol: tvar("distance"), alias: Some(tvar("dist")) },
            ],
        }
    );
}

#[test]
fn function_definition() {
    let f = function("add", vec![parameter("a", Some(ast::Visibility::Public)), parameter("b", None)], 3);
    assert_eq!(
        Function::from_ast(&f, &field_from_str),
        Function {
            function_name: FunctionName("add".to_string()),
            parameters: vec![
                ParameterModel { private: false, ty: Type::FieldElement, variable: tvar("a") },
                ParameterModel { private: true, ty: Type::FieldElement, variable: tvar("b") },
            ],
            returns: vec![Type::U32],
            statements: vec![Statement::Return(vec![Expression::Integer(Integer::U32(3))])],
        }
    );
}

#[test]
fn empty_file() {
    let program = convert(ast::File { imports: vec![], structs: vec![], functions: vec![] });
    assert_eq!(program.name, tvar("test"));
    assert_eq!(program.num_parameters, 0);
    assert!(program.imports.is_empty() && program.structs.is_empty() && program.functions.is_empty());
}

#[test]
fn main_parameters_are_counted() {
    let file = ast::File {
        imports: vec![],
        structs: vec![],
        functions: vec![
            function("helper", vec![parameter("x", None)], 1),
            function("main", vec![parameter("a", None), parameter("b", None)], 2),
        ],
    };
    let program = convert(file);
    assert_eq!(program.num_parameters, 2);
    assert_eq!(program.functions.len(), 2);
    assert_eq!(program.functions[0].0, FunctionName("helper".to_string()));
    assert_eq!(program.functions[1].0, FunctionName("main".to_string()));
}

#[test]
fn no_main_means_no_parameters() {
    let file = ast::File {
        imports: vec![],
        structs: vec![],
        functions: vec![function("helper", vec![parameter("x", None)], 1)],
    };
    assert_eq!(convert(file).num_parameters, 0);
}

#[test]
fn later_definitions_replace_earlier_ones() {
    let file = ast::File {
        imports: vec![],
        structs: vec![structure("A", &["x"]), structure("B", &["y"]), structure("A", &["z", "w"])],
        functions: vec![
            function("main", vec![parameter("a", None)], 1),
            function("other", vec![], 2),
            function("main", vec![parameter("a", None), parameter("b", None), parameter("c", None)], 3),
        ],
    };
    let program = convert(file);
    assert_eq!(
        program.structs,
        vec![(tvar("A"), tstructure("A", &["z", "w"])), (tvar("B"), tstructure("B", &["y"]))]
    );
    assert_eq!(program.functions.len(), 2);
    assert_eq!(program.functions[0].0, FunctionName("main".to_string()));
    assert_eq!(program.functions[0].1.parameters.len(), 3);
    assert_eq!(
        program.functions[0].1.statements,
        vec![Statement::Return(vec![Expression::Integer(Integer::U32(3))])]
    );
    assert_eq!(program.functions[1].0, FunctionName("other".to_string()));
    assert_eq!(program.num_parameters, 3);
}

#[test]
fn reordering_definitions_keeps_entries() {
    let structs = || vec![structure("A", &["x"]), structure("B", &["y", "z"])];
    let functions = || {
        vec![
            function("main", vec![parameter("a", None), parameter("b", None)], 1),
            function("other", vec![], 2),
        ]
    };
    let file = ast::File { imports: vec![], structs: structs(), functions: functions() };
    let mut reversed_structs = structs();
    reversed_structs.reverse();
    let mut reversed_functions = functions();
    reversed_functions.reverse();
    let file2 = ast::File { imports: vec![], structs: reversed_structs, functions: reversed_functions };
    let p = convert(file);
    let p2 = convert(file2);
    assert_eq!(p.num_parameters, p2.num_parameters);
    assert_eq!(p.name, p2.name);
    for (key, definition) in &p.structs {
        let other = p2.structs.iter().find(|(k, _)| k == key).expect("struct entry");
        assert_eq!(&other.1, definition);
    }
    for (key, definition) in &p.functions {
        let other = p2.functions.iter().find(|(k, _)| k == key).expect("function entry");
        assert_eq!(&other.1, definition);
    }
    assert_eq!(p.structs.len(), p2.structs.len());
    assert_eq!(p.functions.len(), p2.functions.len());
}
