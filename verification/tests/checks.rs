use leo_compiler::ast;
use leo_compiler::checks::{expression_is_convertible, file_is_convertible, statement_is_convertible};

fn var(name: &str) -> ast::Variable {
    ast::Variable { value: name.to_string() }
}

fn num(text: &str) -> ast::Expression {
    ast::Expression::Value(ast::Value::U32(ast::U32 { number: ast::Number { value: text.to_string() } }))
}

fn name(n: &str) -> ast::Expression {
    ast::Expression::Variable(var(n))
}

fn binary(op: ast::BinaryOperator, l: ast::Expression, r: ast::Expression) -> ast::Expression {
    ast::Expression::Binary(ast::BinaryExpression { operation: op, left: Box::new(l), right: Box::new(r) })
}

fn postfix(accesses: Vec<ast::Access>) -> ast::Expression {
    ast::Expression::Postfix(ast::PostfixExpression { variable: var("f"), accesses })
}

fn call() -> ast::Access {
    ast::Access::Call(ast::CallAccess { expressions: vec![num("1")] })
}

fn member() -> ast::Access {
    ast::Access::Member(ast::MemberAccess { variable: var("m") })
}

#[test]
fn literals_must_read() {
    assert!(expression_is_convertible(&num("7")));
    assert!(!expression_is_convertible(&num("4294967296")));
    assert!(!expression_is_convertible(&num("x")));
    let b = |t: &str| ast::Expression::Value(ast::Value::Boolean(ast::Boolean { value: t.to_string() }));
    assert!(expression_is_convertible(&b("true")));
    assert!(!expression_is_convertible(&b("yes")));
    let f = ast::Expression::Value(ast::Value::Field(ast::Field { number: ast::Number { value: "zz".to_string() } }));
    assert!(expression_is_convertible(&f));
}

#[test]
fn not_equal_is_rejected() {
    assert!(expression_is_convertible(&binary(ast::BinaryOperator::Eq, name("a"), num("1"))));
    assert!(!expression_is_convertible(&binary(ast::BinaryOperator::Neq, name("a"), num("1"))));
    let nested = binary(ast::BinaryOperator::And, name("a"), binary(ast::BinaryOperator::Neq, num("1"), num("2")));
    assert!(!expression_is_convertible(&nested));
}

#[test]
fn calls_only_on_names() {
    assert!(expression_is_convertible(&postfix(vec![call(), member()])));
    assert!(!expression_is_convertible(&postfix(vec![member(), call()])));
    assert!(!expression_is_convertible(&postfix(vec![call(), call()])));
}

#[test]
fn array_sizes_must_be_u32_literals() {
    let init = |count: ast::Value| {
        ast::Expression::ArrayInitializer(ast::ArrayInitializerExpression {
            expression: Box::new(ast::SpreadOrExpression::Expression(num("0"))),
            count,
        })
    };
    let u = |t: &str| ast::Value::U32(ast::U32 { number: ast::Number { value: t.to_string() } });
    assert!(expression_is_convertible(&init(u("3"))));
    assert!(!expression_is_convertible(&init(u("three"))));
    assert!(!expression_is_convertible(&init(ast::Value::Boolean(ast::Boolean { value: "true".to_string() }))));
}

#[test]
fn loop_bounds_must_be_constants() {
    let for_loop = |start: ast::Expression| {
        ast::Statement::Iteration(ast::ForStatement { index: var("i"), start, stop: num("3"), statements: vec![] })
    };
    assert!(statement_is_convertible(&for_loop(num("0"))));
    assert!(!statement_is_convertible(&for_loop(name("n"))));
}

#[test]
fn whole_file() {
    let function = |statements: Vec<ast::Statement>| ast::Function {
        function_name: ast::FunctionName { value: "main".to_string() },
        parameters: vec![],
        returns: vec![],
        statements,
    };
    let ok = ast::File { imports: vec![], structs: vec![], functions: vec![function(vec![])] };
    assert!(file_is_convertible(&ok));
    let bad = ast::File {
        imports: vec![],
        structs: vec![],
        functions: vec![function(vec![ast::Statement::Expression(ast::ExpressionStatement {
            expression: binary(ast::BinaryOperator::Neq, num("1"), num("2")),
        })])],
    };
    assert!(!file_is_convertible(&bad));
}
