use leo_compiler::ast;
use leo_compiler::types::{
    Expression, Integer, RangeOrExpression, SpreadOrExpression, StructMember, Variable,
};

fn field_from_str(text: &String) -> u64 {
    text.parse::<u64>().unwrap_or_default()
}

fn var(name: &str) -> ast::Variable {
    ast::Variable { value: name.to_string() }
}

fn tvar(name: &str) -> Variable {
    Variable { name: name.to_string() }
}

fn num(text: &str) -> ast::Expression {
    ast::Expression::Value(ast::Value::U32(ast::U32 { number: ast::Number { value: text.to_string() } }))
}

fn field(text: &str) -> ast::Expression {
    ast::Expression::Value(ast::Value::Field(ast::Field { number: ast::Number { value: text.to_string() } }))
}

fn boolean(text: &str) -> ast::Expression {
    ast::Expression::Value(ast::Value::Boolean(ast::Boolean { value: text.to_string() }))
}

fn name(n: &str) -> ast::Expression {
    ast::Expression::Variable(var(n))
}

fn u32_expr(n: u32) -> Expression<u64> {
    Expression::Integer(Integer::U32(n))
}

fn tname(n: &str) -> Expression<u64> {
    Expression::Variable(tvar(n))
}

fn convert(e: &ast::Expression) -> Expression<u64> {
    Expression::from_expression(e, &field_from_str)
}

fn binary(op: ast::BinaryOperator, l: ast::Expression, r: ast::Expression) -> ast::Expression {
    ast::Expression::Binary(ast::BinaryExpression { operation: op, left: Box::new(l), right: Box::new(r) })
}

#[test]
fn values() {
    assert_eq!(convert(&num("5")), u32_expr(5));
    assert_eq!(convert(&boolean("true")), Expression::Boolean(true));
    assert_eq!(convert(&boolean("false")), Expression::Boolean(false));
    assert_eq!(convert(&name("x")), tname("x"));
}

#[test]
fn field_literal_goes_through_the_parser() {
    assert_eq!(convert(&field("77")), Expression::FieldElement(77));
    // a text the parser does not read becomes the default element
    assert_eq!(convert(&field("abc")), Expression::FieldElement(0));
    let doubled = |text: &String| text.len() as u64 * 2;
    assert_eq!(
        Expression::from_expression(&field("1234"), &doubled),
        Expression::FieldElement(8)
    );
}

#[test]
fn not_expression() {
    let e = ast::Expression::Not(ast::NotExpression { expression: Box::new(boolean("true")) });
    assert_eq!(convert(&e), Expression::Not(Box::new(Expression::Boolean(true))));
}

#[test]
fn binary_operators() {
    let b = |e1: Expression<u64>, e2: Expression<u64>| (Box::new(e1), Box::new(e2));
    let cases: Vec<(ast::BinaryOperator, fn(Box<Expression<u64>>, Box<Expression<u64>>) -> Expression<u64>)> = vec![
        (ast::BinaryOperator::Or, Expression::Or),
        (ast::BinaryOperator::And, Expression::And),
        (ast::BinaryOperator::Eq, Expression::Eq),
        (ast::BinaryOperator::Geq, Expression::Geq),
        (ast::BinaryOperator::Gt, Expression::Gt),
        (ast::BinaryOperator::Leq, Expression::Leq),
        (ast::BinaryOperator::Lt, Expression::Lt),
        (ast::BinaryOperator::Add, Expression::Add),
        (ast::BinaryOperator::Sub, Expression::Sub),
        (ast::BinaryOperator::Mul, Expression::Mul),
        (ast::BinaryOperator::Div, Expression::Div),
        (ast::BinaryOperator::Pow, Expression::Pow),
    ];
    for (op, make) in cases {
        let (l, r) = b(tname("a"), u32_expr(2));
        assert_eq!(convert(&binary(op, name("a"), num("2"))), make(l, r));
    }
}

#[test]
fn nested_binary() {
    let e = binary(
        ast::BinaryOperator::Add,
        num("1"),
        binary(ast::BinaryOperator::Mul, num("2"), num("3")),
    );
    assert_eq!(
        convert(&e),
        Expression::Add(
            Box::new(u32_expr(1)),
            Box::new(Expression::Mul(Box::new(u32_expr(2)), Box::new(u32_expr(3))))
        )
    );
}

#[test]
fn ternary() {
    let e = ast::Expression::Ternary(ast::TernaryExpression {
        first: Box::new(boolean("true")),
        second: Box::new(num("1")),
        third: Box::new(num("2")),
    });
    assert_eq!(
        convert(&e),
        Expression::IfElse(
            Box::new(Expression::Boolean(true)),
            Box::new(u32_expr(1)),
            Box::new(u32_expr(2))
        )
    );
}

#[test]
fn array_inline_keeps_order_and_spreads() {
    let e = ast::Expression::ArrayInline(ast::ArrayInlineExpression {
        expressions: vec![
            ast::SpreadOrExpression::Expression(num("1")),
            ast::SpreadOrExpression::Spread(ast::Spread { expression: name("rest") }),
            ast::SpreadOrExpression::Expression(num("3")),
        ],
    });
    assert_eq!(
        convert(&e),
        Expression::Array(vec![
            Box::new(SpreadOrExpression::Expression(u32_expr(1))),
            Box::new(SpreadOrExpression::Spread(tname("rest"))),
            Box::new(SpreadOrExpression::Expression(u32_expr(3))),
        ])
    );
}

#[test]
fn array_initializer_repeats_the_element() {
    let e = ast::Expression::ArrayInitializer(ast::ArrayInitializerExpression {
        expression: Box::new(ast::SpreadOrExpression::Expression(num("9"))),
        count: ast::Value::U32(ast::U32 { number: ast::Number { value: "3".to_string() } }),
    });
    let element = || Box::new(SpreadOrExpression::Expression(u32_expr(9)));
    assert_eq!(convert(&e), Expression::Array(vec![element(), element(), element()]));
}

#[test]
fn array_initializer_of_zero_elements() {
    let e = ast::Expression::ArrayInitializer(ast::ArrayInitializerExpression {
        expression: Box::new(ast::SpreadOrExpression::Expression(num("9"))),
        count: ast::Value::U32(ast::U32 { number: ast::Number { value: "0".to_string() } }),
    });
    assert_eq!(convert(&e), Expression::Array(vec![]));
}

#[test]
fn struct_inline() {
    let e = ast::Expression::StructInline(ast::StructInlineExpression {
        variable: var("Point"),
        members: vec![
            ast::InlineStructMember { variable: var("x"), expression: num("1") },
            ast::InlineStructMember { variable: var("y"), expression: field("2") },
        ],
    });
    assert_eq!(
        convert(&e),
        Expression::Struct(
            tvar("Point"),
            vec![
                StructMember { variable: tvar("x"), expression: u32_expr(1) },
                StructMember { variable: tvar("y"), expression: Expression::FieldElement(2) },
            ]
        )
    );
}

#[test]
fn postfix_accesses_wrap_in_order() {
    // a(34)[42].b
    let e = ast::Expression::Postfix(ast::PostfixExpression {
        variable: var("a"),
        accesses: vec![
            ast::Access::Call(ast::CallAccess { expressions: vec![num("34")] }),
            ast::Access::Array(ast::ArrayAccess {
                expression: ast::RangeOrExpression::Expression(num("42")),
            }),
            ast::Access::Member(ast::MemberAccess { variable: var("b") }),
        ],
    });
    assert_eq!(
        convert(&e),
        Expression::StructMemberAccess(
            Box::new(Expression::ArrayAccess(
                Box::new(Expression::FunctionCall(tvar("a"), vec![u32_expr(34)])),
                Box::new(RangeOrExpression::Expression(u32_expr(42)))
            )),
            tvar("b")
        )
    );
}

#[test]
fn postfix_without_accesses_is_the_name() {
    let e = ast::Expression::Postfix(ast::PostfixExpression { variable: var("a"), accesses: vec![] });
    assert_eq!(convert(&e), tname("a"));
}

#[test]
fn ranges() {
    let e = ast::Expression::Postfix(ast::PostfixExpression {
        variable: var("a"),
        accesses: vec![
            ast::Access::Array(ast::ArrayAccess {
                expression: ast::RangeOrExpression::Range(ast::Range {
                    from: Some(ast::FromExpression(num("1"))),
                    to: None,
                }),
            }),
            ast::Access::Array(ast::ArrayAccess {
                expression: ast::RangeOrExpression::Range(ast::Range {
                    from: None,
                    to: Some(ast::ToExpression(num("+4"))),
                }),
            }),
        ],
    });
    assert_eq!(
        convert(&e),
        Expression::ArrayAccess(
            Box::new(Expression::ArrayAccess(
                Box::new(tname("a")),
                Box::new(RangeOrExpression::Range(Some(Integer::U32(1)), None))
            )),
            Box::new(RangeOrExpression::Range(None, Some(Integer::U32(4))))
        )
    );
}
