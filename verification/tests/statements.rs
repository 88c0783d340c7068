use leo_compiler::ast;
use leo_compiler::types::{
    Assignee, ConditionalNestedOrEnd, ConditionalStatement, Expression, Integer, RangeOrExpression,
    Statement, Type, Variable,
};

fn field_from_str(text: &String) -> u64 {
    text.parse::<u64>().unwrap_or_default()
}

fn var(name: &str) -> ast::Variable {
    ast::Variable { value: name.to_string() }
}

fn tvar(name: &str) -> Variable {
    Variable { name: name.to_string() }
}

fn num(text: &str) -> ast::Expression {
    ast::Expression::Value(ast::Value::U32(ast::U32 { number: ast::Number { value: text.to_string() } }))
}

fn u32_expr(n: u32) -> Expression<u64> {
    Expression::Integer(Integer::U32(n))
}

fn name(n: &str) -> ast::Expression {
    ast::Expression::Variable(var(n))
}

fn tname(n: &str) -> Expression<u64> {
    Expression::Variable(tvar(n))
}

fn convert(s: &ast::Statement) -> Statement<u64> {
    Statement::from_statement(s, &field_from_str)
}

/// `x[1].y`
fn target() -> ast::Assignee {
    ast::Assignee {
        variable: var("x"),
        accesses: vec![
            ast::AssigneeAccess::Array(ast::ArrayAccess {
                expression: ast::RangeOrExpression::Expression(num("1")),
            }),
            ast::AssigneeAccess::Member(ast::MemberAccess { variable: var("y") }),
        ],
    }
}

fn target_place() -> Assignee<u64> {
    Assignee::StructMember(
        Box::new(Assignee::Array(
            Box::new(Assignee::Variable(tvar("x"))),
            RangeOrExpression::Expression(u32_expr(1)),
        )),
        tvar("y"),
    )
}

fn target_read() -> Expression<u64> {
    Expression::StructMemberAccess(
        Box::new(Expression::ArrayAccess(
            Box::new(tname("x")),
            Box::new(RangeOrExpression::Expression(u32_expr(1))),
        )),
        tvar("y"),
    )
}

#[test]
fn assignee_place_and_reading() {
    assert_eq!(Assignee::from_ast(&target(), &field_from_str), target_place());
    assert_eq!(Expression::from_assignee(&target(), &field_from_str), target_read());
}

#[test]
fn plain_assignment() {
    let s = ast::Statement::Assign(ast::AssignStatement {
        assignee: target(),
        assign: ast::OperationAssign::Assign,
        expression: num("5"),
    });
    assert_eq!(convert(&s), Statement::Assign(target_place(), u32_expr(5)));
}

#[test]
fn compound_assignments_read_their_target() {
    let cases: Vec<(ast::OperationAssign, fn(Box<Expression<u64>>, Box<Expression<u64>>) -> Expression<u64>)> = vec![
        (ast::OperationAssign::AddAssign, Expression::Add),
        (ast::OperationAssign::SubAssign, Expression::Sub),
        (ast::OperationAssign::MulAssign, Expression::Mul),
        (ast::OperationAssign::DivAssign, Expression::Div),
        (ast::OperationAssign::PowAssign, Expression::Pow),
    ];
    for (op, make) in cases {
        let s = ast::Statement::Assign(ast::AssignStatement {
            assignee: target(),
            assign: op,
            expression: num("2"),
        });
        assert_eq!(
            convert(&s),
            Statement::Assign(target_place(), make(Box::new(target_read()), Box::new(u32_expr(2))))
        );
    }
}

#[test]
fn definition_with_and_without_type() {
    let s = ast::Statement::Definition(ast::DefinitionStatement {
        variable: var("a"),
        ty: Some(ast::Type::Basic(ast::BasicType::U32)),
        expression: num("1"),
    });
    assert_eq!(
        convert(&s),
        Statement::Definition(Assignee::Variable(tvar("a")), Some(Type::U32), u32_expr(1))
    );
    let s = ast::Statement::Definition(ast::DefinitionStatement {
        variable: var("b"),
        ty: None,
        expression: name("a"),
    });
    assert_eq!(convert(&s), Statement::Definition(Assignee::Variable(tvar("b")), None, tname("a")));
}

#[test]
fn return_keeps_all_expressions() {
    let s = ast::Statement::Return(ast::ReturnStatement { expressions: vec![num("1"), name("b")] });
    assert_eq!(convert(&s), Statement::Return(vec![u32_expr(1), tname("b")]));
}

#[test]
fn multiple_assignment_calls_the_function() {
    let s = ast::Statement::MultipleAssignment(ast::MultipleAssignmentStatement {
        assignees: vec![
            ast::OptionallyTypedVariable { id: var("a"), ty: Some(ast::Type::Basic(ast::BasicType::Boolean)) },
            ast::OptionallyTypedVariable { id: var("b"), ty: None },
        ],
        function_name: var("f"),
        arguments: vec![num("3")],
    });
    assert_eq!(
        convert(&s),
        Statement::MultipleAssign(
            vec![Assignee::Variable(tvar("a")), Assignee::Variable(tvar("b"))],
            Expression::FunctionCall(tvar("f"), vec![u32_expr(3)])
        )
    );
}

#[test]
fn for_loop_with_constant_bounds() {
    let s = ast::Statement::Iteration(ast::ForStatement {
        index: var("i"),
        start: num("0"),
        stop: num("10"),
        statements: vec![ast::Statement::Expression(ast::ExpressionStatement { expression: name("i") })],
    });
    assert_eq!(
        convert(&s),
        Statement::For(
            tvar("i"),
            Integer::U32(0),
            Integer::U32(10),
            vec![Statement::Expression(tname("i"))]
        )
    );
}

#[test]
fn assert_eq_statement() {
    let s = ast::Statement::Assert(ast::AssertStatement::AssertEq(ast::AssertEq {
        left: name("a"),
        right: num("1"),
    }));
    assert_eq!(convert(&s), Statement::AssertEq(tname("a"), u32_expr(1)));
}

#[test]
fn conditional_chain() {
    // if a { return 1 } else if b { return 2 } else { return 3 }
    let ret = |n: &str| ast::Statement::Return(ast::ReturnStatement { expressions: vec![num(n)] });
    let s = ast::Statement::Conditional(ast::ConditionalStatement {
        condition: name("a"),
        statements: vec![ret("1")],
        next: Some(ast::ConditionalNestedOrEnd::Nested(Box::new(ast::ConditionalStatement {
            condition: name("b"),
            statements: vec![ret("2")],
            next: Some(ast::ConditionalNestedOrEnd::End(vec![ret("3")])),
        }))),
    });
    let tret = |n: u32| Statement::Return(vec![u32_expr(n)]);
    assert_eq!(
        convert(&s),
        Statement::Conditional(ConditionalStatement {
            condition: tname("a"),
            statements: vec![tret(1)],
            next: Some(ConditionalNestedOrEnd::Nested(Box::new(ConditionalStatement {
                condition: tname("b"),
                statements: vec![tret(2)],
                next: Some(ConditionalNestedOrEnd::End(vec![tret(3)])),
            }))),
        })
    );
}

#[test]
fn conditional_without_else() {
    let s = ast::Statement::Conditional(ast::ConditionalStatement {
        condition: name("a"),
        statements: vec![],
        next: None,
    });
    assert_eq!(
        convert(&s),
        Statement::Conditional(ConditionalStatement { condition: tname("a"), statements: vec![], next: None })
    );
}
