//! Conversion of assignees and statements.

use vstd::prelude::*;

use crate::ast;

use crate::expression_spec::{parser_accepts_all, variable_converts};
use crate::statement_spec::{
    assign_convertible, assign_converts, assignee_convertible, assignee_converts,
    assignee_expression_converts, conditional_convertible, conditional_converts,
    nested_or_end_convertible, nested_or_end_converts, statement_convertible, statement_converts,
    statements_convert, statements_convertible,
};
use crate::types::{
    Assignee, ConditionalNestedOrEnd, ConditionalStatement, Expression, RangeOrExpression,
    Statement, Type, Variable,
};

verus! {

impl<F> Assignee<F> {
    /// A name as the target of an assignment.
    pub fn from_variable(variable: &ast::Variable) -> (r: Assignee<F>)
        ensures
            r matches Assignee::Variable(x) && variable_converts(*variable, x),
    {
        Assignee::Variable(Variable::from_ast(variable))
    }

    /// The target of an assignment: the name with its accesses applied in
    /// turn, each wrapping what the previous ones built.
    pub fn from_ast<P: Fn(&String) -> F>(assignee: &ast::Assignee, field_from_str: &P) -> (r:
        Assignee<F>)
        requires
            assignee_convertible(*assignee),
            parser_accepts_all(*field_from_str),
        ensures
            assignee_converts(*assignee, assignee.accesses@.len(), r, *field_from_str),
    {
        let mut acc: Assignee<F> = Assignee::from_variable(&assignee.variable);
        let mut i: usize = 0;
        while i < assignee.accesses.len()
            invariant
                i <= assignee.accesses@.len(),
                assignee_convertible(*assignee),
                parser_accepts_all(*field_from_str),
                assignee_converts(*assignee, i as nat, acc, *field_from_str),
            decreases assignee.accesses@.len() - i,
        {
            proof {
                assert(match assignee.accesses@[i as int] {
                    ast::AssigneeAccess::Array(arr) => crate::expression_spec::range_or_expression_convertible(arr.expression),
                    ast::AssigneeAccess::Member(_) => true,
                });
            }
            acc = match &assignee.accesses[i] {
                ast::AssigneeAccess::Array(array) => Assignee::Array(
                    Box::new(acc),
                    RangeOrExpression::from_ast(&array.expression, field_from_str),
                ),
                ast::AssigneeAccess::Member(member) => Assignee::StructMember(
                    Box::new(acc),
                    Variable::from_ast(&member.variable),
                ),
            };
            i = i + 1;
        }
        acc
    }
}

impl<F> Expression<F> {
    /// The target of an assignment read as an expression, for the operation
    /// of a compound assignment.
    pub fn from_assignee<P: Fn(&String) -> F>(assignee: &ast::Assignee, field_from_str: &P) -> (r:
        Expression<F>)
        requires
            assignee_convertible(*assignee),
            parser_accepts_all(*field_from_str),
        ensures
            assignee_expression_converts(*assignee, assignee.accesses@.len(), r, *field_from_str),
    {
        let mut acc: Expression<F> = Expression::from_variable(&assignee.variable);
        let mut i: usize = 0;
        while i < assignee.accesses.len()
            invariant
                i <= assignee.accesses@.len(),
                assignee_convertible(*assignee),
                parser_accepts_all(*field_from_str),
                assignee_expression_converts(*assignee, i as nat, acc, *field_from_str),
            decreases assignee.accesses@.len() - i,
        {
            proof {
                assert(match assignee.accesses@[i as int] {
                    ast::AssigneeAccess::Array(arr) => crate::expression_spec::range_or_expression_convertible(arr.expression),
                    ast::AssigneeAccess::Member(_) => true,
                });
            }
            acc = match &assignee.accesses[i] {
                ast::AssigneeAccess::Member(member) => Expression::StructMemberAccess(
                    Box::new(acc),
                    Variable::from_ast(&member.variable),
                ),
                ast::AssigneeAccess::Array(array) => Expression::ArrayAccess(
                    Box::new(acc),
                    Box::new(RangeOrExpression::from_ast(&array.expression, field_from_str)),
                ),
            };
            i = i + 1;
        }
        acc
    }
}

impl<F> Statement<F> {
    /// `return a, b`
    pub fn from_return<P: Fn(&String) -> F>(statement: &ast::ReturnStatement, field_from_str: &P) -> (r:
        Statement<F>)
        requires
            statement_convertible(ast::Statement::Return(*statement)),
            parser_accepts_all(*field_from_str),
        ensures
            statement_converts(ast::Statement::Return(*statement), r, *field_from_str),
    {
        Statement::Return(Expression::from_expressions(&statement.expressions, field_from_str))
    }

    /// `let variable: ty = expression`
    pub fn from_definition<P: Fn(&String) -> F>(
        statement: &ast::DefinitionStatement,
        field_from_str: &P,
    ) -> (r: Statement<F>)
        requires
            statement_convertible(ast::Statement::Definition(*statement)),
            parser_accepts_all(*field_from_str),
        ensures
            statement_converts(ast::Statement::Definition(*statement), r, *field_from_str),
    {
        let ty = match &statement.ty {
            Some(ty) => Some(Type::from_ast(ty)),
            None => None,
        };
        Statement::Definition(
            Assignee::from_variable(&statement.variable),
            ty,
            Expression::from_expression(&statement.expression, field_from_str),
        )
    }

    /// `assignee = expression`, or `assignee op= expression`, which assigns
    /// `assignee op expression` to `assignee`.
    pub fn from_assign<P: Fn(&String) -> F>(statement: &ast::AssignStatement, field_from_str: &P) -> (r:
        Statement<F>)
        requires
            assign_convertible(*statement),
            parser_accepts_all(*field_from_str),
        ensures
            assign_converts(*statement, r, *field_from_str),
    {
        match statement.assign {
            ast::OperationAssign::Assign => Statement::Assign(
                Assignee::from_ast(&statement.assignee, field_from_str),
                Expression::from_expression(&statement.expression, field_from_str),
            ),
            operation_assign => {
                // the assignee read as an expression
                let converted = Expression::from_assignee(&statement.assignee, field_from_str);
                let target = Assignee::from_ast(&statement.assignee, field_from_str);
                let value = Box::new(
                    Expression::from_expression(&statement.expression, field_from_str),
                );
                match operation_assign {
                    ast::OperationAssign::AddAssign => Statement::Assign(
                        target,
                        Expression::Add(Box::new(converted), value),
                    ),
                    ast::OperationAssign::SubAssign => Statement::Assign(
                        target,
                        Expression::Sub(Box::new(converted), value),
                    ),
                    ast::OperationAssign::MulAssign => Statement::Assign(
                        target,
                        Expression::Mul(Box::new(converted), value),
                    ),
                    ast::OperationAssign::DivAssign => Statement::Assign(
                        target,
                        Expression::Div(Box::new(converted), value),
                    ),
                    ast::OperationAssign::PowAssign => Statement::Assign(
                        target,
                        Expression::Pow(Box::new(converted), value),
                    ),
                    ast::OperationAssign::Assign => {
                        // handled by the outer match
                        proof {
                            assert(false);
                        }
                        Statement::Assign(target, *value)
                    },
                }
            },
        }
    }

    /// `let (a, b) = function_name(arguments)`
    pub fn from_multiple_assignment<P: Fn(&String) -> F>(
        statement: &ast::MultipleAssignmentStatement,
        field_from_str: &P,
    ) -> (r: Statement<F>)
        requires
            statement_convertible(ast::Statement::MultipleAssignment(*statement)),
            parser_accepts_all(*field_from_str),
        ensures
            statement_converts(ast::Statement::MultipleAssignment(*statement), r, *field_from_str),
    {
        let mut assignees: Vec<Assignee<F>> = Vec::new();
        let mut i: usize = 0;
        while i < statement.assignees.len()
            invariant
                i <= statement.assignees@.len(),
                assignees@.len() == i,
                forall|j: int|
                    0 <= j < i ==> (#[trigger] assignees@[j] matches Assignee::Variable(x)
                        && variable_converts(statement.assignees@[j].id, x)),
            decreases statement.assignees@.len() - i,
        {
            assignees.push(Assignee::Variable(Variable::from_ast(&statement.assignees[i].id)));
            i = i + 1;
        }
        Statement::MultipleAssign(
            assignees,
            Expression::FunctionCall(
                Variable::from_ast(&statement.function_name),
                Expression::from_expressions(&statement.arguments, field_from_str),
            ),
        )
    }

    /// `for index in start..stop { statements }`: the bounds must be
    /// constants.
    pub fn from_for<P: Fn(&String) -> F>(statement: &ast::ForStatement, field_from_str: &P) -> (r:
        Statement<F>)
        requires
            statement_convertible(ast::Statement::Iteration(*statement)),
            parser_accepts_all(*field_from_str),
        ensures
            statement_converts(ast::Statement::Iteration(*statement), r, *field_from_str),
        decreases statement,
    {
        let from = RangeOrExpression::<F>::bound_from(&statement.start, field_from_str);
        let to = RangeOrExpression::<F>::bound_from(&statement.stop, field_from_str);
        Statement::For(
            Variable::from_ast(&statement.index),
            from,
            to,
            Statement::from_statements(&statement.statements, field_from_str),
        )
    }

    /// `assert_eq(left, right)`
    pub fn from_assert<P: Fn(&String) -> F>(statement: &ast::AssertStatement, field_from_str: &P) -> (r:
        Statement<F>)
        requires
            statement_convertible(ast::Statement::Assert(*statement)),
            parser_accepts_all(*field_from_str),
        ensures
            statement_converts(ast::Statement::Assert(*statement), r, *field_from_str),
    {
        match statement {
            ast::AssertStatement::AssertEq(assert_eq) => Statement::AssertEq(
                Expression::from_expression(&assert_eq.left, field_from_str),
                Expression::from_expression(&assert_eq.right, field_from_str),
            ),
        }
    }

    /// An expression used as a statement.
    pub fn from_expression_statement<P: Fn(&String) -> F>(
        statement: &ast::ExpressionStatement,
        field_from_str: &P,
    ) -> (r: Statement<F>)
        requires
            statement_convertible(ast::Statement::Expression(*statement)),
            parser_accepts_all(*field_from_str),
        ensures
            statement_converts(ast::Statement::Expression(*statement), r, *field_from_str),
    {
        Statement::Expression(Expression::from_expression(&statement.expression, field_from_str))
    }

    /// A statement.
    pub fn from_statement<P: Fn(&String) -> F>(statement: &ast::Statement, field_from_str: &P) -> (r:
        Statement<F>)
        requires
            statement_convertible(*statement),
            parser_accepts_all(*field_from_str),
        ensures
            statement_converts(*statement, r, *field_from_str),
        decreases statement,
    {
        match statement {
            ast::Statement::Return(s) => Statement::from_return(s, field_from_str),
            ast::Statement::Definition(s) => Statement::from_definition(s, field_from_str),
            ast::Statement::Assign(s) => Statement::from_assign(s, field_from_str),
            ast::Statement::MultipleAssignment(s) => Statement::from_multiple_assignment(
                s,
                field_from_str,
            ),
            ast::Statement::Conditional(s) => Statement::Conditional(
                ConditionalStatement::from_ast(s, field_from_str),
            ),
            ast::Statement::Iteration(s) => Statement::from_for(s, field_from_str),
            ast::Statement::Assert(s) => Statement::from_assert(s, field_from_str),
            ast::Statement::Expression(s) => Statement::from_expression_statement(s, field_from_str),
        }
    }

    /// Statements converted in order.
    pub fn from_statements<P: Fn(&String) -> F>(
        statements: &Vec<ast::Statement>,
        field_from_str: &P,
    ) -> (r: Vec<Statement<F>>)
        requires
            statements_convertible(*statements),
            parser_accepts_all(*field_from_str),
        ensures
            statements_convert(*statements, r, *field_from_str),
        decreases statements,
    {
        let mut out: Vec<Statement<F>> = Vec::new();
        let mut i: usize = 0;
        while i < statements.len()
            invariant
                i <= statements@.len(),
                out@.len() == i,
                parser_accepts_all(*field_from_str),
                statements_convertible(*statements),
                forall|j: int|
                    0 <= j < i ==> statement_converts(
                        #[trigger] statements@[j],
                        out@[j],
                        *field_from_str,
                    ),
            decreases statements@.len() - i,
        {
            let s = Statement::from_statement(&statements[i], field_from_str);
            out.push(s);
            i = i + 1;
        }
        out
    }
}

impl<F> ConditionalNestedOrEnd<F> {
    /// What follows a conditional block.
    pub fn from_ast<P: Fn(&String) -> F>(
        statement: &ast::ConditionalNestedOrEnd,
        field_from_str: &P,
    ) -> (r: ConditionalNestedOrEnd<F>)
        requires
            nested_or_end_convertible(*statement),
            parser_accepts_all(*field_from_str),
        ensures
            nested_or_end_converts(*statement, r, *field_from_str),
        decreases statement,
    {
        match statement {
            ast::ConditionalNestedOrEnd::Nested(nested) => ConditionalNestedOrEnd::Nested(
                Box::new(ConditionalStatement::from_ast(nested, field_from_str)),
            ),
            ast::ConditionalNestedOrEnd::End(statements) => ConditionalNestedOrEnd::End(
                Statement::from_statements(statements, field_from_str),
            ),
        }
    }
}

impl<F> ConditionalStatement<F> {
    /// `if condition { statements } else next`
    pub fn from_ast<P: Fn(&String) -> F>(
        statement: &ast::ConditionalStatement,
        field_from_str: &P,
    ) -> (r: ConditionalStatement<F>)
        requires
            conditional_convertible(*statement),
            parser_accepts_all(*field_from_str),
        ensures
            conditional_converts(*statement, r, *field_from_str),
        decreases statement,
    {
        let next = match &statement.next {
            Some(n_or_e) => Some(ConditionalNestedOrEnd::from_ast(n_or_e, field_from_str)),
            None => None,
        };
        ConditionalStatement {
            condition: Expression::from_expression(&statement.condition, field_from_str),
            statements: Statement::from_statements(&statement.statements, field_from_str),
            next,
        }
    }
}

} // verus!
