use front_end::ast::expressions::{Expression, Literal, Pattern};
use front_end::ast::statements::{
    ContinueStatement, ElseBranch, IfStatement, LetStatement, MatchArm, MatchStatement,
    PanicStatement, ReturnStatement, Statement, WhileStatement,
};
use front_end::ast::{Block, Identifier, Span};

fn dummy_span() -> Span {
    Span {
        start: 0,
        end: 0,
        line: 0,
        column: 0,
    }
}

#[test]
fn test_let_statement() {
    let stmt = Statement::Let(LetStatement {
        pattern: Pattern::Identifier(Identifier::new("x".to_string(), dummy_span())),
        type_annotation: None,
        initializer: Some(Expression::Literal(Literal::Integer(42, None))),
        mutable: false,
        span: dummy_span(),
    });

    if let Statement::Let(let_stmt) = stmt {
        assert!(!let_stmt.mutable);
        assert!(matches!(let_stmt.pattern, Pattern::Identifier(_)));
        assert!(let_stmt.type_annotation.is_none());
        assert!(matches!(
            let_stmt.initializer,
            Some(Expression::Literal(Literal::Integer(42, None)))
        ));
    } else {
        panic!("Expected let statement");
    }
}

#[test]
fn test_return_statement() {
    let stmt = Statement::Return(ReturnStatement {
        expression: Some(Expression::Literal(Literal::Integer(42, None))),
        span: dummy_span(),
    });

    if let Statement::Return(return_stmt) = stmt {
        assert!(matches!(
            return_stmt.expression,
            Some(Expression::Literal(Literal::Integer(42, None)))
        ));
    } else {
        panic!("Expected return statement");
    }
}

#[test]
fn test_while_statement() {
    let stmt = Statement::While(WhileStatement {
        condition: Expression::Literal(Literal::Boolean(true)),
        body: Block {
            statements: vec![],
            span: dummy_span(),
        },
        label: Some(Identifier::new("loop1".to_string(), dummy_span())),
        span: dummy_span(),
    });

    if let Statement::While(while_stmt) = stmt {
        assert!(matches!(
            while_stmt.condition,
            Expression::Literal(Literal::Boolean(true))
        ));
        assert!(while_stmt.label.is_some());
        assert_eq!(while_stmt.label.unwrap().name, "loop1");
    } else {
        panic!("Expected while statement");
    }
}

#[test]
fn test_if_statement() {
    let stmt = Statement::If(IfStatement {
        condition: Expression::Literal(Literal::Boolean(true)),
        then_branch: Block {
            statements: vec![],
            span: dummy_span(),
        },
        else_branch: Some(ElseBranch::Block(Block {
            statements: vec![],
            span: dummy_span(),
        })),
        span: dummy_span(),
    });

    if let Statement::If(if_stmt) = stmt {
        assert!(matches!(
            if_stmt.condition,
            Expression::Literal(Literal::Boolean(true))
        ));
        assert!(if_stmt.else_branch.is_some());
    } else {
        panic!("Expected if statement");
    }
}

#[test]
fn test_match_statement() {
    let stmt = Statement::Match(MatchStatement {
        expression: Expression::Literal(Literal::Integer(1, None)),
        arms: vec![MatchArm {
            pattern: Pattern::Literal(Literal::Integer(1, None)),
            guard: None,
            body: Block {
                statements: vec![],
                span: dummy_span(),
            },
            span: dummy_span(),
        }],
        span: dummy_span(),
    });

    if let Statement::Match(match_stmt) = stmt {
        assert!(matches!(
            match_stmt.expression,
            Expression::Literal(Literal::Integer(1, None))
        ));
        assert_eq!(match_stmt.arms.len(), 1);
        assert!(matches!(
            match_stmt.arms[0].pattern,
            Pattern::Literal(Literal::Integer(1, None))
        ));
    } else {
        panic!("Expected match statement");
    }
}

#[test]
fn test_panic_statement() {
    let stmt = Statement::Panic(PanicStatement {
        message: Expression::Literal(Literal::String("Error!".to_string())),
        span: dummy_span(),
    });

    if let Statement::Panic(panic_stmt) = stmt {
        assert!(matches!(
            panic_stmt.message,
            Expression::Literal(Literal::String(_))
        ));
    } else {
        panic!("Expected panic statement");
    }
}

#[test]
fn continue_statement_is_a_plain_value() {
    let a = ContinueStatement {
        label: Some(Identifier::new("outer".to_string(), dummy_span())),
        span: dummy_span(),
    };
    let b = a.clone();
    assert_eq!(a, b);
    assert_ne!(a, ContinueStatement { label: None, span: dummy_span() });
    assert_eq!(Statement::Continue(a), Statement::Continue(b));
    assert_ne!(Statement::Empty, Statement::Continue(ContinueStatement {
        label: None,
        span: dummy_span(),
    }));
}

#[test]
fn else_if_chains_nest() {
    let inner = IfStatement {
        condition: Expression::Literal(Literal::Boolean(false)),
        then_branch: Block { statements: vec![Statement::Empty], span: dummy_span() },
        else_branch: None,
        span: dummy_span(),
    };
    let outer = IfStatement {
        condition: Expression::Literal(Literal::Boolean(true)),
        then_branch: Block { statements: vec![], span: dummy_span() },
        else_branch: Some(ElseBranch::If(Box::new(inner))),
        span: dummy_span(),
    };
    match outer.else_branch {
        Some(ElseBranch::If(next)) => {
            assert!(next.else_branch.is_none());
            assert_eq!(next.then_branch.statements, vec![Statement::Empty]);
        },
        _ => panic!("Expected else-if"),
    }
}
