use front_end::ast::expressions::{
    BinaryExpr, BinaryOperator, CallExpr, Expression, IfExpr, Literal, MatchArm, MatchExpr,
    Pattern,
};
use front_end::ast::types::{Mutability, Type, TypePath, TypePathSegment};
use front_end::ast::{
    Block, FunctionDecl, Identifier, MacroBody, MacroToken, Span, StructDecl, StructField,
};
use std::f64::consts;

fn named(name: &str) -> Type {
    Type::Named(TypePath {
        segments: vec![TypePathSegment {
            ident: Identifier::new(name.to_string(), Span::dummy()),
            generic_args: None,
            span: Span::dummy(),
        }],
        span: Span::dummy(),
    })
}

#[test]
fn test_identifier() {
    let span = Span::new(0, 3, 1, 1);
    let ident = Identifier::new("foo".to_string(), span.clone());
    assert_eq!(ident.name, "foo");
    assert_eq!(ident.span, span);
}

#[test]
fn test_function_declaration() {
    let span = Span::new(0, 50, 1, 1);
    let fn_decl = FunctionDecl {
        name: Identifier::new("test".to_string(), Span::dummy()),
        params: vec![],
        return_type: None,
        body: Block {
            statements: vec![],
            span: Span::dummy(),
        },
        attributes: vec![],
        span,
    };

    assert_eq!(fn_decl.name.name, "test");
    assert_eq!(fn_decl.params.len(), 0);
    assert!(fn_decl.return_type.is_none());
}

#[test]
fn test_struct_declaration() {
    let span = Span::new(0, 30, 1, 1);
    let struct_decl = StructDecl {
        name: Identifier::new("Point".to_string(), Span::dummy()),
        fields: vec![StructField {
            name: Identifier::new("x".to_string(), Span::dummy()),
            ty: named("i32"),
            attributes: vec![],
            span: Span::dummy(),
        }],
        attributes: vec![],
        span,
    };

    assert_eq!(struct_decl.name.name, "Point");
    assert_eq!(struct_decl.fields.len(), 1);
    assert_eq!(struct_decl.fields[0].name.name, "x");
}

#[test]
fn test_type_constructions() {
    let i32_type = named("i32");
    let ptr_type = Type::Pointer(Box::new(i32_type.clone()), Mutability::Immutable);
    let ref_type = Type::Reference(Box::new(i32_type.clone()), Mutability::Immutable);

    match ptr_type {
        Type::Pointer(inner, _) => match *inner {
            Type::Named(path) => assert_eq!(path.segments[0].ident.name, "i32"),
            _ => panic!("Expected simple type"),
        },
        _ => panic!("Expected pointer type"),
    }

    match ref_type {
        Type::Reference(inner, _) => match *inner {
            Type::Named(path) => assert_eq!(path.segments[0].ident.name, "i32"),
            _ => panic!("Expected simple type"),
        },
        _ => panic!("Expected reference type"),
    }
}

#[test]
fn test_literal_expressions() {
    let integer = Expression::Literal(Literal::Integer(42, None));
    let float = Expression::Literal(Literal::Float(consts::PI.to_string(), None));
    let string = Expression::Literal(Literal::String("hello".to_string()));
    let character = Expression::Literal(Literal::Character('a'));
    let boolean = Expression::Literal(Literal::Boolean(true));

    assert!(matches!(
        integer,
        Expression::Literal(Literal::Integer(42, None))
    ));
    assert!(matches!(
        float,
        Expression::Literal(Literal::Float(ref text, None)) if text.parse::<f64>() == Ok(consts::PI)
    ));
    assert!(matches!(string, Expression::Literal(Literal::String(_))));
    assert!(matches!(
        character,
        Expression::Literal(Literal::Character('a'))
    ));
    assert!(matches!(
        boolean,
        Expression::Literal(Literal::Boolean(true))
    ));
}

#[test]
fn test_binary_expression() {
    let span = Span::dummy();
    let left = Expression::Literal(Literal::Integer(1, None));
    let right = Expression::Literal(Literal::Integer(2, None));

    let binary = Expression::Binary(Box::new(BinaryExpr {
        left,
        operator: BinaryOperator::Add,
        right,
        span,
    }));

    if let Expression::Binary(expr) = binary {
        assert!(matches!(expr.operator, BinaryOperator::Add));
        assert!(matches!(
            expr.left,
            Expression::Literal(Literal::Integer(1, None))
        ));
        assert!(matches!(
            expr.right,
            Expression::Literal(Literal::Integer(2, None))
        ));
    } else {
        panic!("Expected binary expression");
    }
}

#[test]
fn test_call_expression() {
    let span = Span::dummy();
    let callee = Expression::Identifier(Identifier::new("foo".to_string(), span.clone()));
    let arg = Expression::Literal(Literal::Integer(42, None));

    let call = Expression::Call(Box::new(CallExpr {
        callee,
        arguments: vec![arg],
        span,
    }));

    if let Expression::Call(expr) = call {
        assert!(matches!(expr.callee, Expression::Identifier(_)));
        assert_eq!(expr.arguments.len(), 1);
    } else {
        panic!("Expected call expression");
    }
}

#[test]
fn test_if_expression() {
    let span = Span::dummy();
    let condition = Expression::Literal(Literal::Boolean(true));
    let then_branch = Expression::Literal(Literal::Integer(1, None));
    let else_branch = Some(Expression::Literal(Literal::Integer(2, None)));

    let if_expr = Expression::If(Box::new(IfExpr {
        condition,
        then_branch,
        else_branch,
        span,
    }));

    if let Expression::If(expr) = if_expr {
        assert!(matches!(
            expr.condition,
            Expression::Literal(Literal::Boolean(true))
        ));
        assert!(matches!(
            expr.then_branch,
            Expression::Literal(Literal::Integer(1, None))
        ));
        assert!(matches!(
            expr.else_branch,
            Some(Expression::Literal(Literal::Integer(2, None)))
        ));
    } else {
        panic!("Expected if expression");
    }
}

#[test]
fn test_match_expression() {
    let span = Span::dummy();
    let value = Expression::Identifier(Identifier::new("x".to_string(), span.clone()));
    let pattern = Pattern::Literal(Literal::Integer(1, None));
    let body = Expression::Literal(Literal::String("one".to_string()));

    let match_expr = Expression::Match(Box::new(MatchExpr {
        value,
        arms: vec![MatchArm {
            pattern,
            guard: None,
            body,
            span: span.clone(),
        }],
        span,
    }));

    if let Expression::Match(expr) = match_expr {
        assert!(matches!(expr.value, Expression::Identifier(_)));
        assert_eq!(expr.arms.len(), 1);
        assert!(matches!(
            expr.arms[0].pattern,
            Pattern::Literal(Literal::Integer(1, None))
        ));
    } else {
        panic!("Expected match expression");
    }
}

fn binary(op: BinaryOperator, l: i128, r: i128) -> Expression {
    Expression::Binary(Box::new(BinaryExpr {
        left: Expression::Literal(Literal::Integer(l, None)),
        operator: op,
        right: Expression::Literal(Literal::Integer(r, None)),
        span: Span::dummy(),
    }))
}

#[test]
fn equal_fields_make_equal_trees() {
    assert_eq!(binary(BinaryOperator::Add, 1, 2), binary(BinaryOperator::Add, 1, 2));
    assert_ne!(binary(BinaryOperator::Add, 1, 2), binary(BinaryOperator::Sub, 1, 2));
    assert_ne!(binary(BinaryOperator::Add, 1, 2), binary(BinaryOperator::Add, 1, 3));
    assert_eq!(named("T"), named("T"));
    assert_ne!(named("T"), named("U"));
}

#[test]
fn identifiers_are_equal_by_name() {
    let a = Identifier::new("x".to_string(), Span::new(0, 1, 1, 1));
    let b = Identifier::new("x".to_string(), Span::new(7, 8, 2, 3));
    let c = Identifier::new("y".to_string(), Span::new(0, 1, 1, 1));
    assert_eq!(a, b);
    assert_ne!(a, c);
    assert_eq!(a.render(), "x");
}

#[test]
fn spans() {
    let s = Span::new(3, 9, 2, 5);
    assert_eq!((s.start, s.end, s.line, s.column), (3, 9, 2, 5));
    let d = Span::dummy();
    assert_eq!((d.start, d.end, d.line, d.column), (0, 0, 0, 0));
    assert_ne!(s, d);
}

fn nest(depth: usize) -> MacroToken {
    let mut t = MacroToken::Group(vec![MacroToken::Literal("x".to_string())]);
    for _ in 0..depth {
        t = MacroToken::Group(vec![t]);
    }
    t
}

#[test]
fn token_trees_nest_and_compare() {
    let a = nest(3);
    let b = nest(3);
    assert_eq!(a, b);
    assert!(a.same(&b));
    assert_ne!(nest(3), nest(4));
    assert!(!nest(3).same(&nest(4)));
    assert!(nest(200).same(&nest(200)));
    assert!(!nest(200).same(&nest(199)));
    let v1 = MacroToken::Variable(Identifier::new("a".to_string(), Span::new(0, 1, 1, 1)));
    let v2 = MacroToken::Variable(Identifier::new("a".to_string(), Span::new(5, 6, 1, 6)));
    assert!(v1.same(&v2));
    assert!(!v1.same(&MacroToken::Literal("a".to_string())));
    let body = MacroBody { tokens: vec![nest(2), v1], span: Span::dummy() };
    assert_eq!(body.tokens.len(), 2);
    assert!(!MacroToken::Group(vec![]).same(&MacroToken::Group(vec![MacroToken::Group(vec![])])));
}

fn sample_function() -> FunctionDecl {
    FunctionDecl {
        name: Identifier::new("f".to_string(), Span::new(3, 4, 1, 4)),
        params: vec![],
        return_type: Some(Box::new(Type::Tuple(vec![Type::I32, named("T")]))),
        body: Block {
            statements: vec![
                front_end::ast::statements::Statement::Expression(binary(BinaryOperator::Mul, 2, 3)),
                front_end::ast::statements::Statement::Empty,
            ],
            span: Span::new(5, 20, 1, 6),
        },
        attributes: vec![],
        span: Span::new(0, 20, 1, 1),
    }
}

#[test]
fn copies_are_equal_and_independent() {
    let f = sample_function();
    let g = f.clone();
    assert_eq!(f, g);
    let mut h = g.clone();
    h.body.statements.pop();
    assert_ne!(f, h);
    assert_eq!(f, g);
    let t = nest(50);
    assert_eq!(t.clone(), t);
    let e = binary(BinaryOperator::Shl, 1, 8);
    assert_eq!(e.clone(), e);
    assert_eq!(e.clone().render(), "(1 << 8)");
}

#[test]
fn node_spans_count_but_identifier_spans_do_not() {
    let f = sample_function();
    let mut moved = f.clone();
    moved.span = Span::new(1, 21, 1, 2);
    assert_ne!(f, moved);
    let mut renamed_place = f.clone();
    renamed_place.name = Identifier::new("f".to_string(), Span::new(9, 10, 2, 1));
    assert_eq!(f, renamed_place);
    let mut renamed = f.clone();
    renamed.name = Identifier::new("g".to_string(), Span::new(3, 4, 1, 4));
    assert_ne!(f, renamed);
    let mut other_type = f.clone();
    other_type.return_type = Some(Box::new(Type::Tuple(vec![Type::I32, named("U")])));
    assert_ne!(f, other_type);
    let mut no_type = f.clone();
    no_type.return_type = None;
    assert_ne!(f, no_type);
}

#[test]
fn the_tree_types_are_one_type() {
    let t: front_end::ast::Type = Type::Bool;
    assert_eq!(t, front_end::ast::types::Type::Bool);
}
