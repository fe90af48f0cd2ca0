use front_end::ast::expressions::{
    BinaryExpr, BinaryOperator, BlockExpr, CallExpr, CastExpr, Expression, ForExpr, IfExpr,
    IndexExpr, Literal, LoopExpr, MacroInvocation, MatchArm, MatchExpr, MemberExpr, Pattern,
    RangeExpr, UnaryExpr, UnaryOperator, WhileExpr,
};
use front_end::ast::literal::LiteralError;
use front_end::ast::render::render_integer;
use front_end::ast::types::Type;
use front_end::ast::{Identifier, Span};

fn id(name: &str) -> Identifier {
    Identifier::new(name.to_string(), Span::dummy())
}

fn var(name: &str) -> Expression {
    Expression::Identifier(id(name))
}

fn num(n: i128) -> Expression {
    Expression::Literal(Literal::Integer(n, None))
}

#[test]
fn integers_render_in_decimal() {
    assert_eq!(render_integer(0), "0");
    assert_eq!(render_integer(7), "7");
    assert_eq!(render_integer(10), "10");
    assert_eq!(render_integer(42), "42");
    assert_eq!(render_integer(-1), "-1");
    assert_eq!(render_integer(-1200), "-1200");
    assert_eq!(render_integer(i128::MAX), "170141183460469231731687303715884105727");
    assert_eq!(render_integer(i128::MIN), "-170141183460469231731687303715884105728");
}

#[test]
fn literals_render() {
    assert_eq!(Literal::Integer(42, None).render(), "42");
    assert_eq!(Literal::Integer(42, Some(Type::I32)).render(), "42i32");
    assert_eq!(Literal::Integer(-5, Some(Type::I8)).render(), "-5i8");
    assert_eq!(Literal::Float("3.14".to_string(), None).render(), "3.14");
    assert_eq!(Literal::Float("2.5".to_string(), Some(Type::F32)).render(), "2.5f32");
    assert_eq!(Literal::String("hello".to_string()).render(), "\"hello\"");
    assert_eq!(Literal::String(String::new()).render(), "\"\"");
    assert_eq!(Literal::Character('c').render(), "'c'");
    assert_eq!(Literal::Character('é').render(), "'é'");
    assert_eq!(Literal::Boolean(true).render(), "true");
    assert_eq!(Literal::Boolean(false).render(), "false");
    assert_eq!(Literal::Array(vec![]).render(), "[]");
    assert_eq!(
        Literal::Array(vec![num(1), var("x"), Expression::Literal(Literal::Boolean(true))])
            .render(),
        "[1, x, true]"
    );
}

#[test]
fn integer_literals_are_built_from_digits() {
    assert_eq!(Literal::integer(b"42", None), Ok(Literal::Integer(42, None)));
    assert_eq!(Literal::integer(b"0", None), Ok(Literal::Integer(0, None)));
    assert_eq!(Literal::integer(b"007", None), Ok(Literal::Integer(7, None)));
    assert_eq!(
        Literal::integer(b"255", Some(Type::U8)),
        Ok(Literal::Integer(255, Some(Type::U8)))
    );
    assert_eq!(
        Literal::integer(b"170141183460469231731687303715884105727", None),
        Ok(Literal::Integer(i128::MAX, None))
    );
    // the magnitude is kept whatever the suffix says
    assert_eq!(
        Literal::integer(b"1000", Some(Type::U8)),
        Ok(Literal::Integer(1000, Some(Type::U8)))
    );
}

#[test]
fn integer_literals_that_do_not_fit_are_errors() {
    assert_eq!(
        Literal::integer(b"170141183460469231731687303715884105728", None),
        Err(LiteralError::Overflow)
    );
    assert_eq!(
        Literal::integer(b"999999999999999999999999999999999999999999", None),
        Err(LiteralError::Overflow)
    );
    assert_eq!(Literal::integer(b"", None), Err(LiteralError::Malformed));
    assert_eq!(Literal::integer(b"12a", None), Err(LiteralError::Malformed));
    assert_eq!(Literal::integer(b"-1", None), Err(LiteralError::Malformed));
    assert_eq!(
        Literal::integer(b"99999999999999999999999999999999999999999x", None),
        Err(LiteralError::Malformed)
    );
}

#[test]
fn operators_have_their_symbols() {
    assert_eq!(BinaryOperator::Add.symbol(), "+");
    assert_eq!(BinaryOperator::ShrAssign.symbol(), ">>=");
    assert_eq!(BinaryOperator::NotEq.symbol(), "!=");
    assert_eq!(BinaryOperator::And.symbol(), "&&");
    assert_eq!(UnaryOperator::Neg.symbol(), "-");
    assert_eq!(UnaryOperator::RefMut.symbol(), "&mut ");
    assert_eq!(UnaryOperator::Deref.symbol(), "*");
}

#[test]
fn expressions_render() {
    let sum = Expression::Binary(Box::new(BinaryExpr {
        left: num(1),
        operator: BinaryOperator::Add,
        right: var("x"),
        span: Span::dummy(),
    }));
    assert_eq!(sum.render(), "(1 + x)");
    let neg = Expression::Unary(Box::new(UnaryExpr {
        operator: UnaryOperator::Neg,
        operand: var("x"),
        span: Span::dummy(),
    }));
    assert_eq!(neg.render(), "(-x)");
    let call = Expression::Call(Box::new(CallExpr {
        callee: var("f"),
        arguments: vec![num(1), num(2)],
        span: Span::dummy(),
    }));
    assert_eq!(call.render(), "f(1, 2)");
    let call_of_call = Expression::Call(Box::new(CallExpr {
        callee: call,
        arguments: vec![],
        span: Span::dummy(),
    }));
    assert_eq!(call_of_call.render(), "f(1, 2)()");
    let member = Expression::Member(Box::new(MemberExpr {
        object: var("p"),
        member: id("x"),
        span: Span::dummy(),
    }));
    assert_eq!(member.render(), "p.x");
    let index = Expression::Index(Box::new(IndexExpr {
        array: var("a"),
        index: num(0),
        span: Span::dummy(),
    }));
    assert_eq!(index.render(), "a[0]");
    let cast = Expression::Cast(Box::new(CastExpr {
        expr: var("x"),
        target_type: Type::U8,
        span: Span::dummy(),
    }));
    assert_eq!(cast.render(), "(x as u8)");
    let block = Expression::Block(Box::new(BlockExpr {
        statements: vec![var("a"), var("b")],
        span: Span::dummy(),
    }));
    assert_eq!(block.render(), "{ a; b }");
    let mac = Expression::MacroInvocation(Box::new(MacroInvocation {
        name: id("m"),
        arguments: vec![var("a")],
        span: Span::dummy(),
    }));
    assert_eq!(mac.render(), "@m(a)");
}

#[test]
fn control_flow_renders() {
    let cond = Expression::If(Box::new(IfExpr {
        condition: var("c"),
        then_branch: num(1),
        else_branch: Some(num(2)),
        span: Span::dummy(),
    }));
    assert_eq!(cond.render(), "if c 1 else 2");
    let bare = Expression::If(Box::new(IfExpr {
        condition: var("c"),
        then_branch: num(1),
        else_branch: None,
        span: Span::dummy(),
    }));
    assert_eq!(bare.render(), "if c 1");
    let m = Expression::Match(Box::new(MatchExpr {
        value: var("x"),
        arms: vec![
            MatchArm {
                pattern: Pattern::Literal(Literal::Integer(1, None)),
                guard: None,
                body: var("a"),
                span: Span::dummy(),
            },
            MatchArm {
                pattern: Pattern::Wildcard,
                guard: Some(var("g")),
                body: var("b"),
                span: Span::dummy(),
            },
        ],
        span: Span::dummy(),
    }));
    assert_eq!(m.render(), "match x { 1 => a, _ if g => b }");
    let l = Expression::Loop(Box::new(LoopExpr {
        body: var("b"),
        label: Some(id("outer")),
        span: Span::dummy(),
    }));
    assert_eq!(l.render(), "outer: loop b");
    let w = Expression::While(Box::new(WhileExpr {
        condition: var("c"),
        body: var("b"),
        label: None,
        span: Span::dummy(),
    }));
    assert_eq!(w.render(), "while c b");
    let f = Expression::For(Box::new(ForExpr {
        pattern: Pattern::Identifier(id("i")),
        iterator: var("xs"),
        body: var("b"),
        label: None,
        span: Span::dummy(),
    }));
    assert_eq!(f.render(), "for i in xs b");
}

fn range(start: Option<Expression>, end: Option<Expression>, inclusive: bool) -> Expression {
    Expression::Range(Box::new(RangeExpr { start, end, inclusive, span: Span::dummy() }))
}

#[test]
fn ranges_render() {
    assert_eq!(range(Some(num(1)), Some(num(5)), false).render(), "1..5");
    assert_eq!(range(Some(num(1)), Some(num(5)), true).render(), "1..=5");
    assert_eq!(range(None, Some(num(5)), false).render(), "..5");
    assert_eq!(range(Some(num(1)), None, false).render(), "1..");
    assert_eq!(range(None, None, false).render(), "..");
}

#[test]
fn patterns_render() {
    assert_eq!(Pattern::Wildcard.render(), "_");
    assert_eq!(Pattern::Identifier(id("x")).render(), "x");
    assert_eq!(Pattern::Literal(Literal::Character('a')).render(), "'a'");
    assert_eq!(
        Pattern::Tuple(vec![Pattern::Identifier(id("a")), Pattern::Wildcard]).render(),
        "(a, _)"
    );
    assert_eq!(
        Pattern::Or(vec![
            Pattern::Literal(Literal::Integer(1, None)),
            Pattern::Literal(Literal::Integer(2, None)),
        ])
        .render(),
        "1 | 2"
    );
    assert_eq!(
        Pattern::Range(
            Box::new(Pattern::Literal(Literal::Integer(1, None))),
            Box::new(Pattern::Literal(Literal::Integer(9, None))),
        )
        .render(),
        "1..=9"
    );
    assert_eq!(
        Pattern::Struct(
            id("Point"),
            vec![(id("x"), Pattern::Identifier(id("a"))), (id("y"), Pattern::Wildcard)],
        )
        .render(),
        "Point { x: a, y: _ }"
    );
    assert_eq!(Pattern::Struct(id("Unit"), vec![]).render(), "Unit {  }");
}
