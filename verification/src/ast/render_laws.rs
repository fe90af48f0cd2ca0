//! Equal values have the same text.

use vstd::prelude::*;
use crate::ast::equality::{
    expression_arm_eq, expression_eq, literal_eq, pattern_eq, type_eq, type_path_eq,
    type_path_segment_eq,
};
use crate::ast::expressions::{Expression, Literal, MatchArm, Pattern};
use crate::ast::render::{
    arm_text, arms_text, expression_text, expressions_text, field_pattern_text,
    field_patterns_text, label_text, literal_text, pattern_text, patterns_text, segment_text,
    segments_text, type_text, types_text,
};
use crate::ast::types::{Type, TypePathSegment};
use crate::ast::Identifier;

verus! {

/// The text of a type depends on nothing but what equality compares: equal
/// types have the same text.
pub proof fn lemma_type_text(a: Type, b: Type)
    requires
        type_eq(a, b),
    ensures
        type_text(a) == type_text(b),
    decreases a,
{
    match (a, b) {
        (Type::Array(e1, n1), Type::Array(e2, n2)) => {
            lemma_type_text(*e1, *e2);
            match (n1, n2) {
                (Some(x), Some(y)) => {
                    lemma_expression_text(*x, *y);
                },
                _ => {},
            }
        },
        (Type::Slice(e1), Type::Slice(e2)) => {
            lemma_type_text(*e1, *e2);
        },
        (Type::Pointer(e1, _), Type::Pointer(e2, _)) => {
            lemma_type_text(*e1, *e2);
        },
        (Type::Reference(e1, _), Type::Reference(e2, _)) => {
            lemma_type_text(*e1, *e2);
        },
        (Type::Tuple(xs), Type::Tuple(ys)) => {
            lemma_types_text(xs@, ys@, xs@.len() as int, ", "@);
        },
        (Type::Function(xs, r1), Type::Function(ys, r2)) => {
            lemma_types_text(xs@, ys@, xs@.len() as int, ", "@);
            lemma_type_text(*r1, *r2);
        },
        (Type::Named(p1), Type::Named(p2)) => {
            assert(type_path_eq(p1, p2));
            lemma_segments_text(p1.segments@, p2.segments@, p1.segments@.len() as int, "::"@);
        },
        (Type::Generic(b1, xs), Type::Generic(b2, ys)) => {
            lemma_type_text(*b1, *b2);
            lemma_types_text(xs@, ys@, xs@.len() as int, ", "@);
        },
        _ => {},
    }
}

/// Equal path segments have the same text.
pub proof fn lemma_segment_text(a: TypePathSegment, b: TypePathSegment)
    requires
        type_path_segment_eq(a, b),
    ensures
        segment_text(a) == segment_text(b),
    decreases a,
{
    match (a.generic_args, b.generic_args) {
        (Some(xs), Some(ys)) => {
            lemma_types_text(xs@, ys@, xs@.len() as int, ", "@);
        },
        _ => {},
    }
}

/// Equal labels have the same text.
pub proof fn lemma_label_text(a: Option<Identifier>, b: Option<Identifier>)
    requires
        match a {
            Some(x) => b matches Some(y) && x.name@ == y.name@,
            None => b is None,
        },
    ensures
        label_text(a) == label_text(b),
{
}

/// Equal literals have the same text.
pub proof fn lemma_literal_text(a: Literal, b: Literal)
    requires
        literal_eq(a, b),
    ensures
        literal_text(a) == literal_text(b),
    decreases a,
{
    match (a, b) {
        (Literal::Integer(_, Some(t1)), Literal::Integer(_, Some(t2))) => {
            lemma_type_text(t1, t2);
        },
        (Literal::Float(_, Some(t1)), Literal::Float(_, Some(t2))) => {
            lemma_type_text(t1, t2);
        },
        (Literal::Array(xs), Literal::Array(ys)) => {
            lemma_expressions_text(xs@, ys@, xs@.len() as int, ", "@);
        },
        _ => {},
    }
}

/// Equal expressions have the same text.
pub proof fn lemma_expression_text(a: Expression, b: Expression)
    requires
        expression_eq(a, b),
    ensures
        expression_text(a) == expression_text(b),
    decreases a,
{
    match (a, b) {
        (Expression::Literal(x), Expression::Literal(y)) => {
            lemma_literal_text(x, y);
        },
        (Expression::Binary(x), Expression::Binary(y)) => {
            lemma_expression_text(x.left, y.left);
            lemma_expression_text(x.right, y.right);
        },
        (Expression::Unary(x), Expression::Unary(y)) => {
            lemma_expression_text(x.operand, y.operand);
        },
        (Expression::Call(x), Expression::Call(y)) => {
            lemma_expression_text(x.callee, y.callee);
            lemma_expressions_text(x.arguments@, y.arguments@, x.arguments@.len() as int, ", "@);
        },
        (Expression::Member(x), Expression::Member(y)) => {
            lemma_expression_text(x.object, y.object);
        },
        (Expression::Index(x), Expression::Index(y)) => {
            lemma_expression_text(x.array, y.array);
            lemma_expression_text(x.index, y.index);
        },
        (Expression::Cast(x), Expression::Cast(y)) => {
            lemma_expression_text(x.expr, y.expr);
            lemma_type_text(x.target_type, y.target_type);
        },
        (Expression::Block(x), Expression::Block(y)) => {
            lemma_expressions_text(
                x.statements@,
                y.statements@,
                x.statements@.len() as int,
                "; "@,
            );
        },
        (Expression::If(x), Expression::If(y)) => {
            lemma_expression_text(x.condition, y.condition);
            lemma_expression_text(x.then_branch, y.then_branch);
            match (x.else_branch, y.else_branch) {
                (Some(e1), Some(e2)) => {
                    lemma_expression_text(e1, e2);
                },
                _ => {},
            }
        },
        (Expression::Match(x), Expression::Match(y)) => {
            lemma_expression_text(x.value, y.value);
            lemma_arms_text(x.arms@, y.arms@, x.arms@.len() as int, ", "@);
        },
        (Expression::Loop(x), Expression::Loop(y)) => {
            lemma_label_text(x.label, y.label);
            lemma_expression_text(x.body, y.body);
        },
        (Expression::While(x), Expression::While(y)) => {
            lemma_label_text(x.label, y.label);
            lemma_expression_text(x.condition, y.condition);
            lemma_expression_text(x.body, y.body);
        },
        (Expression::For(x), Expression::For(y)) => {
            lemma_label_text(x.label, y.label);
            lemma_pattern_text(x.pattern, y.pattern);
            lemma_expression_text(x.iterator, y.iterator);
            lemma_expression_text(x.body, y.body);
        },
        (Expression::Range(x), Expression::Range(y)) => {
            match (x.start, y.start) {
                (Some(e1), Some(e2)) => {
                    lemma_expression_text(e1, e2);
                },
                _ => {},
            }
            match (x.end, y.end) {
                (Some(e1), Some(e2)) => {
                    lemma_expression_text(e1, e2);
                },
                _ => {},
            }
        },
        (Expression::MacroInvocation(x), Expression::MacroInvocation(y)) => {
            lemma_expressions_text(x.arguments@, y.arguments@, x.arguments@.len() as int, ", "@);
        },
        _ => {},
    }
}

/// Equal match arms have the same text.
pub proof fn lemma_arm_text(a: MatchArm, b: MatchArm)
    requires
        expression_arm_eq(a, b),
    ensures
        arm_text(a) == arm_text(b),
    decreases a,
{
    lemma_pattern_text(a.pattern, b.pattern);
    match (a.guard, b.guard) {
        (Some(g1), Some(g2)) => {
            lemma_expression_text(g1, g2);
        },
        _ => {},
    }
    lemma_expression_text(a.body, b.body);
}

/// Equal patterns have the same text.
pub proof fn lemma_pattern_text(a: Pattern, b: Pattern)
    requires
        pattern_eq(a, b),
    ensures
        pattern_text(a) == pattern_text(b),
    decreases a,
{
    match (a, b) {
        (Pattern::Literal(x), Pattern::Literal(y)) => {
            lemma_literal_text(x, y);
        },
        (Pattern::Tuple(xs), Pattern::Tuple(ys)) => {
            lemma_patterns_text(xs@, ys@, xs@.len() as int, ", "@);
        },
        (Pattern::Struct(_, xs), Pattern::Struct(_, ys)) => {
            lemma_field_patterns_text(xs@, ys@, xs@.len() as int, ", "@);
        },
        (Pattern::Or(xs), Pattern::Or(ys)) => {
            lemma_patterns_text(xs@, ys@, xs@.len() as int, " | "@);
        },
        (Pattern::Range(l1, h1), Pattern::Range(l2, h2)) => {
            lemma_pattern_text(*l1, *l2);
            lemma_pattern_text(*h1, *h2);
        },
        _ => {},
    }
}

/// Equal fields of struct patterns have the same text.
pub proof fn lemma_field_pattern_text(a: (Identifier, Pattern), b: (Identifier, Pattern))
    requires
        a.0.name@ == b.0.name@,
        pattern_eq(a.1, b.1),
    ensures
        field_pattern_text(a) == field_pattern_text(b),
    decreases a,
{
    lemma_pattern_text(a.1, b.1);
}

/// Sequences that are equal item by item have the same text.
pub proof fn lemma_types_text(xs: Seq<Type>, ys: Seq<Type>, n: int, sep: Seq<char>)
    requires
        xs.len() == ys.len(),
        forall|i: int| 0 <= i < xs.len() ==> type_eq(#[trigger] xs[i], ys[i]),
    ensures
        types_text(xs, n, sep) == types_text(ys, n, sep),
    decreases xs, n,
{
    if 0 < n <= xs.len() {
        lemma_type_text(xs[n - 1], ys[n - 1]);
        if n > 1 {
            lemma_types_text(xs, ys, n - 1, sep);
        }
    }
}

/// Sequences that are equal item by item have the same text.
pub proof fn lemma_segments_text(xs: Seq<TypePathSegment>, ys: Seq<TypePathSegment>, n: int, sep: Seq<char>)
    requires
        xs.len() == ys.len(),
        forall|i: int| 0 <= i < xs.len() ==> type_path_segment_eq(#[trigger] xs[i], ys[i]),
    ensures
        segments_text(xs, n, sep) == segments_text(ys, n, sep),
    decreases xs, n,
{
    if 0 < n <= xs.len() {
        lemma_segment_text(xs[n - 1], ys[n - 1]);
        if n > 1 {
            lemma_segments_text(xs, ys, n - 1, sep);
        }
    }
}

/// Sequences that are equal item by item have the same text.
pub proof fn lemma_expressions_text(xs: Seq<Expression>, ys: Seq<Expression>, n: int, sep: Seq<char>)
    requires
        xs.len() == ys.len(),
        forall|i: int| 0 <= i < xs.len() ==> expression_eq(#[trigger] xs[i], ys[i]),
    ensures
        expressions_text(xs, n, sep) == expressions_text(ys, n, sep),
    decreases xs, n,
{
    if 0 < n <= xs.len() {
        lemma_expression_text(xs[n - 1], ys[n - 1]);
        if n > 1 {
            lemma_expressions_text(xs, ys, n - 1, sep);
        }
    }
}

/// Sequences that are equal item by item have the same text.
pub proof fn lemma_arms_text(xs: Seq<MatchArm>, ys: Seq<MatchArm>, n: int, sep: Seq<char>)
    requires
        xs.len() == ys.len(),
        forall|i: int| 0 <= i < xs.len() ==> expression_arm_eq(#[trigger] xs[i], ys[i]),
    ensures
        arms_text(xs, n, sep) == arms_text(ys, n, sep),
    decreases xs, n,
{
    if 0 < n <= xs.len() {
        lemma_arm_text(xs[n - 1], ys[n - 1]);
        if n > 1 {
            lemma_arms_text(xs, ys, n - 1, sep);
        }
    }
}

/// Sequences that are equal item by item have the same text.
pub proof fn lemma_patterns_text(xs: Seq<Pattern>, ys: Seq<Pattern>, n: int, sep: Seq<char>)
    requires
        xs.len() == ys.len(),
        forall|i: int| 0 <= i < xs.len() ==> pattern_eq(#[trigger] xs[i], ys[i]),
    ensures
        patterns_text(xs, n, sep) == patterns_text(ys, n, sep),
    decreases xs, n,
{
    if 0 < n <= xs.len() {
        lemma_pattern_text(xs[n - 1], ys[n - 1]);
        if n > 1 {
            lemma_patterns_text(xs, ys, n - 1, sep);
        }
    }
}

/// Sequences that are equal item by item have the same text.
pub proof fn lemma_field_patterns_text(xs: Seq<(Identifier, Pattern)>, ys: Seq<(Identifier, Pattern)>, n: int, sep: Seq<char>)
    requires
        xs.len() == ys.len(),
        forall|i: int| 0 <= i < xs.len() ==> (#[trigger] xs[i]).0.name@ == ys[i].0.name@ && pattern_eq(xs[i].1, ys[i].1),
    ensures
        field_patterns_text(xs, n, sep) == field_patterns_text(ys, n, sep),
    decreases xs, n,
{
    if 0 < n <= xs.len() {
        lemma_field_pattern_text(xs[n - 1], ys[n - 1]);
        if n > 1 {
            lemma_field_patterns_text(xs, ys, n - 1, sep);
        }
    }
}

} // verus!
