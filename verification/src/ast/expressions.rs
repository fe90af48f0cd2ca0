//! Expressions, literals and patterns.

use vstd::prelude::*;
use crate::ast::types::Type;
use crate::ast::{Identifier, Span};

verus! {

#[derive(Debug)]
pub enum Expression {
    Literal(Literal),
    Identifier(Identifier),
    Binary(Box<BinaryExpr>),
    Unary(Box<UnaryExpr>),
    Call(Box<CallExpr>),
    Member(Box<MemberExpr>),
    Index(Box<IndexExpr>),
    Cast(Box<CastExpr>),
    Block(Box<BlockExpr>),
    If(Box<IfExpr>),
    Match(Box<MatchExpr>),
    Loop(Box<LoopExpr>),
    While(Box<WhileExpr>),
    For(Box<ForExpr>),
    Range(Box<RangeExpr>),
    MacroInvocation(Box<MacroInvocation>),
}

/// A literal value. A number keeps its magnitude apart from the type that a
/// suffix may give it.
#[derive(Debug)]
pub enum Literal {
    Integer(i128, Option<Type>),
    /// The decimal text of the value, as it is shown; turning it into a
    /// binary floating-point number is left to the caller.
    Float(String, Option<Type>),
    String(String),
    Character(char),
    Boolean(bool),
    /// The elements need not be of one type: that is checked later.
    Array(Vec<Expression>),
}

#[derive(Debug)]
pub struct BinaryExpr {
    pub left: Expression,
    pub operator: BinaryOperator,
    pub right: Expression,
    pub span: Span,
}

#[derive(Debug, Clone, Copy, PartialEq, Eq, Hash, Structural)]
pub enum BinaryOperator {
    Add,
    Sub,
    Mul,
    Div,
    Rem,
    And,
    Or,
    BitAnd,
    BitOr,
    BitXor,
    Shl,
    Shr,
    Eq,
    NotEq,
    Lt,
    LtEq,
    Gt,
    GtEq,
    Assign,
    AddAssign,
    SubAssign,
    MulAssign,
    DivAssign,
    RemAssign,
    BitAndAssign,
    BitOrAssign,
    BitXorAssign,
    ShlAssign,
    ShrAssign,
}

#[derive(Debug)]
pub struct UnaryExpr {
    pub operator: UnaryOperator,
    pub operand: Expression,
    pub span: Span,
}

#[derive(Debug, Clone, Copy, PartialEq, Eq, Hash, Structural)]
pub enum UnaryOperator {
    Neg,
    Not,
    BitNot,
    Deref,
    Ref,
    RefMut,
}

/// A call. The callee is any expression, so the result of a call can be
/// called in turn.
#[derive(Debug)]
pub struct CallExpr {
    pub callee: Expression,
    pub arguments: Vec<Expression>,
    pub span: Span,
}

/// `object.member`: a field or a method, which later stages tell apart.
#[derive(Debug)]
pub struct MemberExpr {
    pub object: Expression,
    pub member: Identifier,
    pub span: Span,
}

#[derive(Debug)]
pub struct IndexExpr {
    pub array: Expression,
    pub index: Expression,
    pub span: Span,
}

#[derive(Debug)]
pub struct CastExpr {
    pub expr: Expression,
    pub target_type: Type,
    pub span: Span,
}

#[derive(Debug)]
pub struct BlockExpr {
    pub statements: Vec<Expression>,
    pub span: Span,
}

#[derive(Debug)]
pub struct IfExpr {
    pub condition: Expression,
    pub then_branch: Expression,
    pub else_branch: Option<Expression>,
    pub span: Span,
}

#[derive(Debug)]
pub struct MatchExpr {
    pub value: Expression,
    pub arms: Vec<MatchArm>,
    pub span: Span,
}

/// An arm of a match expression: always a pattern and a body, with a guard
/// where one is written.
#[derive(Debug)]
pub struct MatchArm {
    pub pattern: Pattern,
    pub guard: Option<Expression>,
    pub body: Expression,
    pub span: Span,
}

#[derive(Debug)]
pub enum Pattern {
    Literal(Literal),
    Identifier(Identifier),
    Tuple(Vec<Pattern>),
    /// The struct's name, then field names with their patterns.
    Struct(Identifier, Vec<(Identifier, Pattern)>),
    Or(Vec<Pattern>),
    /// Lower and upper bound, each a pattern of its own.
    Range(Box<Pattern>, Box<Pattern>),
    Wildcard,
}

#[derive(Debug)]
pub struct LoopExpr {
    pub body: Expression,
    pub label: Option<Identifier>,
    pub span: Span,
}

#[derive(Debug)]
pub struct WhileExpr {
    pub condition: Expression,
    pub body: Expression,
    pub label: Option<Identifier>,
    pub span: Span,
}

#[derive(Debug)]
pub struct ForExpr {
    pub pattern: Pattern,
    pub iterator: Expression,
    pub body: Expression,
    pub label: Option<Identifier>,
    pub span: Span,
}

/// A range. Either end may be absent; with both present and `inclusive`
/// unset it is half-open.
#[derive(Debug)]
pub struct RangeExpr {
    pub start: Option<Expression>,
    pub end: Option<Expression>,
    pub inclusive: bool,
    pub span: Span,
}

#[derive(Debug)]
pub struct MacroInvocation {
    pub name: Identifier,
    pub arguments: Vec<Expression>,
    pub span: Span,
}

} // verus!
