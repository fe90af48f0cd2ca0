//! Statements: the entries of a block. Loops, `if` and `match` exist here
//! with blocks for bodies, beside their expression forms.

use vstd::prelude::*;
use crate::ast::expressions::{Expression, Pattern};
use crate::ast::types::Type;
use crate::ast::{Block, Identifier, Span};

verus! {

#[derive(Debug)]
pub enum Statement {
    Empty,
    Expression(Expression),
    Let(LetStatement),
    Return(ReturnStatement),
    Break(BreakStatement),
    Continue(ContinueStatement),
    While(WhileStatement),
    For(ForStatement),
    Loop(LoopStatement),
    Block(Block),
    If(IfStatement),
    Match(MatchStatement),
    Panic(PanicStatement),
}

#[derive(Debug)]
pub struct LetStatement {
    pub pattern: Pattern,
    pub type_annotation: Option<Type>,
    pub initializer: Option<Expression>,
    pub mutable: bool,
    pub span: Span,
}

#[derive(Debug)]
pub struct ReturnStatement {
    pub expression: Option<Expression>,
    pub span: Span,
}

#[derive(Debug)]
pub struct BreakStatement {
    pub label: Option<Identifier>,
    pub expression: Option<Expression>,
    pub span: Span,
}

#[derive(Debug)]
pub struct ContinueStatement {
    pub label: Option<Identifier>,
    pub span: Span,
}

#[derive(Debug)]
pub struct WhileStatement {
    pub condition: Expression,
    pub body: Block,
    pub label: Option<Identifier>,
    pub span: Span,
}

#[derive(Debug)]
pub struct ForStatement {
    pub pattern: Pattern,
    pub iterator: Expression,
    pub body: Block,
    pub label: Option<Identifier>,
    pub span: Span,
}

#[derive(Debug)]
pub struct LoopStatement {
    pub body: Block,
    pub label: Option<Identifier>,
    pub span: Span,
}

#[derive(Debug)]
pub struct IfStatement {
    pub condition: Expression,
    pub then_branch: Block,
    pub else_branch: Option<ElseBranch>,
    pub span: Span,
}

#[derive(Debug)]
pub enum ElseBranch {
    Block(Block),
    If(Box<IfStatement>),
}

#[derive(Debug)]
pub struct MatchStatement {
    pub expression: Expression,
    pub arms: Vec<MatchArm>,
    pub span: Span,
}

/// An arm of a match statement: always a pattern and a block.
#[derive(Debug)]
pub struct MatchArm {
    pub pattern: Pattern,
    pub guard: Option<Expression>,
    pub body: Block,
    pub span: Span,
}

#[derive(Debug)]
pub struct PanicStatement {
    pub message: Expression,
    pub span: Span,
}

} // verus!
