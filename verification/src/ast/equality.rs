//! Equality of syntax trees.
//!
//! Two trees are equal when they are built alike from equal parts. The span
//! of a node is one of its parts; the span of an identifier is not, since an
//! identifier is its name. `==` on every node type is this relation.

use vstd::prelude::*;
use crate::ast::{
    Attribute, AttributeArg, Block, ConstDecl, Declaration, EnumDecl, EnumVariant,
    FunctionDecl, Identifier, MacroBody, MacroDecl, MacroParam, MacroToken, ModuleDecl,
    Parameter, Program, StructDecl, StructField, UnionDecl, UnionField, VarDecl,
    lemma_token_eq_reflexive, same_tokens, token_eq,
};
use crate::ast::expressions::{
    BinaryExpr, BlockExpr, CallExpr, CastExpr, Expression, ForExpr, IfExpr, IndexExpr, Literal,
    LoopExpr, MacroInvocation, MatchExpr, MemberExpr, Pattern, RangeExpr, UnaryExpr, WhileExpr,
};
use crate::ast::statements::{
    BreakStatement, ContinueStatement, ElseBranch, ForStatement, IfStatement, LetStatement,
    LoopStatement, MatchStatement, PanicStatement, ReturnStatement, Statement, WhileStatement,
};
use crate::ast::types::{
    Type, TypePath, TypePathSegment,
};
use crate::ast::{expressions, statements};

verus! {

/// Two programs are built alike from equal parts.
pub open spec fn program_eq(a: Program, b: Program) -> bool
    decreases a,
{
    &&& a.items@.len() == b.items@.len() && (forall|i: int|
        0 <= i < a.items@.len() ==> declaration_eq(#[trigger] a.items@[i], b.items@[i]))
    &&& a.span == b.span
}

/// Two declarations are built alike from equal parts.
pub open spec fn declaration_eq(a: Declaration, b: Declaration) -> bool
    decreases a,
{
    match a {
        Declaration::Function(x0) => b matches Declaration::Function(y0)
            && function_decl_eq(x0, y0),
        Declaration::Struct(x0) => b matches Declaration::Struct(y0)
            && struct_decl_eq(x0, y0),
        Declaration::Enum(x0) => b matches Declaration::Enum(y0)
            && enum_decl_eq(x0, y0),
        Declaration::Union(x0) => b matches Declaration::Union(y0)
            && union_decl_eq(x0, y0),
        Declaration::Variable(x0) => b matches Declaration::Variable(y0)
            && var_decl_eq(x0, y0),
        Declaration::Constant(x0) => b matches Declaration::Constant(y0)
            && const_decl_eq(x0, y0),
        Declaration::Module(x0) => b matches Declaration::Module(y0)
            && module_decl_eq(x0, y0),
        Declaration::Macro(x0) => b matches Declaration::Macro(y0)
            && macro_decl_eq(x0, y0),
    }
}

/// Two function declarations are built alike from equal parts.
pub open spec fn function_decl_eq(a: FunctionDecl, b: FunctionDecl) -> bool
    decreases a,
{
    &&& a.name.name@ == b.name.name@
    &&& a.params@.len() == b.params@.len() && (forall|i: int|
        0 <= i < a.params@.len() ==> parameter_eq(#[trigger] a.params@[i], b.params@[i]))
    &&& (match a.return_type {
        Some(x) => b.return_type matches Some(y) && type_eq(*x, *y),
        None => b.return_type is None,
    })
    &&& block_eq(a.body, b.body)
    &&& a.attributes@.len() == b.attributes@.len() && (forall|i: int|
        0 <= i < a.attributes@.len() ==> attribute_eq(#[trigger] a.attributes@[i], b.attributes@[i]))
    &&& a.span == b.span
}

/// Two parameters are built alike from equal parts.
pub open spec fn parameter_eq(a: Parameter, b: Parameter) -> bool
    decreases a,
{
    &&& a.name.name@ == b.name.name@
    &&& type_eq(a.ty, b.ty)
    &&& a.span == b.span
}

/// Two blocks are built alike from equal parts.
pub open spec fn block_eq(a: Block, b: Block) -> bool
    decreases a,
{
    &&& a.statements@.len() == b.statements@.len() && (forall|i: int|
        0 <= i < a.statements@.len() ==> statement_eq(#[trigger] a.statements@[i], b.statements@[i]))
    &&& a.span == b.span
}

/// Two attributes are built alike from equal parts.
pub open spec fn attribute_eq(a: Attribute, b: Attribute) -> bool
    decreases a,
{
    &&& a.name.name@ == b.name.name@
    &&& a.args@.len() == b.args@.len() && (forall|i: int|
        0 <= i < a.args@.len() ==> attribute_arg_eq(#[trigger] a.args@[i], b.args@[i]))
    &&& a.span == b.span
}

/// Two attribute arguments are built alike from equal parts.
pub open spec fn attribute_arg_eq(a: AttributeArg, b: AttributeArg) -> bool
    decreases a,
{
    match a {
        AttributeArg::Literal(x0) => b matches AttributeArg::Literal(y0)
            && literal_eq(x0, y0),
        AttributeArg::Identifier(x0) => b matches AttributeArg::Identifier(y0)
            && x0.name@ == y0.name@,
    }
}

/// Two struct declarations are built alike from equal parts.
pub open spec fn struct_decl_eq(a: StructDecl, b: StructDecl) -> bool
    decreases a,
{
    &&& a.name.name@ == b.name.name@
    &&& a.fields@.len() == b.fields@.len() && (forall|i: int|
        0 <= i < a.fields@.len() ==> struct_field_eq(#[trigger] a.fields@[i], b.fields@[i]))
    &&& a.attributes@.len() == b.attributes@.len() && (forall|i: int|
        0 <= i < a.attributes@.len() ==> attribute_eq(#[trigger] a.attributes@[i], b.attributes@[i]))
    &&& a.span == b.span
}

/// Two struct fields are built alike from equal parts.
pub open spec fn struct_field_eq(a: StructField, b: StructField) -> bool
    decreases a,
{
    &&& a.name.name@ == b.name.name@
    &&& type_eq(a.ty, b.ty)
    &&& a.attributes@.len() == b.attributes@.len() && (forall|i: int|
        0 <= i < a.attributes@.len() ==> attribute_eq(#[trigger] a.attributes@[i], b.attributes@[i]))
    &&& a.span == b.span
}

/// Two enum declarations are built alike from equal parts.
pub open spec fn enum_decl_eq(a: EnumDecl, b: EnumDecl) -> bool
    decreases a,
{
    &&& a.name.name@ == b.name.name@
    &&& a.variants@.len() == b.variants@.len() && (forall|i: int|
        0 <= i < a.variants@.len() ==> enum_variant_eq(#[trigger] a.variants@[i], b.variants@[i]))
    &&& a.attributes@.len() == b.attributes@.len() && (forall|i: int|
        0 <= i < a.attributes@.len() ==> attribute_eq(#[trigger] a.attributes@[i], b.attributes@[i]))
    &&& a.span == b.span
}

/// Two enum variants are built alike from equal parts.
pub open spec fn enum_variant_eq(a: EnumVariant, b: EnumVariant) -> bool
    decreases a,
{
    &&& a.name.name@ == b.name.name@
    &&& (match a.data {
        Some(x) => b.data matches Some(y) && type_eq(x, y),
        None => b.data is None,
    })
    &&& a.span == b.span
}

/// Two union declarations are built alike from equal parts.
pub open spec fn union_decl_eq(a: UnionDecl, b: UnionDecl) -> bool
    decreases a,
{
    &&& a.name.name@ == b.name.name@
    &&& a.fields@.len() == b.fields@.len() && (forall|i: int|
        0 <= i < a.fields@.len() ==> union_field_eq(#[trigger] a.fields@[i], b.fields@[i]))
    &&& a.attributes@.len() == b.attributes@.len() && (forall|i: int|
        0 <= i < a.attributes@.len() ==> attribute_eq(#[trigger] a.attributes@[i], b.attributes@[i]))
    &&& a.span == b.span
}

/// Two union fields are built alike from equal parts.
pub open spec fn union_field_eq(a: UnionField, b: UnionField) -> bool
    decreases a,
{
    &&& a.name.name@ == b.name.name@
    &&& type_eq(a.ty, b.ty)
    &&& a.span == b.span
}

/// Two variable declarations are built alike from equal parts.
pub open spec fn var_decl_eq(a: VarDecl, b: VarDecl) -> bool
    decreases a,
{
    &&& a.name.name@ == b.name.name@
    &&& (match a.ty {
        Some(x) => b.ty matches Some(y) && type_eq(x, y),
        None => b.ty is None,
    })
    &&& a.mutable == b.mutable
    &&& (match a.initializer {
        Some(x) => b.initializer matches Some(y) && expression_eq(x, y),
        None => b.initializer is None,
    })
    &&& a.span == b.span
}

/// Two constant declarations are built alike from equal parts.
pub open spec fn const_decl_eq(a: ConstDecl, b: ConstDecl) -> bool
    decreases a,
{
    &&& a.name.name@ == b.name.name@
    &&& type_eq(a.ty, b.ty)
    &&& expression_eq(a.value, b.value)
    &&& a.span == b.span
}

/// Two module declarations are built alike from equal parts.
pub open spec fn module_decl_eq(a: ModuleDecl, b: ModuleDecl) -> bool
    decreases a,
{
    &&& a.name.name@ == b.name.name@
    &&& a.items@.len() == b.items@.len() && (forall|i: int|
        0 <= i < a.items@.len() ==> declaration_eq(#[trigger] a.items@[i], b.items@[i]))
    &&& a.span == b.span
}

/// Two macro declarations are built alike from equal parts.
pub open spec fn macro_decl_eq(a: MacroDecl, b: MacroDecl) -> bool
    decreases a,
{
    &&& a.name.name@ == b.name.name@
    &&& a.params@.len() == b.params@.len() && (forall|i: int|
        0 <= i < a.params@.len() ==> macro_param_eq(#[trigger] a.params@[i], b.params@[i]))
    &&& macro_body_eq(a.body, b.body)
    &&& a.span == b.span
}

/// Two macro parameters are built alike from equal parts.
pub open spec fn macro_param_eq(a: MacroParam, b: MacroParam) -> bool
    decreases a,
{
    &&& a.name.name@ == b.name.name@
    &&& type_eq(a.ty, b.ty)
    &&& a.span == b.span
}

/// Two macro bodies are built alike from equal parts.
pub open spec fn macro_body_eq(a: MacroBody, b: MacroBody) -> bool
    decreases a,
{
    &&& a.tokens@.len() == b.tokens@.len() && (forall|i: int|
        0 <= i < a.tokens@.len() ==> token_eq(#[trigger] a.tokens@[i], b.tokens@[i]))
    &&& a.span == b.span
}

/// Two expressions are built alike from equal parts.
pub open spec fn expression_eq(a: Expression, b: Expression) -> bool
    decreases a,
{
    match a {
        Expression::Literal(x0) => b matches Expression::Literal(y0)
            && literal_eq(x0, y0),
        Expression::Identifier(x0) => b matches Expression::Identifier(y0)
            && x0.name@ == y0.name@,
        Expression::Binary(x0) => b matches Expression::Binary(y0)
            && binary_expr_eq(*x0, *y0),
        Expression::Unary(x0) => b matches Expression::Unary(y0)
            && unary_expr_eq(*x0, *y0),
        Expression::Call(x0) => b matches Expression::Call(y0)
            && call_expr_eq(*x0, *y0),
        Expression::Member(x0) => b matches Expression::Member(y0)
            && member_expr_eq(*x0, *y0),
        Expression::Index(x0) => b matches Expression::Index(y0)
            && index_expr_eq(*x0, *y0),
        Expression::Cast(x0) => b matches Expression::Cast(y0)
            && cast_expr_eq(*x0, *y0),
        Expression::Block(x0) => b matches Expression::Block(y0)
            && block_expr_eq(*x0, *y0),
        Expression::If(x0) => b matches Expression::If(y0)
            && if_expr_eq(*x0, *y0),
        Expression::Match(x0) => b matches Expression::Match(y0)
            && match_expr_eq(*x0, *y0),
        Expression::Loop(x0) => b matches Expression::Loop(y0)
            && loop_expr_eq(*x0, *y0),
        Expression::While(x0) => b matches Expression::While(y0)
            && while_expr_eq(*x0, *y0),
        Expression::For(x0) => b matches Expression::For(y0)
            && for_expr_eq(*x0, *y0),
        Expression::Range(x0) => b matches Expression::Range(y0)
            && range_expr_eq(*x0, *y0),
        Expression::MacroInvocation(x0) => b matches Expression::MacroInvocation(y0)
            && macro_invocation_eq(*x0, *y0),
    }
}

/// Two literals are built alike from equal parts.
pub open spec fn literal_eq(a: Literal, b: Literal) -> bool
    decreases a,
{
    match a {
        Literal::Integer(x0, x1) => b matches Literal::Integer(y0, y1)
            && x0 == y0 && (match x1 {
            Some(x) => y1 matches Some(y) && type_eq(x, y),
            None => y1 is None,
        }),
        Literal::Float(x0, x1) => b matches Literal::Float(y0, y1)
            && x0@ == y0@ && (match x1 {
            Some(x) => y1 matches Some(y) && type_eq(x, y),
            None => y1 is None,
        }),
        Literal::String(x0) => b matches Literal::String(y0)
            && x0@ == y0@,
        Literal::Character(x0) => b matches Literal::Character(y0)
            && x0 == y0,
        Literal::Boolean(x0) => b matches Literal::Boolean(y0)
            && x0 == y0,
        Literal::Array(x0) => b matches Literal::Array(y0)
            && x0@.len() == y0@.len() && (forall|i: int|
            0 <= i < x0@.len() ==> expression_eq(#[trigger] x0@[i], y0@[i])),
    }
}

/// Two binary expressions are built alike from equal parts.
pub open spec fn binary_expr_eq(a: BinaryExpr, b: BinaryExpr) -> bool
    decreases a,
{
    &&& expression_eq(a.left, b.left)
    &&& a.operator == b.operator
    &&& expression_eq(a.right, b.right)
    &&& a.span == b.span
}

/// Two unary expressions are built alike from equal parts.
pub open spec fn unary_expr_eq(a: UnaryExpr, b: UnaryExpr) -> bool
    decreases a,
{
    &&& a.operator == b.operator
    &&& expression_eq(a.operand, b.operand)
    &&& a.span == b.span
}

/// Two call expressions are built alike from equal parts.
pub open spec fn call_expr_eq(a: CallExpr, b: CallExpr) -> bool
    decreases a,
{
    &&& expression_eq(a.callee, b.callee)
    &&& a.arguments@.len() == b.arguments@.len() && (forall|i: int|
        0 <= i < a.arguments@.len() ==> expression_eq(#[trigger] a.arguments@[i], b.arguments@[i]))
    &&& a.span == b.span
}

/// Two member expressions are built alike from equal parts.
pub open spec fn member_expr_eq(a: MemberExpr, b: MemberExpr) -> bool
    decreases a,
{
    &&& expression_eq(a.object, b.object)
    &&& a.member.name@ == b.member.name@
    &&& a.span == b.span
}

/// Two index expressions are built alike from equal parts.
pub open spec fn index_expr_eq(a: IndexExpr, b: IndexExpr) -> bool
    decreases a,
{
    &&& expression_eq(a.array, b.array)
    &&& expression_eq(a.index, b.index)
    &&& a.span == b.span
}

/// Two cast expressions are built alike from equal parts.
pub open spec fn cast_expr_eq(a: CastExpr, b: CastExpr) -> bool
    decreases a,
{
    &&& expression_eq(a.expr, b.expr)
    &&& type_eq(a.target_type, b.target_type)
    &&& a.span == b.span
}

/// Two block expressions are built alike from equal parts.
pub open spec fn block_expr_eq(a: BlockExpr, b: BlockExpr) -> bool
    decreases a,
{
    &&& a.statements@.len() == b.statements@.len() && (forall|i: int|
        0 <= i < a.statements@.len() ==> expression_eq(#[trigger] a.statements@[i], b.statements@[i]))
    &&& a.span == b.span
}

/// Two if expressions are built alike from equal parts.
pub open spec fn if_expr_eq(a: IfExpr, b: IfExpr) -> bool
    decreases a,
{
    &&& expression_eq(a.condition, b.condition)
    &&& expression_eq(a.then_branch, b.then_branch)
    &&& (match a.else_branch {
        Some(x) => b.else_branch matches Some(y) && expression_eq(x, y),
        None => b.else_branch is None,
    })
    &&& a.span == b.span
}

/// Two match expressions are built alike from equal parts.
pub open spec fn match_expr_eq(a: MatchExpr, b: MatchExpr) -> bool
    decreases a,
{
    &&& expression_eq(a.value, b.value)
    &&& a.arms@.len() == b.arms@.len() && (forall|i: int|
        0 <= i < a.arms@.len() ==> expression_arm_eq(#[trigger] a.arms@[i], b.arms@[i]))
    &&& a.span == b.span
}

/// Two arms of a match expression are built alike from equal parts.
pub open spec fn expression_arm_eq(a: expressions::MatchArm, b: expressions::MatchArm) -> bool
    decreases a,
{
    &&& pattern_eq(a.pattern, b.pattern)
    &&& (match a.guard {
        Some(x) => b.guard matches Some(y) && expression_eq(x, y),
        None => b.guard is None,
    })
    &&& expression_eq(a.body, b.body)
    &&& a.span == b.span
}

/// Two patterns are built alike from equal parts.
pub open spec fn pattern_eq(a: Pattern, b: Pattern) -> bool
    decreases a,
{
    match a {
        Pattern::Literal(x0) => b matches Pattern::Literal(y0)
            && literal_eq(x0, y0),
        Pattern::Identifier(x0) => b matches Pattern::Identifier(y0)
            && x0.name@ == y0.name@,
        Pattern::Tuple(x0) => b matches Pattern::Tuple(y0)
            && x0@.len() == y0@.len() && (forall|i: int|
            0 <= i < x0@.len() ==> pattern_eq(#[trigger] x0@[i], y0@[i])),
        Pattern::Struct(x0, x1) => b matches Pattern::Struct(y0, y1)
            && x0.name@ == y0.name@ && x1@.len() == y1@.len() && (forall|i: int|
            0 <= i < x1@.len() ==> ((#[trigger] x1@[i]).0.name@ == y1@[i].0.name@ && pattern_eq((#[trigger] x1@[i]).1, y1@[i].1))),
        Pattern::Or(x0) => b matches Pattern::Or(y0)
            && x0@.len() == y0@.len() && (forall|i: int|
            0 <= i < x0@.len() ==> pattern_eq(#[trigger] x0@[i], y0@[i])),
        Pattern::Range(x0, x1) => b matches Pattern::Range(y0, y1)
            && pattern_eq(*x0, *y0) && pattern_eq(*x1, *y1),
        Pattern::Wildcard => b is Wildcard,
    }
}

/// Two loop expressions are built alike from equal parts.
pub open spec fn loop_expr_eq(a: LoopExpr, b: LoopExpr) -> bool
    decreases a,
{
    &&& expression_eq(a.body, b.body)
    &&& (match a.label {
        Some(x) => b.label matches Some(y) && x.name@ == y.name@,
        None => b.label is None,
    })
    &&& a.span == b.span
}

/// Two while expressions are built alike from equal parts.
pub open spec fn while_expr_eq(a: WhileExpr, b: WhileExpr) -> bool
    decreases a,
{
    &&& expression_eq(a.condition, b.condition)
    &&& expression_eq(a.body, b.body)
    &&& (match a.label {
        Some(x) => b.label matches Some(y) && x.name@ == y.name@,
        None => b.label is None,
    })
    &&& a.span == b.span
}

/// Two for expressions are built alike from equal parts.
pub open spec fn for_expr_eq(a: ForExpr, b: ForExpr) -> bool
    decreases a,
{
    &&& pattern_eq(a.pattern, b.pattern)
    &&& expression_eq(a.iterator, b.iterator)
    &&& expression_eq(a.body, b.body)
    &&& (match a.label {
        Some(x) => b.label matches Some(y) && x.name@ == y.name@,
        None => b.label is None,
    })
    &&& a.span == b.span
}

/// Two range expressions are built alike from equal parts.
pub open spec fn range_expr_eq(a: RangeExpr, b: RangeExpr) -> bool
    decreases a,
{
    &&& (match a.start {
        Some(x) => b.start matches Some(y) && expression_eq(x, y),
        None => b.start is None,
    })
    &&& (match a.end {
        Some(x) => b.end matches Some(y) && expression_eq(x, y),
        None => b.end is None,
    })
    &&& a.inclusive == b.inclusive
    &&& a.span == b.span
}

/// Two macro invocations are built alike from equal parts.
pub open spec fn macro_invocation_eq(a: MacroInvocation, b: MacroInvocation) -> bool
    decreases a,
{
    &&& a.name.name@ == b.name.name@
    &&& a.arguments@.len() == b.arguments@.len() && (forall|i: int|
        0 <= i < a.arguments@.len() ==> expression_eq(#[trigger] a.arguments@[i], b.arguments@[i]))
    &&& a.span == b.span
}

/// Two statements are built alike from equal parts.
pub open spec fn statement_eq(a: Statement, b: Statement) -> bool
    decreases a,
{
    match a {
        Statement::Empty => b is Empty,
        Statement::Expression(x0) => b matches Statement::Expression(y0)
            && expression_eq(x0, y0),
        Statement::Let(x0) => b matches Statement::Let(y0)
            && let_statement_eq(x0, y0),
        Statement::Return(x0) => b matches Statement::Return(y0)
            && return_statement_eq(x0, y0),
        Statement::Break(x0) => b matches Statement::Break(y0)
            && break_statement_eq(x0, y0),
        Statement::Continue(x0) => b matches Statement::Continue(y0)
            && continue_statement_eq(x0, y0),
        Statement::While(x0) => b matches Statement::While(y0)
            && while_statement_eq(x0, y0),
        Statement::For(x0) => b matches Statement::For(y0)
            && for_statement_eq(x0, y0),
        Statement::Loop(x0) => b matches Statement::Loop(y0)
            && loop_statement_eq(x0, y0),
        Statement::Block(x0) => b matches Statement::Block(y0)
            && block_eq(x0, y0),
        Statement::If(x0) => b matches Statement::If(y0)
            && if_statement_eq(x0, y0),
        Statement::Match(x0) => b matches Statement::Match(y0)
            && match_statement_eq(x0, y0),
        Statement::Panic(x0) => b matches Statement::Panic(y0)
            && panic_statement_eq(x0, y0),
    }
}

/// Two let statements are built alike from equal parts.
pub open spec fn let_statement_eq(a: LetStatement, b: LetStatement) -> bool
    decreases a,
{
    &&& pattern_eq(a.pattern, b.pattern)
    &&& (match a.type_annotation {
        Some(x) => b.type_annotation matches Some(y) && type_eq(x, y),
        None => b.type_annotation is None,
    })
    &&& (match a.initializer {
        Some(x) => b.initializer matches Some(y) && expression_eq(x, y),
        None => b.initializer is None,
    })
    &&& a.mutable == b.mutable
    &&& a.span == b.span
}

/// Two return statements are built alike from equal parts.
pub open spec fn return_statement_eq(a: ReturnStatement, b: ReturnStatement) -> bool
    decreases a,
{
    &&& (match a.expression {
        Some(x) => b.expression matches Some(y) && expression_eq(x, y),
        None => b.expression is None,
    })
    &&& a.span == b.span
}

/// Two break statements are built alike from equal parts.
pub open spec fn break_statement_eq(a: BreakStatement, b: BreakStatement) -> bool
    decreases a,
{
    &&& (match a.label {
        Some(x) => b.label matches Some(y) && x.name@ == y.name@,
        None => b.label is None,
    })
    &&& (match a.expression {
        Some(x) => b.expression matches Some(y) && expression_eq(x, y),
        None => b.expression is None,
    })
    &&& a.span == b.span
}

/// Two continue statements are built alike from equal parts.
pub open spec fn continue_statement_eq(a: ContinueStatement, b: ContinueStatement) -> bool
    decreases a,
{
    &&& (match a.label {
        Some(x) => b.label matches Some(y) && x.name@ == y.name@,
        None => b.label is None,
    })
    &&& a.span == b.span
}

/// Two while statements are built alike from equal parts.
pub open spec fn while_statement_eq(a: WhileStatement, b: WhileStatement) -> bool
    decreases a,
{
    &&& expression_eq(a.condition, b.condition)
    &&& block_eq(a.body, b.body)
    &&& (match a.label {
        Some(x) => b.label matches Some(y) && x.name@ == y.name@,
        None => b.label is None,
    })
    &&& a.span == b.span
}

/// Two for statements are built alike from equal parts.
pub open spec fn for_statement_eq(a: ForStatement, b: ForStatement) -> bool
    decreases a,
{
    &&& pattern_eq(a.pattern, b.pattern)
    &&& expression_eq(a.iterator, b.iterator)
    &&& block_eq(a.body, b.body)
    &&& (match a.label {
        Some(x) => b.label matches Some(y) && x.name@ == y.name@,
        None => b.label is None,
    })
    &&& a.span == b.span
}

/// Two loop statements are built alike from equal parts.
pub open spec fn loop_statement_eq(a: LoopStatement, b: LoopStatement) -> bool
    decreases a,
{
    &&& block_eq(a.body, b.body)
    &&& (match a.label {
        Some(x) => b.label matches Some(y) && x.name@ == y.name@,
        None => b.label is None,
    })
    &&& a.span == b.span
}

/// Two if statements are built alike from equal parts.
pub open spec fn if_statement_eq(a: IfStatement, b: IfStatement) -> bool
    decreases a,
{
    &&& expression_eq(a.condition, b.condition)
    &&& block_eq(a.then_branch, b.then_branch)
    &&& (match a.else_branch {
        Some(x) => b.else_branch matches Some(y) && else_branch_eq(x, y),
        None => b.else_branch is None,
    })
    &&& a.span == b.span
}

/// Two else branches are built alike from equal parts.
pub open spec fn else_branch_eq(a: ElseBranch, b: ElseBranch) -> bool
    decreases a,
{
    match a {
        ElseBranch::Block(x0) => b matches ElseBranch::Block(y0)
            && block_eq(x0, y0),
        ElseBranch::If(x0) => b matches ElseBranch::If(y0)
            && if_statement_eq(*x0, *y0),
    }
}

/// Two match statements are built alike from equal parts.
pub open spec fn match_statement_eq(a: MatchStatement, b: MatchStatement) -> bool
    decreases a,
{
    &&& expression_eq(a.expression, b.expression)
    &&& a.arms@.len() == b.arms@.len() && (forall|i: int|
        0 <= i < a.arms@.len() ==> statement_arm_eq(#[trigger] a.arms@[i], b.arms@[i]))
    &&& a.span == b.span
}

/// Two arms of a match statement are built alike from equal parts.
pub open spec fn statement_arm_eq(a: statements::MatchArm, b: statements::MatchArm) -> bool
    decreases a,
{
    &&& pattern_eq(a.pattern, b.pattern)
    &&& (match a.guard {
        Some(x) => b.guard matches Some(y) && expression_eq(x, y),
        None => b.guard is None,
    })
    &&& block_eq(a.body, b.body)
    &&& a.span == b.span
}

/// Two panic statements are built alike from equal parts.
pub open spec fn panic_statement_eq(a: PanicStatement, b: PanicStatement) -> bool
    decreases a,
{
    &&& expression_eq(a.message, b.message)
    &&& a.span == b.span
}

/// Two types are built alike from equal parts.
pub open spec fn type_eq(a: Type, b: Type) -> bool
    decreases a,
{
    match a {
        Type::I8 => b is I8,
        Type::I16 => b is I16,
        Type::I32 => b is I32,
        Type::I64 => b is I64,
        Type::I128 => b is I128,
        Type::U8 => b is U8,
        Type::U16 => b is U16,
        Type::U32 => b is U32,
        Type::U64 => b is U64,
        Type::U128 => b is U128,
        Type::F32 => b is F32,
        Type::F64 => b is F64,
        Type::Bool => b is Bool,
        Type::Char => b is Char,
        Type::Str => b is Str,
        Type::Unit => b is Unit,
        Type::Never => b is Never,
        Type::Array(x0, x1) => b matches Type::Array(y0, y1)
            && type_eq(*x0, *y0) && (match x1 {
            Some(x) => y1 matches Some(y) && expression_eq(*x, *y),
            None => y1 is None,
        }),
        Type::Slice(x0) => b matches Type::Slice(y0)
            && type_eq(*x0, *y0),
        Type::Pointer(x0, x1) => b matches Type::Pointer(y0, y1)
            && type_eq(*x0, *y0) && x1 == y1,
        Type::Reference(x0, x1) => b matches Type::Reference(y0, y1)
            && type_eq(*x0, *y0) && x1 == y1,
        Type::Tuple(x0) => b matches Type::Tuple(y0)
            && x0@.len() == y0@.len() && (forall|i: int|
            0 <= i < x0@.len() ==> type_eq(#[trigger] x0@[i], y0@[i])),
        Type::Function(x0, x1) => b matches Type::Function(y0, y1)
            && x0@.len() == y0@.len() && (forall|i: int|
            0 <= i < x0@.len() ==> type_eq(#[trigger] x0@[i], y0@[i])) && type_eq(*x1, *y1),
        Type::Named(x0) => b matches Type::Named(y0)
            && type_path_eq(x0, y0),
        Type::Generic(x0, x1) => b matches Type::Generic(y0, y1)
            && type_eq(*x0, *y0) && x1@.len() == y1@.len() && (forall|i: int|
            0 <= i < x1@.len() ==> type_eq(#[trigger] x1@[i], y1@[i])),
    }
}

/// Two type paths are built alike from equal parts.
pub open spec fn type_path_eq(a: TypePath, b: TypePath) -> bool
    decreases a,
{
    &&& a.segments@.len() == b.segments@.len() && (forall|i: int|
        0 <= i < a.segments@.len() ==> type_path_segment_eq(#[trigger] a.segments@[i], b.segments@[i]))
    &&& a.span == b.span
}

/// Two type path segments are built alike from equal parts.
pub open spec fn type_path_segment_eq(a: TypePathSegment, b: TypePathSegment) -> bool
    decreases a,
{
    &&& a.ident.name@ == b.ident.name@
    &&& (match a.generic_args {
        Some(x) => b.generic_args matches Some(y) && x@.len() == y@.len() && (forall|i: int|
        0 <= i < x@.len() ==> type_eq(#[trigger] x@[i], y@[i])),
        None => b.generic_args is None,
    })
    &&& a.span == b.span
}

/// Compares two programs.
pub fn same_program(a: &Program, b: &Program) -> (r: bool)
    ensures
        r == program_eq(*a, *b),
    decreases a,
{
    same_declarations(&a.items, &b.items)
        && a.span == b.span
}

/// Compares two declarations.
pub fn same_declaration(a: &Declaration, b: &Declaration) -> (r: bool)
    ensures
        r == declaration_eq(*a, *b),
    decreases a,
{
    match a {
        Declaration::Function(x0) => match b {
            Declaration::Function(y0) => same_function_decl(x0, y0),
            _ => false,
        },
        Declaration::Struct(x0) => match b {
            Declaration::Struct(y0) => same_struct_decl(x0, y0),
            _ => false,
        },
        Declaration::Enum(x0) => match b {
            Declaration::Enum(y0) => same_enum_decl(x0, y0),
            _ => false,
        },
        Declaration::Union(x0) => match b {
            Declaration::Union(y0) => same_union_decl(x0, y0),
            _ => false,
        },
        Declaration::Variable(x0) => match b {
            Declaration::Variable(y0) => same_var_decl(x0, y0),
            _ => false,
        },
        Declaration::Constant(x0) => match b {
            Declaration::Constant(y0) => same_const_decl(x0, y0),
            _ => false,
        },
        Declaration::Module(x0) => match b {
            Declaration::Module(y0) => same_module_decl(x0, y0),
            _ => false,
        },
        Declaration::Macro(x0) => match b {
            Declaration::Macro(y0) => same_macro_decl(x0, y0),
            _ => false,
        },
    }
}

/// Compares two function declarations.
pub fn same_function_decl(a: &FunctionDecl, b: &FunctionDecl) -> (r: bool)
    ensures
        r == function_decl_eq(*a, *b),
    decreases a,
{
    a.name.name == b.name.name
        && same_parameters(&a.params, &b.params)
        && (match &a.return_type {
            Some(x) => match &b.return_type {
                Some(y) => same_type(x, y),
                None => false,
            },
            None => b.return_type.is_none(),
        })
        && same_block(&a.body, &b.body)
        && same_attributes(&a.attributes, &b.attributes)
        && a.span == b.span
}

/// Compares two parameters.
pub fn same_parameter(a: &Parameter, b: &Parameter) -> (r: bool)
    ensures
        r == parameter_eq(*a, *b),
    decreases a,
{
    a.name.name == b.name.name
        && same_type(&a.ty, &b.ty)
        && a.span == b.span
}

/// Compares two blocks.
pub fn same_block(a: &Block, b: &Block) -> (r: bool)
    ensures
        r == block_eq(*a, *b),
    decreases a,
{
    same_statements(&a.statements, &b.statements)
        && a.span == b.span
}

/// Compares two attributes.
pub fn same_attribute(a: &Attribute, b: &Attribute) -> (r: bool)
    ensures
        r == attribute_eq(*a, *b),
    decreases a,
{
    a.name.name == b.name.name
        && same_attribute_args(&a.args, &b.args)
        && a.span == b.span
}

/// Compares two attribute arguments.
pub fn same_attribute_arg(a: &AttributeArg, b: &AttributeArg) -> (r: bool)
    ensures
        r == attribute_arg_eq(*a, *b),
    decreases a,
{
    match a {
        AttributeArg::Literal(x0) => match b {
            AttributeArg::Literal(y0) => same_literal(x0, y0),
            _ => false,
        },
        AttributeArg::Identifier(x0) => match b {
            AttributeArg::Identifier(y0) => x0.name == y0.name,
            _ => false,
        },
    }
}

/// Compares two struct declarations.
pub fn same_struct_decl(a: &StructDecl, b: &StructDecl) -> (r: bool)
    ensures
        r == struct_decl_eq(*a, *b),
    decreases a,
{
    a.name.name == b.name.name
        && same_struct_fields(&a.fields, &b.fields)
        && same_attributes(&a.attributes, &b.attributes)
        && a.span == b.span
}

/// Compares two struct fields.
pub fn same_struct_field(a: &StructField, b: &StructField) -> (r: bool)
    ensures
        r == struct_field_eq(*a, *b),
    decreases a,
{
    a.name.name == b.name.name
        && same_type(&a.ty, &b.ty)
        && same_attributes(&a.attributes, &b.attributes)
        && a.span == b.span
}

/// Compares two enum declarations.
pub fn same_enum_decl(a: &EnumDecl, b: &EnumDecl) -> (r: bool)
    ensures
        r == enum_decl_eq(*a, *b),
    decreases a,
{
    a.name.name == b.name.name
        && same_enum_variants(&a.variants, &b.variants)
        && same_attributes(&a.attributes, &b.attributes)
        && a.span == b.span
}

/// Compares two enum variants.
pub fn same_enum_variant(a: &EnumVariant, b: &EnumVariant) -> (r: bool)
    ensures
        r == enum_variant_eq(*a, *b),
    decreases a,
{
    a.name.name == b.name.name
        && (match &a.data {
            Some(x) => match &b.data {
                Some(y) => same_type(x, y),
                None => false,
            },
            None => b.data.is_none(),
        })
        && a.span == b.span
}

/// Compares two union declarations.
pub fn same_union_decl(a: &UnionDecl, b: &UnionDecl) -> (r: bool)
    ensures
        r == union_decl_eq(*a, *b),
    decreases a,
{
    a.name.name == b.name.name
        && same_union_fields(&a.fields, &b.fields)
        && same_attributes(&a.attributes, &b.attributes)
        && a.span == b.span
}

/// Compares two union fields.
pub fn same_union_field(a: &UnionField, b: &UnionField) -> (r: bool)
    ensures
        r == union_field_eq(*a, *b),
    decreases a,
{
    a.name.name == b.name.name
        && same_type(&a.ty, &b.ty)
        && a.span == b.span
}

/// Compares two variable declarations.
pub fn same_var_decl(a: &VarDecl, b: &VarDecl) -> (r: bool)
    ensures
        r == var_decl_eq(*a, *b),
    decreases a,
{
    a.name.name == b.name.name
        && (match &a.ty {
            Some(x) => match &b.ty {
                Some(y) => same_type(x, y),
                None => false,
            },
            None => b.ty.is_none(),
        })
        && a.mutable == b.mutable
        && (match &a.initializer {
            Some(x) => match &b.initializer {
                Some(y) => same_expression(x, y),
                None => false,
            },
            None => b.initializer.is_none(),
        })
        && a.span == b.span
}

/// Compares two constant declarations.
pub fn same_const_decl(a: &ConstDecl, b: &ConstDecl) -> (r: bool)
    ensures
        r == const_decl_eq(*a, *b),
    decreases a,
{
    a.name.name == b.name.name
        && same_type(&a.ty, &b.ty)
        && same_expression(&a.value, &b.value)
        && a.span == b.span
}

/// Compares two module declarations.
pub fn same_module_decl(a: &ModuleDecl, b: &ModuleDecl) -> (r: bool)
    ensures
        r == module_decl_eq(*a, *b),
    decreases a,
{
    a.name.name == b.name.name
        && same_declarations(&a.items, &b.items)
        && a.span == b.span
}

/// Compares two macro declarations.
pub fn same_macro_decl(a: &MacroDecl, b: &MacroDecl) -> (r: bool)
    ensures
        r == macro_decl_eq(*a, *b),
    decreases a,
{
    a.name.name == b.name.name
        && same_macro_params(&a.params, &b.params)
        && same_macro_body(&a.body, &b.body)
        && a.span == b.span
}

/// Compares two macro parameters.
pub fn same_macro_param(a: &MacroParam, b: &MacroParam) -> (r: bool)
    ensures
        r == macro_param_eq(*a, *b),
    decreases a,
{
    a.name.name == b.name.name
        && same_type(&a.ty, &b.ty)
        && a.span == b.span
}

/// Compares two macro bodies.
pub fn same_macro_body(a: &MacroBody, b: &MacroBody) -> (r: bool)
    ensures
        r == macro_body_eq(*a, *b),
    decreases a,
{
    same_tokens(&a.tokens, &b.tokens)
        && a.span == b.span
}

/// Compares two expressions.
pub fn same_expression(a: &Expression, b: &Expression) -> (r: bool)
    ensures
        r == expression_eq(*a, *b),
    decreases a,
{
    match a {
        Expression::Literal(x0) => match b {
            Expression::Literal(y0) => same_literal(x0, y0),
            _ => false,
        },
        Expression::Identifier(x0) => match b {
            Expression::Identifier(y0) => x0.name == y0.name,
            _ => false,
        },
        Expression::Binary(x0) => match b {
            Expression::Binary(y0) => same_binary_expr(x0, y0),
            _ => false,
        },
        Expression::Unary(x0) => match b {
            Expression::Unary(y0) => same_unary_expr(x0, y0),
            _ => false,
        },
        Expression::Call(x0) => match b {
            Expression::Call(y0) => same_call_expr(x0, y0),
            _ => false,
        },
        Expression::Member(x0) => match b {
            Expression::Member(y0) => same_member_expr(x0, y0),
            _ => false,
        },
        Expression::Index(x0) => match b {
            Expression::Index(y0) => same_index_expr(x0, y0),
            _ => false,
        },
        Expression::Cast(x0) => match b {
            Expression::Cast(y0) => same_cast_expr(x0, y0),
            _ => false,
        },
        Expression::Block(x0) => match b {
            Expression::Block(y0) => same_block_expr(x0, y0),
            _ => false,
        },
        Expression::If(x0) => match b {
            Expression::If(y0) => same_if_expr(x0, y0),
            _ => false,
        },
        Expression::Match(x0) => match b {
            Expression::Match(y0) => same_match_expr(x0, y0),
            _ => false,
        },
        Expression::Loop(x0) => match b {
            Expression::Loop(y0) => same_loop_expr(x0, y0),
            _ => false,
        },
        Expression::While(x0) => match b {
            Expression::While(y0) => same_while_expr(x0, y0),
            _ => false,
        },
        Expression::For(x0) => match b {
            Expression::For(y0) => same_for_expr(x0, y0),
            _ => false,
        },
        Expression::Range(x0) => match b {
            Expression::Range(y0) => same_range_expr(x0, y0),
            _ => false,
        },
        Expression::MacroInvocation(x0) => match b {
            Expression::MacroInvocation(y0) => same_macro_invocation(x0, y0),
            _ => false,
        },
    }
}

/// Compares two literals.
pub fn same_literal(a: &Literal, b: &Literal) -> (r: bool)
    ensures
        r == literal_eq(*a, *b),
    decreases a,
{
    match a {
        Literal::Integer(x0, x1) => match b {
            Literal::Integer(y0, y1) => *x0 == *y0 && (match x1 {
            Some(x) => match y1 {
                Some(y) => same_type(x, y),
                None => false,
            },
            None => y1.is_none(),
        }),
            _ => false,
        },
        Literal::Float(x0, x1) => match b {
            Literal::Float(y0, y1) => *x0 == *y0 && (match x1 {
            Some(x) => match y1 {
                Some(y) => same_type(x, y),
                None => false,
            },
            None => y1.is_none(),
        }),
            _ => false,
        },
        Literal::String(x0) => match b {
            Literal::String(y0) => *x0 == *y0,
            _ => false,
        },
        Literal::Character(x0) => match b {
            Literal::Character(y0) => *x0 == *y0,
            _ => false,
        },
        Literal::Boolean(x0) => match b {
            Literal::Boolean(y0) => *x0 == *y0,
            _ => false,
        },
        Literal::Array(x0) => match b {
            Literal::Array(y0) => same_expressions(x0, y0),
            _ => false,
        },
    }
}

/// Compares two binary expressions.
pub fn same_binary_expr(a: &BinaryExpr, b: &BinaryExpr) -> (r: bool)
    ensures
        r == binary_expr_eq(*a, *b),
    decreases a,
{
    same_expression(&a.left, &b.left)
        && a.operator == b.operator
        && same_expression(&a.right, &b.right)
        && a.span == b.span
}

/// Compares two unary expressions.
pub fn same_unary_expr(a: &UnaryExpr, b: &UnaryExpr) -> (r: bool)
    ensures
        r == unary_expr_eq(*a, *b),
    decreases a,
{
    a.operator == b.operator
        && same_expression(&a.operand, &b.operand)
        && a.span == b.span
}

/// Compares two call expressions.
pub fn same_call_expr(a: &CallExpr, b: &CallExpr) -> (r: bool)
    ensures
        r == call_expr_eq(*a, *b),
    decreases a,
{
    same_expression(&a.callee, &b.callee)
        && same_expressions(&a.arguments, &b.arguments)
        && a.span == b.span
}

/// Compares two member expressions.
pub fn same_member_expr(a: &MemberExpr, b: &MemberExpr) -> (r: bool)
    ensures
        r == member_expr_eq(*a, *b),
    decreases a,
{
    same_expression(&a.object, &b.object)
        && a.member.name == b.member.name
        && a.span == b.span
}

/// Compares two index expressions.
pub fn same_index_expr(a: &IndexExpr, b: &IndexExpr) -> (r: bool)
    ensures
        r == index_expr_eq(*a, *b),
    decreases a,
{
    same_expression(&a.array, &b.array)
        && same_expression(&a.index, &b.index)
        && a.span == b.span
}

/// Compares two cast expressions.
pub fn same_cast_expr(a: &CastExpr, b: &CastExpr) -> (r: bool)
    ensures
        r == cast_expr_eq(*a, *b),
    decreases a,
{
    same_expression(&a.expr, &b.expr)
        && same_type(&a.target_type, &b.target_type)
        && a.span == b.span
}

/// Compares two block expressions.
pub fn same_block_expr(a: &BlockExpr, b: &BlockExpr) -> (r: bool)
    ensures
        r == block_expr_eq(*a, *b),
    decreases a,
{
    same_expressions(&a.statements, &b.statements)
        && a.span == b.span
}

/// Compares two if expressions.
pub fn same_if_expr(a: &IfExpr, b: &IfExpr) -> (r: bool)
    ensures
        r == if_expr_eq(*a, *b),
    decreases a,
{
    same_expression(&a.condition, &b.condition)
        && same_expression(&a.then_branch, &b.then_branch)
        && (match &a.else_branch {
            Some(x) => match &b.else_branch {
                Some(y) => same_expression(x, y),
                None => false,
            },
            None => b.else_branch.is_none(),
        })
        && a.span == b.span
}

/// Compares two match expressions.
pub fn same_match_expr(a: &MatchExpr, b: &MatchExpr) -> (r: bool)
    ensures
        r == match_expr_eq(*a, *b),
    decreases a,
{
    same_expression(&a.value, &b.value)
        && same_expression_arms(&a.arms, &b.arms)
        && a.span == b.span
}

/// Compares two arms of a match expression.
pub fn same_expression_arm(a: &expressions::MatchArm, b: &expressions::MatchArm) -> (r: bool)
    ensures
        r == expression_arm_eq(*a, *b),
    decreases a,
{
    same_pattern(&a.pattern, &b.pattern)
        && (match &a.guard {
            Some(x) => match &b.guard {
                Some(y) => same_expression(x, y),
                None => false,
            },
            None => b.guard.is_none(),
        })
        && same_expression(&a.body, &b.body)
        && a.span == b.span
}

/// Compares two patterns.
pub fn same_pattern(a: &Pattern, b: &Pattern) -> (r: bool)
    ensures
        r == pattern_eq(*a, *b),
    decreases a,
{
    match a {
        Pattern::Literal(x0) => match b {
            Pattern::Literal(y0) => same_literal(x0, y0),
            _ => false,
        },
        Pattern::Identifier(x0) => match b {
            Pattern::Identifier(y0) => x0.name == y0.name,
            _ => false,
        },
        Pattern::Tuple(x0) => match b {
            Pattern::Tuple(y0) => same_patterns(x0, y0),
            _ => false,
        },
        Pattern::Struct(x0, x1) => match b {
            Pattern::Struct(y0, y1) => x0.name == y0.name && same_field_patterns(x1, y1),
            _ => false,
        },
        Pattern::Or(x0) => match b {
            Pattern::Or(y0) => same_patterns(x0, y0),
            _ => false,
        },
        Pattern::Range(x0, x1) => match b {
            Pattern::Range(y0, y1) => same_pattern(x0, y0) && same_pattern(x1, y1),
            _ => false,
        },
        Pattern::Wildcard => match b {
            Pattern::Wildcard => true,
            _ => false,
        },
    }
}

/// Compares two loop expressions.
pub fn same_loop_expr(a: &LoopExpr, b: &LoopExpr) -> (r: bool)
    ensures
        r == loop_expr_eq(*a, *b),
    decreases a,
{
    same_expression(&a.body, &b.body)
        && (match &a.label {
            Some(x) => match &b.label {
                Some(y) => x.name == y.name,
                None => false,
            },
            None => b.label.is_none(),
        })
        && a.span == b.span
}

/// Compares two while expressions.
pub fn same_while_expr(a: &WhileExpr, b: &WhileExpr) -> (r: bool)
    ensures
        r == while_expr_eq(*a, *b),
    decreases a,
{
    same_expression(&a.condition, &b.condition)
        && same_expression(&a.body, &b.body)
        && (match &a.label {
            Some(x) => match &b.label {
                Some(y) => x.name == y.name,
                None => false,
            },
            None => b.label.is_none(),
        })
        && a.span == b.span
}

/// Compares two for expressions.
pub fn same_for_expr(a: &ForExpr, b: &ForExpr) -> (r: bool)
    ensures
        r == for_expr_eq(*a, *b),
    decreases a,
{
    same_pattern(&a.pattern, &b.pattern)
        && same_expression(&a.iterator, &b.iterator)
        && same_expression(&a.body, &b.body)
        && (match &a.label {
            Some(x) => match &b.label {
                Some(y) => x.name == y.name,
                None => false,
            },
            None => b.label.is_none(),
        })
        && a.span == b.span
}

/// Compares two range expressions.
pub fn same_range_expr(a: &RangeExpr, b: &RangeExpr) -> (r: bool)
    ensures
        r == range_expr_eq(*a, *b),
    decreases a,
{
    (match &a.start {
        Some(x) => match &b.start {
            Some(y) => same_expression(x, y),
            None => false,
        },
        None => b.start.is_none(),
    })
        && (match &a.end {
            Some(x) => match &b.end {
                Some(y) => same_expression(x, y),
                None => false,
            },
            None => b.end.is_none(),
        })
        && a.inclusive == b.inclusive
        && a.span == b.span
}

/// Compares two macro invocations.
pub fn same_macro_invocation(a: &MacroInvocation, b: &MacroInvocation) -> (r: bool)
    ensures
        r == macro_invocation_eq(*a, *b),
    decreases a,
{
    a.name.name == b.name.name
        && same_expressions(&a.arguments, &b.arguments)
        && a.span == b.span
}

/// Compares two statements.
pub fn same_statement(a: &Statement, b: &Statement) -> (r: bool)
    ensures
        r == statement_eq(*a, *b),
    decreases a,
{
    match a {
        Statement::Empty => match b {
            Statement::Empty => true,
            _ => false,
        },
        Statement::Expression(x0) => match b {
            Statement::Expression(y0) => same_expression(x0, y0),
            _ => false,
        },
        Statement::Let(x0) => match b {
            Statement::Let(y0) => same_let_statement(x0, y0),
            _ => false,
        },
        Statement::Return(x0) => match b {
            Statement::Return(y0) => same_return_statement(x0, y0),
            _ => false,
        },
        Statement::Break(x0) => match b {
            Statement::Break(y0) => same_break_statement(x0, y0),
            _ => false,
        },
        Statement::Continue(x0) => match b {
            Statement::Continue(y0) => same_continue_statement(x0, y0),
            _ => false,
        },
        Statement::While(x0) => match b {
            Statement::While(y0) => same_while_statement(x0, y0),
            _ => false,
        },
        Statement::For(x0) => match b {
            Statement::For(y0) => same_for_statement(x0, y0),
            _ => false,
        },
        Statement::Loop(x0) => match b {
            Statement::Loop(y0) => same_loop_statement(x0, y0),
            _ => false,
        },
        Statement::Block(x0) => match b {
            Statement::Block(y0) => same_block(x0, y0),
            _ => false,
        },
        Statement::If(x0) => match b {
            Statement::If(y0) => same_if_statement(x0, y0),
            _ => false,
        },
        Statement::Match(x0) => match b {
            Statement::Match(y0) => same_match_statement(x0, y0),
            _ => false,
        },
        Statement::Panic(x0) => match b {
            Statement::Panic(y0) => same_panic_statement(x0, y0),
            _ => false,
        },
    }
}

/// Compares two let statements.
pub fn same_let_statement(a: &LetStatement, b: &LetStatement) -> (r: bool)
    ensures
        r == let_statement_eq(*a, *b),
    decreases a,
{
    same_pattern(&a.pattern, &b.pattern)
        && (match &a.type_annotation {
            Some(x) => match &b.type_annotation {
                Some(y) => same_type(x, y),
                None => false,
            },
            None => b.type_annotation.is_none(),
        })
        && (match &a.initializer {
            Some(x) => match &b.initializer {
                Some(y) => same_expression(x, y),
                None => false,
            },
            None => b.initializer.is_none(),
        })
        && a.mutable == b.mutable
        && a.span == b.span
}

/// Compares two return statements.
pub fn same_return_statement(a: &ReturnStatement, b: &ReturnStatement) -> (r: bool)
    ensures
        r == return_statement_eq(*a, *b),
    decreases a,
{
    (match &a.expression {
        Some(x) => match &b.expression {
            Some(y) => same_expression(x, y),
            None => false,
        },
        None => b.expression.is_none(),
    })
        && a.span == b.span
}

/// Compares two break statements.
pub fn same_break_statement(a: &BreakStatement, b: &BreakStatement) -> (r: bool)
    ensures
        r == break_statement_eq(*a, *b),
    decreases a,
{
    (match &a.label {
        Some(x) => match &b.label {
            Some(y) => x.name == y.name,
            None => false,
        },
        None => b.label.is_none(),
    })
        && (match &a.expression {
            Some(x) => match &b.expression {
                Some(y) => same_expression(x, y),
                None => false,
            },
            None => b.expression.is_none(),
        })
        && a.span == b.span
}

/// Compares two continue statements.
pub fn same_continue_statement(a: &ContinueStatement, b: &ContinueStatement) -> (r: bool)
    ensures
        r == continue_statement_eq(*a, *b),
    decreases a,
{
    (match &a.label {
        Some(x) => match &b.label {
            Some(y) => x.name == y.name,
            None => false,
        },
        None => b.label.is_none(),
    })
        && a.span == b.span
}

/// Compares two while statements.
pub fn same_while_statement(a: &WhileStatement, b: &WhileStatement) -> (r: bool)
    ensures
        r == while_statement_eq(*a, *b),
    decreases a,
{
    same_expression(&a.condition, &b.condition)
        && same_block(&a.body, &b.body)
        && (match &a.label {
            Some(x) => match &b.label {
                Some(y) => x.name == y.name,
                None => false,
            },
            None => b.label.is_none(),
        })
        && a.span == b.span
}

/// Compares two for statements.
pub fn same_for_statement(a: &ForStatement, b: &ForStatement) -> (r: bool)
    ensures
        r == for_statement_eq(*a, *b),
    decreases a,
{
    same_pattern(&a.pattern, &b.pattern)
        && same_expression(&a.iterator, &b.iterator)
        && same_block(&a.body, &b.body)
        && (match &a.label {
            Some(x) => match &b.label {
                Some(y) => x.name == y.name,
                None => false,
            },
            None => b.label.is_none(),
        })
        && a.span == b.span
}

/// Compares two loop statements.
pub fn same_loop_statement(a: &LoopStatement, b: &LoopStatement) -> (r: bool)
    ensures
        r == loop_statement_eq(*a, *b),
    decreases a,
{
    same_block(&a.body, &b.body)
        && (match &a.label {
            Some(x) => match &b.label {
                Some(y) => x.name == y.name,
                None => false,
            },
            None => b.label.is_none(),
        })
        && a.span == b.span
}

/// Compares two if statements.
pub fn same_if_statement(a: &IfStatement, b: &IfStatement) -> (r: bool)
    ensures
        r == if_statement_eq(*a, *b),
    decreases a,
{
    same_expression(&a.condition, &b.condition)
        && same_block(&a.then_branch, &b.then_branch)
        && (match &a.else_branch {
            Some(x) => match &b.else_branch {
                Some(y) => same_else_branch(x, y),
                None => false,
            },
            None => b.else_branch.is_none(),
        })
        && a.span == b.span
}

/// Compares two else branches.
pub fn same_else_branch(a: &ElseBranch, b: &ElseBranch) -> (r: bool)
    ensures
        r == else_branch_eq(*a, *b),
    decreases a,
{
    match a {
        ElseBranch::Block(x0) => match b {
            ElseBranch::Block(y0) => same_block(x0, y0),
            _ => false,
        },
        ElseBranch::If(x0) => match b {
            ElseBranch::If(y0) => same_if_statement(x0, y0),
            _ => false,
        },
    }
}

/// Compares two match statements.
pub fn same_match_statement(a: &MatchStatement, b: &MatchStatement) -> (r: bool)
    ensures
        r == match_statement_eq(*a, *b),
    decreases a,
{
    same_expression(&a.expression, &b.expression)
        && same_statement_arms(&a.arms, &b.arms)
        && a.span == b.span
}

/// Compares two arms of a match statement.
pub fn same_statement_arm(a: &statements::MatchArm, b: &statements::MatchArm) -> (r: bool)
    ensures
        r == statement_arm_eq(*a, *b),
    decreases a,
{
    same_pattern(&a.pattern, &b.pattern)
        && (match &a.guard {
            Some(x) => match &b.guard {
                Some(y) => same_expression(x, y),
                None => false,
            },
            None => b.guard.is_none(),
        })
        && same_block(&a.body, &b.body)
        && a.span == b.span
}

/// Compares two panic statements.
pub fn same_panic_statement(a: &PanicStatement, b: &PanicStatement) -> (r: bool)
    ensures
        r == panic_statement_eq(*a, *b),
    decreases a,
{
    same_expression(&a.message, &b.message)
        && a.span == b.span
}

/// Compares two types.
pub fn same_type(a: &Type, b: &Type) -> (r: bool)
    ensures
        r == type_eq(*a, *b),
    decreases a,
{
    match a {
        Type::I8 => match b {
            Type::I8 => true,
            _ => false,
        },
        Type::I16 => match b {
            Type::I16 => true,
            _ => false,
        },
        Type::I32 => match b {
            Type::I32 => true,
            _ => false,
        },
        Type::I64 => match b {
            Type::I64 => true,
            _ => false,
        },
        Type::I128 => match b {
            Type::I128 => true,
            _ => false,
        },
        Type::U8 => match b {
            Type::U8 => true,
            _ => false,
        },
        Type::U16 => match b {
            Type::U16 => true,
            _ => false,
        },
        Type::U32 => match b {
            Type::U32 => true,
            _ => false,
        },
        Type::U64 => match b {
            Type::U64 => true,
            _ => false,
        },
        Type::U128 => match b {
            Type::U128 => true,
            _ => false,
        },
        Type::F32 => match b {
            Type::F32 => true,
            _ => false,
        },
        Type::F64 => match b {
            Type::F64 => true,
            _ => false,
        },
        Type::Bool => match b {
            Type::Bool => true,
            _ => false,
        },
        Type::Char => match b {
            Type::Char => true,
            _ => false,
        },
        Type::Str => match b {
            Type::Str => true,
            _ => false,
        },
        Type::Unit => match b {
            Type::Unit => true,
            _ => false,
        },
        Type::Never => match b {
            Type::Never => true,
            _ => false,
        },
        Type::Array(x0, x1) => match b {
            Type::Array(y0, y1) => same_type(x0, y0) && (match x1 {
            Some(x) => match y1 {
                Some(y) => same_expression(x, y),
                None => false,
            },
            None => y1.is_none(),
        }),
            _ => false,
        },
        Type::Slice(x0) => match b {
            Type::Slice(y0) => same_type(x0, y0),
            _ => false,
        },
        Type::Pointer(x0, x1) => match b {
            Type::Pointer(y0, y1) => same_type(x0, y0) && *x1 == *y1,
            _ => false,
        },
        Type::Reference(x0, x1) => match b {
            Type::Reference(y0, y1) => same_type(x0, y0) && *x1 == *y1,
            _ => false,
        },
        Type::Tuple(x0) => match b {
            Type::Tuple(y0) => same_types(x0, y0),
            _ => false,
        },
        Type::Function(x0, x1) => match b {
            Type::Function(y0, y1) => same_types(x0, y0) && same_type(x1, y1),
            _ => false,
        },
        Type::Named(x0) => match b {
            Type::Named(y0) => same_type_path(x0, y0),
            _ => false,
        },
        Type::Generic(x0, x1) => match b {
            Type::Generic(y0, y1) => same_type(x0, y0) && same_types(x1, y1),
            _ => false,
        },
    }
}

/// Compares two type paths.
pub fn same_type_path(a: &TypePath, b: &TypePath) -> (r: bool)
    ensures
        r == type_path_eq(*a, *b),
    decreases a,
{
    same_type_path_segments(&a.segments, &b.segments)
        && a.span == b.span
}

/// Compares two type path segments.
pub fn same_type_path_segment(a: &TypePathSegment, b: &TypePathSegment) -> (r: bool)
    ensures
        r == type_path_segment_eq(*a, *b),
    decreases a,
{
    a.ident.name == b.ident.name
        && (match &a.generic_args {
            Some(x) => match &b.generic_args {
                Some(y) => same_types(x, y),
                None => false,
            },
            None => b.generic_args.is_none(),
        })
        && a.span == b.span
}

/// Compares two sequences item by item.
pub fn same_declarations(
    xs: &Vec<Declaration>,
    ys: &Vec<Declaration>,
) -> (r: bool)
    ensures
        r == (xs@.len() == ys@.len() && (forall|i: int|
            0 <= i < xs@.len() ==> declaration_eq(#[trigger] xs@[i], ys@[i]))),
    decreases xs,
{
    if xs.len() != ys.len() {
        return false;
    }
    let mut i: usize = 0;
    while i < xs.len()
        invariant
            xs@.len() == ys@.len(),
            i <= xs@.len(),
            forall|j: int|
                0 <= j < i ==> declaration_eq(#[trigger] xs@[j], ys@[j]),
        decreases xs@.len() - i,
    {
        if !(same_declaration(&xs[i], &ys[i])) {
            return false;
        }
        i += 1;
    }
    true
}

/// Compares two sequences item by item.
pub fn same_parameters(
    xs: &Vec<Parameter>,
    ys: &Vec<Parameter>,
) -> (r: bool)
    ensures
        r == (xs@.len() == ys@.len() && (forall|i: int|
            0 <= i < xs@.len() ==> parameter_eq(#[trigger] xs@[i], ys@[i]))),
    decreases xs,
{
    if xs.len() != ys.len() {
        return false;
    }
    let mut i: usize = 0;
    while i < xs.len()
        invariant
            xs@.len() == ys@.len(),
            i <= xs@.len(),
            forall|j: int|
                0 <= j < i ==> parameter_eq(#[trigger] xs@[j], ys@[j]),
        decreases xs@.len() - i,
    {
        if !(same_parameter(&xs[i], &ys[i])) {
            return false;
        }
        i += 1;
    }
    true
}

/// Compares two sequences item by item.
pub fn same_attributes(
    xs: &Vec<Attribute>,
    ys: &Vec<Attribute>,
) -> (r: bool)
    ensures
        r == (xs@.len() == ys@.len() && (forall|i: int|
            0 <= i < xs@.len() ==> attribute_eq(#[trigger] xs@[i], ys@[i]))),
    decreases xs,
{
    if xs.len() != ys.len() {
        return false;
    }
    let mut i: usize = 0;
    while i < xs.len()
        invariant
            xs@.len() == ys@.len(),
            i <= xs@.len(),
            forall|j: int|
                0 <= j < i ==> attribute_eq(#[trigger] xs@[j], ys@[j]),
        decreases xs@.len() - i,
    {
        if !(same_attribute(&xs[i], &ys[i])) {
            return false;
        }
        i += 1;
    }
    true
}

/// Compares two sequences item by item.
pub fn same_statements(
    xs: &Vec<Statement>,
    ys: &Vec<Statement>,
) -> (r: bool)
    ensures
        r == (xs@.len() == ys@.len() && (forall|i: int|
            0 <= i < xs@.len() ==> statement_eq(#[trigger] xs@[i], ys@[i]))),
    decreases xs,
{
    if xs.len() != ys.len() {
        return false;
    }
    let mut i: usize = 0;
    while i < xs.len()
        invariant
            xs@.len() == ys@.len(),
            i <= xs@.len(),
            forall|j: int|
                0 <= j < i ==> statement_eq(#[trigger] xs@[j], ys@[j]),
        decreases xs@.len() - i,
    {
        if !(same_statement(&xs[i], &ys[i])) {
            return false;
        }
        i += 1;
    }
    true
}

/// Compares two sequences item by item.
pub fn same_attribute_args(
    xs: &Vec<AttributeArg>,
    ys: &Vec<AttributeArg>,
) -> (r: bool)
    ensures
        r == (xs@.len() == ys@.len() && (forall|i: int|
            0 <= i < xs@.len() ==> attribute_arg_eq(#[trigger] xs@[i], ys@[i]))),
    decreases xs,
{
    if xs.len() != ys.len() {
        return false;
    }
    let mut i: usize = 0;
    while i < xs.len()
        invariant
            xs@.len() == ys@.len(),
            i <= xs@.len(),
            forall|j: int|
                0 <= j < i ==> attribute_arg_eq(#[trigger] xs@[j], ys@[j]),
        decreases xs@.len() - i,
    {
        if !(same_attribute_arg(&xs[i], &ys[i])) {
            return false;
        }
        i += 1;
    }
    true
}

/// Compares two sequences item by item.
pub fn same_struct_fields(
    xs: &Vec<StructField>,
    ys: &Vec<StructField>,
) -> (r: bool)
    ensures
        r == (xs@.len() == ys@.len() && (forall|i: int|
            0 <= i < xs@.len() ==> struct_field_eq(#[trigger] xs@[i], ys@[i]))),
    decreases xs,
{
    if xs.len() != ys.len() {
        return false;
    }
    let mut i: usize = 0;
    while i < xs.len()
        invariant
            xs@.len() == ys@.len(),
            i <= xs@.len(),
            forall|j: int|
                0 <= j < i ==> struct_field_eq(#[trigger] xs@[j], ys@[j]),
        decreases xs@.len() - i,
    {
        if !(same_struct_field(&xs[i], &ys[i])) {
            return false;
        }
        i += 1;
    }
    true
}

/// Compares two sequences item by item.
pub fn same_enum_variants(
    xs: &Vec<EnumVariant>,
    ys: &Vec<EnumVariant>,
) -> (r: bool)
    ensures
        r == (xs@.len() == ys@.len() && (forall|i: int|
            0 <= i < xs@.len() ==> enum_variant_eq(#[trigger] xs@[i], ys@[i]))),
    decreases xs,
{
    if xs.len() != ys.len() {
        return false;
    }
    let mut i: usize = 0;
    while i < xs.len()
        invariant
            xs@.len() == ys@.len(),
            i <= xs@.len(),
            forall|j: int|
                0 <= j < i ==> enum_variant_eq(#[trigger] xs@[j], ys@[j]),
        decreases xs@.len() - i,
    {
        if !(same_enum_variant(&xs[i], &ys[i])) {
            return false;
        }
        i += 1;
    }
    true
}

/// Compares two sequences item by item.
pub fn same_union_fields(
    xs: &Vec<UnionField>,
    ys: &Vec<UnionField>,
) -> (r: bool)
    ensures
        r == (xs@.len() == ys@.len() && (forall|i: int|
            0 <= i < xs@.len() ==> union_field_eq(#[trigger] xs@[i], ys@[i]))),
    decreases xs,
{
    if xs.len() != ys.len() {
        return false;
    }
    let mut i: usize = 0;
    while i < xs.len()
        invariant
            xs@.len() == ys@.len(),
            i <= xs@.len(),
            forall|j: int|
                0 <= j < i ==> union_field_eq(#[trigger] xs@[j], ys@[j]),
        decreases xs@.len() - i,
    {
        if !(same_union_field(&xs[i], &ys[i])) {
            return false;
        }
        i += 1;
    }
    true
}

/// Compares two sequences item by item.
pub fn same_macro_params(
    xs: &Vec<MacroParam>,
    ys: &Vec<MacroParam>,
) -> (r: bool)
    ensures
        r == (xs@.len() == ys@.len() && (forall|i: int|
            0 <= i < xs@.len() ==> macro_param_eq(#[trigger] xs@[i], ys@[i]))),
    decreases xs,
{
    if xs.len() != ys.len() {
        return false;
    }
    let mut i: usize = 0;
    while i < xs.len()
        invariant
            xs@.len() == ys@.len(),
            i <= xs@.len(),
            forall|j: int|
                0 <= j < i ==> macro_param_eq(#[trigger] xs@[j], ys@[j]),
        decreases xs@.len() - i,
    {
        if !(same_macro_param(&xs[i], &ys[i])) {
            return false;
        }
        i += 1;
    }
    true
}

/// Compares two sequences item by item.
pub fn same_expressions(
    xs: &Vec<Expression>,
    ys: &Vec<Expression>,
) -> (r: bool)
    ensures
        r == (xs@.len() == ys@.len() && (forall|i: int|
            0 <= i < xs@.len() ==> expression_eq(#[trigger] xs@[i], ys@[i]))),
    decreases xs,
{
    if xs.len() != ys.len() {
        return false;
    }
    let mut i: usize = 0;
    while i < xs.len()
        invariant
            xs@.len() == ys@.len(),
            i <= xs@.len(),
            forall|j: int|
                0 <= j < i ==> expression_eq(#[trigger] xs@[j], ys@[j]),
        decreases xs@.len() - i,
    {
        if !(same_expression(&xs[i], &ys[i])) {
            return false;
        }
        i += 1;
    }
    true
}

/// Compares two sequences item by item.
pub fn same_expression_arms(
    xs: &Vec<expressions::MatchArm>,
    ys: &Vec<expressions::MatchArm>,
) -> (r: bool)
    ensures
        r == (xs@.len() == ys@.len() && (forall|i: int|
            0 <= i < xs@.len() ==> expression_arm_eq(#[trigger] xs@[i], ys@[i]))),
    decreases xs,
{
    if xs.len() != ys.len() {
        return false;
    }
    let mut i: usize = 0;
    while i < xs.len()
        invariant
            xs@.len() == ys@.len(),
            i <= xs@.len(),
            forall|j: int|
                0 <= j < i ==> expression_arm_eq(#[trigger] xs@[j], ys@[j]),
        decreases xs@.len() - i,
    {
        if !(same_expression_arm(&xs[i], &ys[i])) {
            return false;
        }
        i += 1;
    }
    true
}

/// Compares two sequences item by item.
pub fn same_patterns(
    xs: &Vec<Pattern>,
    ys: &Vec<Pattern>,
) -> (r: bool)
    ensures
        r == (xs@.len() == ys@.len() && (forall|i: int|
            0 <= i < xs@.len() ==> pattern_eq(#[trigger] xs@[i], ys@[i]))),
    decreases xs,
{
    if xs.len() != ys.len() {
        return false;
    }
    let mut i: usize = 0;
    while i < xs.len()
        invariant
            xs@.len() == ys@.len(),
            i <= xs@.len(),
            forall|j: int|
                0 <= j < i ==> pattern_eq(#[trigger] xs@[j], ys@[j]),
        decreases xs@.len() - i,
    {
        if !(same_pattern(&xs[i], &ys[i])) {
            return false;
        }
        i += 1;
    }
    true
}

/// Compares two sequences item by item.
pub fn same_field_patterns(
    xs: &Vec<(Identifier, Pattern)>,
    ys: &Vec<(Identifier, Pattern)>,
) -> (r: bool)
    ensures
        r == (xs@.len() == ys@.len() && (forall|i: int|
            0 <= i < xs@.len() ==> ((#[trigger] xs@[i]).0.name@ == ys@[i].0.name@ && pattern_eq((#[trigger] xs@[i]).1, ys@[i].1)))),
    decreases xs,
{
    if xs.len() != ys.len() {
        return false;
    }
    let mut i: usize = 0;
    while i < xs.len()
        invariant
            xs@.len() == ys@.len(),
            i <= xs@.len(),
            forall|j: int|
                0 <= j < i ==> ((#[trigger] xs@[j]).0.name@ == ys@[j].0.name@ && pattern_eq((#[trigger] xs@[j]).1, ys@[j].1)),
        decreases xs@.len() - i,
    {
        if !(xs[i].0.name == ys[i].0.name && same_pattern(&xs[i].1, &ys[i].1)) {
            return false;
        }
        i += 1;
    }
    true
}

/// Compares two sequences item by item.
pub fn same_statement_arms(
    xs: &Vec<statements::MatchArm>,
    ys: &Vec<statements::MatchArm>,
) -> (r: bool)
    ensures
        r == (xs@.len() == ys@.len() && (forall|i: int|
            0 <= i < xs@.len() ==> statement_arm_eq(#[trigger] xs@[i], ys@[i]))),
    decreases xs,
{
    if xs.len() != ys.len() {
        return false;
    }
    let mut i: usize = 0;
    while i < xs.len()
        invariant
            xs@.len() == ys@.len(),
            i <= xs@.len(),
            forall|j: int|
                0 <= j < i ==> statement_arm_eq(#[trigger] xs@[j], ys@[j]),
        decreases xs@.len() - i,
    {
        if !(same_statement_arm(&xs[i], &ys[i])) {
            return false;
        }
        i += 1;
    }
    true
}

/// Compares two sequences item by item.
pub fn same_types(
    xs: &Vec<Type>,
    ys: &Vec<Type>,
) -> (r: bool)
    ensures
        r == (xs@.len() == ys@.len() && (forall|i: int|
            0 <= i < xs@.len() ==> type_eq(#[trigger] xs@[i], ys@[i]))),
    decreases xs,
{
    if xs.len() != ys.len() {
        return false;
    }
    let mut i: usize = 0;
    while i < xs.len()
        invariant
            xs@.len() == ys@.len(),
            i <= xs@.len(),
            forall|j: int|
                0 <= j < i ==> type_eq(#[trigger] xs@[j], ys@[j]),
        decreases xs@.len() - i,
    {
        if !(same_type(&xs[i], &ys[i])) {
            return false;
        }
        i += 1;
    }
    true
}

/// Compares two sequences item by item.
pub fn same_type_path_segments(
    xs: &Vec<TypePathSegment>,
    ys: &Vec<TypePathSegment>,
) -> (r: bool)
    ensures
        r == (xs@.len() == ys@.len() && (forall|i: int|
            0 <= i < xs@.len() ==> type_path_segment_eq(#[trigger] xs@[i], ys@[i]))),
    decreases xs,
{
    if xs.len() != ys.len() {
        return false;
    }
    let mut i: usize = 0;
    while i < xs.len()
        invariant
            xs@.len() == ys@.len(),
            i <= xs@.len(),
            forall|j: int|
                0 <= j < i ==> type_path_segment_eq(#[trigger] xs@[j], ys@[j]),
        decreases xs@.len() - i,
    {
        if !(same_type_path_segment(&xs[i], &ys[i])) {
            return false;
        }
        i += 1;
    }
    true
}

impl PartialEq for Program {
    fn eq(&self, other: &Self) -> (r: bool) {
        same_program(self, other)
    }
}

impl vstd::std_specs::cmp::PartialEqSpecImpl for Program {
    open spec fn obeys_eq_spec() -> bool {
        true
    }

    open spec fn eq_spec(&self, other: &Self) -> bool {
        program_eq(*self, *other)
    }
}

impl PartialEq for Declaration {
    fn eq(&self, other: &Self) -> (r: bool) {
        same_declaration(self, other)
    }
}

impl vstd::std_specs::cmp::PartialEqSpecImpl for Declaration {
    open spec fn obeys_eq_spec() -> bool {
        true
    }

    open spec fn eq_spec(&self, other: &Self) -> bool {
        declaration_eq(*self, *other)
    }
}

impl PartialEq for FunctionDecl {
    fn eq(&self, other: &Self) -> (r: bool) {
        same_function_decl(self, other)
    }
}

impl vstd::std_specs::cmp::PartialEqSpecImpl for FunctionDecl {
    open spec fn obeys_eq_spec() -> bool {
        true
    }

    open spec fn eq_spec(&self, other: &Self) -> bool {
        function_decl_eq(*self, *other)
    }
}

impl PartialEq for Parameter {
    fn eq(&self, other: &Self) -> (r: bool) {
        same_parameter(self, other)
    }
}

impl vstd::std_specs::cmp::PartialEqSpecImpl for Parameter {
    open spec fn obeys_eq_spec() -> bool {
        true
    }

    open spec fn eq_spec(&self, other: &Self) -> bool {
        parameter_eq(*self, *other)
    }
}

impl PartialEq for Block {
    fn eq(&self, other: &Self) -> (r: bool) {
        same_block(self, other)
    }
}

impl vstd::std_specs::cmp::PartialEqSpecImpl for Block {
    open spec fn obeys_eq_spec() -> bool {
        true
    }

    open spec fn eq_spec(&self, other: &Self) -> bool {
        block_eq(*self, *other)
    }
}

impl PartialEq for Attribute {
    fn eq(&self, other: &Self) -> (r: bool) {
        same_attribute(self, other)
    }
}

impl vstd::std_specs::cmp::PartialEqSpecImpl for Attribute {
    open spec fn obeys_eq_spec() -> bool {
        true
    }

    open spec fn eq_spec(&self, other: &Self) -> bool {
        attribute_eq(*self, *other)
    }
}

impl PartialEq for AttributeArg {
    fn eq(&self, other: &Self) -> (r: bool) {
        same_attribute_arg(self, other)
    }
}

impl vstd::std_specs::cmp::PartialEqSpecImpl for AttributeArg {
    open spec fn obeys_eq_spec() -> bool {
        true
    }

    open spec fn eq_spec(&self, other: &Self) -> bool {
        attribute_arg_eq(*self, *other)
    }
}

impl PartialEq for StructDecl {
    fn eq(&self, other: &Self) -> (r: bool) {
        same_struct_decl(self, other)
    }
}

impl vstd::std_specs::cmp::PartialEqSpecImpl for StructDecl {
    open spec fn obeys_eq_spec() -> bool {
        true
    }

    open spec fn eq_spec(&self, other: &Self) -> bool {
        struct_decl_eq(*self, *other)
    }
}

impl PartialEq for StructField {
    fn eq(&self, other: &Self) -> (r: bool) {
        same_struct_field(self, other)
    }
}

impl vstd::std_specs::cmp::PartialEqSpecImpl for StructField {
    open spec fn obeys_eq_spec() -> bool {
        true
    }

    open spec fn eq_spec(&self, other: &Self) -> bool {
        struct_field_eq(*self, *other)
    }
}

impl PartialEq for EnumDecl {
    fn eq(&self, other: &Self) -> (r: bool) {
        same_enum_decl(self, other)
    }
}

impl vstd::std_specs::cmp::PartialEqSpecImpl for EnumDecl {
    open spec fn obeys_eq_spec() -> bool {
        true
    }

    open spec fn eq_spec(&self, other: &Self) -> bool {
        enum_decl_eq(*self, *other)
    }
}

impl PartialEq for EnumVariant {
    fn eq(&self, other: &Self) -> (r: bool) {
        same_enum_variant(self, other)
    }
}

impl vstd::std_specs::cmp::PartialEqSpecImpl for EnumVariant {
    open spec fn obeys_eq_spec() -> bool {
        true
    }

    open spec fn eq_spec(&self, other: &Self) -> bool {
        enum_variant_eq(*self, *other)
    }
}

impl PartialEq for UnionDecl {
    fn eq(&self, other: &Self) -> (r: bool) {
        same_union_decl(self, other)
    }
}

impl vstd::std_specs::cmp::PartialEqSpecImpl for UnionDecl {
    open spec fn obeys_eq_spec() -> bool {
        true
    }

    open spec fn eq_spec(&self, other: &Self) -> bool {
        union_decl_eq(*self, *other)
    }
}

impl PartialEq for UnionField {
    fn eq(&self, other: &Self) -> (r: bool) {
        same_union_field(self, other)
    }
}

impl vstd::std_specs::cmp::PartialEqSpecImpl for UnionField {
    open spec fn obeys_eq_spec() -> bool {
        true
    }

    open spec fn eq_spec(&self, other: &Self) -> bool {
        union_field_eq(*self, *other)
    }
}

impl PartialEq for VarDecl {
    fn eq(&self, other: &Self) -> (r: bool) {
        same_var_decl(self, other)
    }
}

impl vstd::std_specs::cmp::PartialEqSpecImpl for VarDecl {
    open spec fn obeys_eq_spec() -> bool {
        true
    }

    open spec fn eq_spec(&self, other: &Self) -> bool {
        var_decl_eq(*self, *other)
    }
}

impl PartialEq for ConstDecl {
    fn eq(&self, other: &Self) -> (r: bool) {
        same_const_decl(self, other)
    }
}

impl vstd::std_specs::cmp::PartialEqSpecImpl for ConstDecl {
    open spec fn obeys_eq_spec() -> bool {
        true
    }

    open spec fn eq_spec(&self, other: &Self) -> bool {
        const_decl_eq(*self, *other)
    }
}

impl PartialEq for ModuleDecl {
    fn eq(&self, other: &Self) -> (r: bool) {
        same_module_decl(self, other)
    }
}

impl vstd::std_specs::cmp::PartialEqSpecImpl for ModuleDecl {
    open spec fn obeys_eq_spec() -> bool {
        true
    }

    open spec fn eq_spec(&self, other: &Self) -> bool {
        module_decl_eq(*self, *other)
    }
}

impl PartialEq for MacroDecl {
    fn eq(&self, other: &Self) -> (r: bool) {
        same_macro_decl(self, other)
    }
}

impl vstd::std_specs::cmp::PartialEqSpecImpl for MacroDecl {
    open spec fn obeys_eq_spec() -> bool {
        true
    }

    open spec fn eq_spec(&self, other: &Self) -> bool {
        macro_decl_eq(*self, *other)
    }
}

impl PartialEq for MacroParam {
    fn eq(&self, other: &Self) -> (r: bool) {
        same_macro_param(self, other)
    }
}

impl vstd::std_specs::cmp::PartialEqSpecImpl for MacroParam {
    open spec fn obeys_eq_spec() -> bool {
        true
    }

    open spec fn eq_spec(&self, other: &Self) -> bool {
        macro_param_eq(*self, *other)
    }
}

impl PartialEq for MacroBody {
    fn eq(&self, other: &Self) -> (r: bool) {
        same_macro_body(self, other)
    }
}

impl vstd::std_specs::cmp::PartialEqSpecImpl for MacroBody {
    open spec fn obeys_eq_spec() -> bool {
        true
    }

    open spec fn eq_spec(&self, other: &Self) -> bool {
        macro_body_eq(*self, *other)
    }
}

impl PartialEq for Expression {
    fn eq(&self, other: &Self) -> (r: bool) {
        same_expression(self, other)
    }
}

impl vstd::std_specs::cmp::PartialEqSpecImpl for Expression {
    open spec fn obeys_eq_spec() -> bool {
        true
    }

    open spec fn eq_spec(&self, other: &Self) -> bool {
        expression_eq(*self, *other)
    }
}

impl PartialEq for Literal {
    fn eq(&self, other: &Self) -> (r: bool) {
        same_literal(self, other)
    }
}

impl vstd::std_specs::cmp::PartialEqSpecImpl for Literal {
    open spec fn obeys_eq_spec() -> bool {
        true
    }

    open spec fn eq_spec(&self, other: &Self) -> bool {
        literal_eq(*self, *other)
    }
}

impl PartialEq for BinaryExpr {
    fn eq(&self, other: &Self) -> (r: bool) {
        same_binary_expr(self, other)
    }
}

impl vstd::std_specs::cmp::PartialEqSpecImpl for BinaryExpr {
    open spec fn obeys_eq_spec() -> bool {
        true
    }

    open spec fn eq_spec(&self, other: &Self) -> bool {
        binary_expr_eq(*self, *other)
    }
}

impl PartialEq for UnaryExpr {
    fn eq(&self, other: &Self) -> (r: bool) {
        same_unary_expr(self, other)
    }
}

impl vstd::std_specs::cmp::PartialEqSpecImpl for UnaryExpr {
    open spec fn obeys_eq_spec() -> bool {
        true
    }

    open spec fn eq_spec(&self, other: &Self) -> bool {
        unary_expr_eq(*self, *other)
    }
}

impl PartialEq for CallExpr {
    fn eq(&self, other: &Self) -> (r: bool) {
        same_call_expr(self, other)
    }
}

impl vstd::std_specs::cmp::PartialEqSpecImpl for CallExpr {
    open spec fn obeys_eq_spec() -> bool {
        true
    }

    open spec fn eq_spec(&self, other: &Self) -> bool {
        call_expr_eq(*self, *other)
    }
}

impl PartialEq for MemberExpr {
    fn eq(&self, other: &Self) -> (r: bool) {
        same_member_expr(self, other)
    }
}

impl vstd::std_specs::cmp::PartialEqSpecImpl for MemberExpr {
    open spec fn obeys_eq_spec() -> bool {
        true
    }

    open spec fn eq_spec(&self, other: &Self) -> bool {
        member_expr_eq(*self, *other)
    }
}

impl PartialEq for IndexExpr {
    fn eq(&self, other: &Self) -> (r: bool) {
        same_index_expr(self, other)
    }
}

impl vstd::std_specs::cmp::PartialEqSpecImpl for IndexExpr {
    open spec fn obeys_eq_spec() -> bool {
        true
    }

    open spec fn eq_spec(&self, other: &Self) -> bool {
        index_expr_eq(*self, *other)
    }
}

impl PartialEq for CastExpr {
    fn eq(&self, other: &Self) -> (r: bool) {
        same_cast_expr(self, other)
    }
}

impl vstd::std_specs::cmp::PartialEqSpecImpl for CastExpr {
    open spec fn obeys_eq_spec() -> bool {
        true
    }

    open spec fn eq_spec(&self, other: &Self) -> bool {
        cast_expr_eq(*self, *other)
    }
}

impl PartialEq for BlockExpr {
    fn eq(&self, other: &Self) -> (r: bool) {
        same_block_expr(self, other)
    }
}

impl vstd::std_specs::cmp::PartialEqSpecImpl for BlockExpr {
    open spec fn obeys_eq_spec() -> bool {
        true
    }

    open spec fn eq_spec(&self, other: &Self) -> bool {
        block_expr_eq(*self, *other)
    }
}

impl PartialEq for IfExpr {
    fn eq(&self, other: &Self) -> (r: bool) {
        same_if_expr(self, other)
    }
}

impl vstd::std_specs::cmp::PartialEqSpecImpl for IfExpr {
    open spec fn obeys_eq_spec() -> bool {
        true
    }

    open spec fn eq_spec(&self, other: &Self) -> bool {
        if_expr_eq(*self, *other)
    }
}

impl PartialEq for MatchExpr {
    fn eq(&self, other: &Self) -> (r: bool) {
        same_match_expr(self, other)
    }
}

impl vstd::std_specs::cmp::PartialEqSpecImpl for MatchExpr {
    open spec fn obeys_eq_spec() -> bool {
        true
    }

    open spec fn eq_spec(&self, other: &Self) -> bool {
        match_expr_eq(*self, *other)
    }
}

impl PartialEq for expressions::MatchArm {
    fn eq(&self, other: &Self) -> (r: bool) {
        same_expression_arm(self, other)
    }
}

impl vstd::std_specs::cmp::PartialEqSpecImpl for expressions::MatchArm {
    open spec fn obeys_eq_spec() -> bool {
        true
    }

    open spec fn eq_spec(&self, other: &Self) -> bool {
        expression_arm_eq(*self, *other)
    }
}

impl PartialEq for Pattern {
    fn eq(&self, other: &Self) -> (r: bool) {
        same_pattern(self, other)
    }
}

impl vstd::std_specs::cmp::PartialEqSpecImpl for Pattern {
    open spec fn obeys_eq_spec() -> bool {
        true
    }

    open spec fn eq_spec(&self, other: &Self) -> bool {
        pattern_eq(*self, *other)
    }
}

impl PartialEq for LoopExpr {
    fn eq(&self, other: &Self) -> (r: bool) {
        same_loop_expr(self, other)
    }
}

impl vstd::std_specs::cmp::PartialEqSpecImpl for LoopExpr {
    open spec fn obeys_eq_spec() -> bool {
        true
    }

    open spec fn eq_spec(&self, other: &Self) -> bool {
        loop_expr_eq(*self, *other)
    }
}

impl PartialEq for WhileExpr {
    fn eq(&self, other: &Self) -> (r: bool) {
        same_while_expr(self, other)
    }
}

impl vstd::std_specs::cmp::PartialEqSpecImpl for WhileExpr {
    open spec fn obeys_eq_spec() -> bool {
        true
    }

    open spec fn eq_spec(&self, other: &Self) -> bool {
        while_expr_eq(*self, *other)
    }
}

impl PartialEq for ForExpr {
    fn eq(&self, other: &Self) -> (r: bool) {
        same_for_expr(self, other)
    }
}

impl vstd::std_specs::cmp::PartialEqSpecImpl for ForExpr {
    open spec fn obeys_eq_spec() -> bool {
        true
    }

    open spec fn eq_spec(&self, other: &Self) -> bool {
        for_expr_eq(*self, *other)
    }
}

impl PartialEq for RangeExpr {
    fn eq(&self, other: &Self) -> (r: bool) {
        same_range_expr(self, other)
    }
}

impl vstd::std_specs::cmp::PartialEqSpecImpl for RangeExpr {
    open spec fn obeys_eq_spec() -> bool {
        true
    }

    open spec fn eq_spec(&self, other: &Self) -> bool {
        range_expr_eq(*self, *other)
    }
}

impl PartialEq for MacroInvocation {
    fn eq(&self, other: &Self) -> (r: bool) {
        same_macro_invocation(self, other)
    }
}

impl vstd::std_specs::cmp::PartialEqSpecImpl for MacroInvocation {
    open spec fn obeys_eq_spec() -> bool {
        true
    }

    open spec fn eq_spec(&self, other: &Self) -> bool {
        macro_invocation_eq(*self, *other)
    }
}

impl PartialEq for Statement {
    fn eq(&self, other: &Self) -> (r: bool) {
        same_statement(self, other)
    }
}

impl vstd::std_specs::cmp::PartialEqSpecImpl for Statement {
    open spec fn obeys_eq_spec() -> bool {
        true
    }

    open spec fn eq_spec(&self, other: &Self) -> bool {
        statement_eq(*self, *other)
    }
}

impl PartialEq for LetStatement {
    fn eq(&self, other: &Self) -> (r: bool) {
        same_let_statement(self, other)
    }
}

impl vstd::std_specs::cmp::PartialEqSpecImpl for LetStatement {
    open spec fn obeys_eq_spec() -> bool {
        true
    }

    open spec fn eq_spec(&self, other: &Self) -> bool {
        let_statement_eq(*self, *other)
    }
}

impl PartialEq for ReturnStatement {
    fn eq(&self, other: &Self) -> (r: bool) {
        same_return_statement(self, other)
    }
}

impl vstd::std_specs::cmp::PartialEqSpecImpl for ReturnStatement {
    open spec fn obeys_eq_spec() -> bool {
        true
    }

    open spec fn eq_spec(&self, other: &Self) -> bool {
        return_statement_eq(*self, *other)
    }
}

impl PartialEq for BreakStatement {
    fn eq(&self, other: &Self) -> (r: bool) {
        same_break_statement(self, other)
    }
}

impl vstd::std_specs::cmp::PartialEqSpecImpl for BreakStatement {
    open spec fn obeys_eq_spec() -> bool {
        true
    }

    open spec fn eq_spec(&self, other: &Self) -> bool {
        break_statement_eq(*self, *other)
    }
}

impl PartialEq for ContinueStatement {
    fn eq(&self, other: &Self) -> (r: bool) {
        same_continue_statement(self, other)
    }
}

impl vstd::std_specs::cmp::PartialEqSpecImpl for ContinueStatement {
    open spec fn obeys_eq_spec() -> bool {
        true
    }

    open spec fn eq_spec(&self, other: &Self) -> bool {
        continue_statement_eq(*self, *other)
    }
}

impl PartialEq for WhileStatement {
    fn eq(&self, other: &Self) -> (r: bool) {
        same_while_statement(self, other)
    }
}

impl vstd::std_specs::cmp::PartialEqSpecImpl for WhileStatement {
    open spec fn obeys_eq_spec() -> bool {
        true
    }

    open spec fn eq_spec(&self, other: &Self) -> bool {
        while_statement_eq(*self, *other)
    }
}

impl PartialEq for ForStatement {
    fn eq(&self, other: &Self) -> (r: bool) {
        same_for_statement(self, other)
    }
}

impl vstd::std_specs::cmp::PartialEqSpecImpl for ForStatement {
    open spec fn obeys_eq_spec() -> bool {
        true
    }

    open spec fn eq_spec(&self, other: &Self) -> bool {
        for_statement_eq(*self, *other)
    }
}

impl PartialEq for LoopStatement {
    fn eq(&self, other: &Self) -> (r: bool) {
        same_loop_statement(self, other)
    }
}

impl vstd::std_specs::cmp::PartialEqSpecImpl for LoopStatement {
    open spec fn obeys_eq_spec() -> bool {
        true
    }

    open spec fn eq_spec(&self, other: &Self) -> bool {
        loop_statement_eq(*self, *other)
    }
}

impl PartialEq for IfStatement {
    fn eq(&self, other: &Self) -> (r: bool) {
        same_if_statement(self, other)
    }
}

impl vstd::std_specs::cmp::PartialEqSpecImpl for IfStatement {
    open spec fn obeys_eq_spec() -> bool {
        true
    }

    open spec fn eq_spec(&self, other: &Self) -> bool {
        if_statement_eq(*self, *other)
    }
}

impl PartialEq for ElseBranch {
    fn eq(&self, other: &Self) -> (r: bool) {
        same_else_branch(self, other)
    }
}

impl vstd::std_specs::cmp::PartialEqSpecImpl for ElseBranch {
    open spec fn obeys_eq_spec() -> bool {
        true
    }

    open spec fn eq_spec(&self, other: &Self) -> bool {
        else_branch_eq(*self, *other)
    }
}

impl PartialEq for MatchStatement {
    fn eq(&self, other: &Self) -> (r: bool) {
        same_match_statement(self, other)
    }
}

impl vstd::std_specs::cmp::PartialEqSpecImpl for MatchStatement {
    open spec fn obeys_eq_spec() -> bool {
        true
    }

    open spec fn eq_spec(&self, other: &Self) -> bool {
        match_statement_eq(*self, *other)
    }
}

impl PartialEq for statements::MatchArm {
    fn eq(&self, other: &Self) -> (r: bool) {
        same_statement_arm(self, other)
    }
}

impl vstd::std_specs::cmp::PartialEqSpecImpl for statements::MatchArm {
    open spec fn obeys_eq_spec() -> bool {
        true
    }

    open spec fn eq_spec(&self, other: &Self) -> bool {
        statement_arm_eq(*self, *other)
    }
}

impl PartialEq for PanicStatement {
    fn eq(&self, other: &Self) -> (r: bool) {
        same_panic_statement(self, other)
    }
}

impl vstd::std_specs::cmp::PartialEqSpecImpl for PanicStatement {
    open spec fn obeys_eq_spec() -> bool {
        true
    }

    open spec fn eq_spec(&self, other: &Self) -> bool {
        panic_statement_eq(*self, *other)
    }
}

impl PartialEq for Type {
    fn eq(&self, other: &Self) -> (r: bool) {
        same_type(self, other)
    }
}

impl vstd::std_specs::cmp::PartialEqSpecImpl for Type {
    open spec fn obeys_eq_spec() -> bool {
        true
    }

    open spec fn eq_spec(&self, other: &Self) -> bool {
        type_eq(*self, *other)
    }
}

impl PartialEq for TypePath {
    fn eq(&self, other: &Self) -> (r: bool) {
        same_type_path(self, other)
    }
}

impl vstd::std_specs::cmp::PartialEqSpecImpl for TypePath {
    open spec fn obeys_eq_spec() -> bool {
        true
    }

    open spec fn eq_spec(&self, other: &Self) -> bool {
        type_path_eq(*self, *other)
    }
}

impl PartialEq for TypePathSegment {
    fn eq(&self, other: &Self) -> (r: bool) {
        same_type_path_segment(self, other)
    }
}

impl vstd::std_specs::cmp::PartialEqSpecImpl for TypePathSegment {
    open spec fn obeys_eq_spec() -> bool {
        true
    }

    open spec fn eq_spec(&self, other: &Self) -> bool {
        type_path_segment_eq(*self, *other)
    }
}

/// A program equals every one built from the same parts.
pub proof fn lemma_program_eq_reflexive(a: Program)
    ensures
        program_eq(a, a),
    decreases a,
{
    assert forall|i: int| 0 <= i < a.items@.len() implies declaration_eq(#[trigger] a.items@[i], a.items@[i]) by {
        lemma_declaration_eq_reflexive(a.items@[i]);
    }
}

/// A declaration equals every one built from the same parts.
pub proof fn lemma_declaration_eq_reflexive(a: Declaration)
    ensures
        declaration_eq(a, a),
    decreases a,
{
    match a {
        Declaration::Function(x0) => {
            lemma_function_decl_eq_reflexive(x0);
        },
        Declaration::Struct(x0) => {
            lemma_struct_decl_eq_reflexive(x0);
        },
        Declaration::Enum(x0) => {
            lemma_enum_decl_eq_reflexive(x0);
        },
        Declaration::Union(x0) => {
            lemma_union_decl_eq_reflexive(x0);
        },
        Declaration::Variable(x0) => {
            lemma_var_decl_eq_reflexive(x0);
        },
        Declaration::Constant(x0) => {
            lemma_const_decl_eq_reflexive(x0);
        },
        Declaration::Module(x0) => {
            lemma_module_decl_eq_reflexive(x0);
        },
        Declaration::Macro(x0) => {
            lemma_macro_decl_eq_reflexive(x0);
        },
    }
}

/// A function declaration equals every one built from the same parts.
pub proof fn lemma_function_decl_eq_reflexive(a: FunctionDecl)
    ensures
        function_decl_eq(a, a),
    decreases a,
{
    assert forall|i: int| 0 <= i < a.params@.len() implies parameter_eq(#[trigger] a.params@[i], a.params@[i]) by {
        lemma_parameter_eq_reflexive(a.params@[i]);
    }
    match a.return_type {
        Some(x) => {
            lemma_type_eq_reflexive(*x);
        },
        None => {},
    }
    lemma_block_eq_reflexive(a.body);
    assert forall|i: int| 0 <= i < a.attributes@.len() implies attribute_eq(#[trigger] a.attributes@[i], a.attributes@[i]) by {
        lemma_attribute_eq_reflexive(a.attributes@[i]);
    }
}

/// A parameter equals every one built from the same parts.
pub proof fn lemma_parameter_eq_reflexive(a: Parameter)
    ensures
        parameter_eq(a, a),
    decreases a,
{
    lemma_type_eq_reflexive(a.ty);
}

/// A block equals every one built from the same parts.
pub proof fn lemma_block_eq_reflexive(a: Block)
    ensures
        block_eq(a, a),
    decreases a,
{
    assert forall|i: int| 0 <= i < a.statements@.len() implies statement_eq(#[trigger] a.statements@[i], a.statements@[i]) by {
        lemma_statement_eq_reflexive(a.statements@[i]);
    }
}

/// An attribute equals every one built from the same parts.
pub proof fn lemma_attribute_eq_reflexive(a: Attribute)
    ensures
        attribute_eq(a, a),
    decreases a,
{
    assert forall|i: int| 0 <= i < a.args@.len() implies attribute_arg_eq(#[trigger] a.args@[i], a.args@[i]) by {
        lemma_attribute_arg_eq_reflexive(a.args@[i]);
    }
}

/// An attribute argument equals every one built from the same parts.
pub proof fn lemma_attribute_arg_eq_reflexive(a: AttributeArg)
    ensures
        attribute_arg_eq(a, a),
    decreases a,
{
    match a {
        AttributeArg::Literal(x0) => {
            lemma_literal_eq_reflexive(x0);
        },
        AttributeArg::Identifier(x0) => {
        },
    }
}

/// A struct declaration equals every one built from the same parts.
pub proof fn lemma_struct_decl_eq_reflexive(a: StructDecl)
    ensures
        struct_decl_eq(a, a),
    decreases a,
{
    assert forall|i: int| 0 <= i < a.fields@.len() implies struct_field_eq(#[trigger] a.fields@[i], a.fields@[i]) by {
        lemma_struct_field_eq_reflexive(a.fields@[i]);
    }
    assert forall|i: int| 0 <= i < a.attributes@.len() implies attribute_eq(#[trigger] a.attributes@[i], a.attributes@[i]) by {
        lemma_attribute_eq_reflexive(a.attributes@[i]);
    }
}

/// A struct field equals every one built from the same parts.
pub proof fn lemma_struct_field_eq_reflexive(a: StructField)
    ensures
        struct_field_eq(a, a),
    decreases a,
{
    lemma_type_eq_reflexive(a.ty);
    assert forall|i: int| 0 <= i < a.attributes@.len() implies attribute_eq(#[trigger] a.attributes@[i], a.attributes@[i]) by {
        lemma_attribute_eq_reflexive(a.attributes@[i]);
    }
}

/// An enum declaration equals every one built from the same parts.
pub proof fn lemma_enum_decl_eq_reflexive(a: EnumDecl)
    ensures
        enum_decl_eq(a, a),
    decreases a,
{
    assert forall|i: int| 0 <= i < a.variants@.len() implies enum_variant_eq(#[trigger] a.variants@[i], a.variants@[i]) by {
        lemma_enum_variant_eq_reflexive(a.variants@[i]);
    }
    assert forall|i: int| 0 <= i < a.attributes@.len() implies attribute_eq(#[trigger] a.attributes@[i], a.attributes@[i]) by {
        lemma_attribute_eq_reflexive(a.attributes@[i]);
    }
}

/// An enum variant equals every one built from the same parts.
pub proof fn lemma_enum_variant_eq_reflexive(a: EnumVariant)
    ensures
        enum_variant_eq(a, a),
    decreases a,
{
    match a.data {
        Some(x) => {
            lemma_type_eq_reflexive(x);
        },
        None => {},
    }
}

/// An union declaration equals every one built from the same parts.
pub proof fn lemma_union_decl_eq_reflexive(a: UnionDecl)
    ensures
        union_decl_eq(a, a),
    decreases a,
{
    assert forall|i: int| 0 <= i < a.fields@.len() implies union_field_eq(#[trigger] a.fields@[i], a.fields@[i]) by {
        lemma_union_field_eq_reflexive(a.fields@[i]);
    }
    assert forall|i: int| 0 <= i < a.attributes@.len() implies attribute_eq(#[trigger] a.attributes@[i], a.attributes@[i]) by {
        lemma_attribute_eq_reflexive(a.attributes@[i]);
    }
}

/// An union field equals every one built from the same parts.
pub proof fn lemma_union_field_eq_reflexive(a: UnionField)
    ensures
        union_field_eq(a, a),
    decreases a,
{
    lemma_type_eq_reflexive(a.ty);
}

/// A variable declaration equals every one built from the same parts.
pub proof fn lemma_var_decl_eq_reflexive(a: VarDecl)
    ensures
        var_decl_eq(a, a),
    decreases a,
{
    match a.ty {
        Some(x) => {
            lemma_type_eq_reflexive(x);
        },
        None => {},
    }
    match a.initializer {
        Some(x) => {
            lemma_expression_eq_reflexive(x);
        },
        None => {},
    }
}

/// A constant declaration equals every one built from the same parts.
pub proof fn lemma_const_decl_eq_reflexive(a: ConstDecl)
    ensures
        const_decl_eq(a, a),
    decreases a,
{
    lemma_type_eq_reflexive(a.ty);
    lemma_expression_eq_reflexive(a.value);
}

/// A module declaration equals every one built from the same parts.
pub proof fn lemma_module_decl_eq_reflexive(a: ModuleDecl)
    ensures
        module_decl_eq(a, a),
    decreases a,
{
    assert forall|i: int| 0 <= i < a.items@.len() implies declaration_eq(#[trigger] a.items@[i], a.items@[i]) by {
        lemma_declaration_eq_reflexive(a.items@[i]);
    }
}

/// A macro declaration equals every one built from the same parts.
pub proof fn lemma_macro_decl_eq_reflexive(a: MacroDecl)
    ensures
        macro_decl_eq(a, a),
    decreases a,
{
    assert forall|i: int| 0 <= i < a.params@.len() implies macro_param_eq(#[trigger] a.params@[i], a.params@[i]) by {
        lemma_macro_param_eq_reflexive(a.params@[i]);
    }
    lemma_macro_body_eq_reflexive(a.body);
}

/// A macro parameter equals every one built from the same parts.
pub proof fn lemma_macro_param_eq_reflexive(a: MacroParam)
    ensures
        macro_param_eq(a, a),
    decreases a,
{
    lemma_type_eq_reflexive(a.ty);
}

/// A macro body equals every one built from the same parts.
pub proof fn lemma_macro_body_eq_reflexive(a: MacroBody)
    ensures
        macro_body_eq(a, a),
    decreases a,
{
    assert forall|i: int| 0 <= i < a.tokens@.len() implies token_eq(#[trigger] a.tokens@[i], a.tokens@[i]) by {
        lemma_token_eq_reflexive(a.tokens@[i]);
    }
}

/// An expression equals every one built from the same parts.
pub proof fn lemma_expression_eq_reflexive(a: Expression)
    ensures
        expression_eq(a, a),
    decreases a,
{
    match a {
        Expression::Literal(x0) => {
            lemma_literal_eq_reflexive(x0);
        },
        Expression::Identifier(x0) => {
        },
        Expression::Binary(x0) => {
            lemma_binary_expr_eq_reflexive(*x0);
        },
        Expression::Unary(x0) => {
            lemma_unary_expr_eq_reflexive(*x0);
        },
        Expression::Call(x0) => {
            lemma_call_expr_eq_reflexive(*x0);
        },
        Expression::Member(x0) => {
            lemma_member_expr_eq_reflexive(*x0);
        },
        Expression::Index(x0) => {
            lemma_index_expr_eq_reflexive(*x0);
        },
        Expression::Cast(x0) => {
            lemma_cast_expr_eq_reflexive(*x0);
        },
        Expression::Block(x0) => {
            lemma_block_expr_eq_reflexive(*x0);
        },
        Expression::If(x0) => {
            lemma_if_expr_eq_reflexive(*x0);
        },
        Expression::Match(x0) => {
            lemma_match_expr_eq_reflexive(*x0);
        },
        Expression::Loop(x0) => {
            lemma_loop_expr_eq_reflexive(*x0);
        },
        Expression::While(x0) => {
            lemma_while_expr_eq_reflexive(*x0);
        },
        Expression::For(x0) => {
            lemma_for_expr_eq_reflexive(*x0);
        },
        Expression::Range(x0) => {
            lemma_range_expr_eq_reflexive(*x0);
        },
        Expression::MacroInvocation(x0) => {
            lemma_macro_invocation_eq_reflexive(*x0);
        },
    }
}

/// A literal equals every one built from the same parts.
pub proof fn lemma_literal_eq_reflexive(a: Literal)
    ensures
        literal_eq(a, a),
    decreases a,
{
    match a {
        Literal::Integer(x0, x1) => {
            match x1 {
                Some(x) => {
                    lemma_type_eq_reflexive(x);
                },
                None => {},
            }
        },
        Literal::Float(x0, x1) => {
            match x1 {
                Some(x) => {
                    lemma_type_eq_reflexive(x);
                },
                None => {},
            }
        },
        Literal::String(x0) => {
        },
        Literal::Character(x0) => {
        },
        Literal::Boolean(x0) => {
        },
        Literal::Array(x0) => {
            assert forall|i: int| 0 <= i < x0@.len() implies expression_eq(#[trigger] x0@[i], x0@[i]) by {
                lemma_expression_eq_reflexive(x0@[i]);
            }
        },
    }
}

/// A binary expression equals every one built from the same parts.
pub proof fn lemma_binary_expr_eq_reflexive(a: BinaryExpr)
    ensures
        binary_expr_eq(a, a),
    decreases a,
{
    lemma_expression_eq_reflexive(a.left);
    lemma_expression_eq_reflexive(a.right);
}

/// An unary expression equals every one built from the same parts.
pub proof fn lemma_unary_expr_eq_reflexive(a: UnaryExpr)
    ensures
        unary_expr_eq(a, a),
    decreases a,
{
    lemma_expression_eq_reflexive(a.operand);
}

/// A call expression equals every one built from the same parts.
pub proof fn lemma_call_expr_eq_reflexive(a: CallExpr)
    ensures
        call_expr_eq(a, a),
    decreases a,
{
    lemma_expression_eq_reflexive(a.callee);
    assert forall|i: int| 0 <= i < a.arguments@.len() implies expression_eq(#[trigger] a.arguments@[i], a.arguments@[i]) by {
        lemma_expression_eq_reflexive(a.arguments@[i]);
    }
}

/// A member expression equals every one built from the same parts.
pub proof fn lemma_member_expr_eq_reflexive(a: MemberExpr)
    ensures
        member_expr_eq(a, a),
    decreases a,
{
    lemma_expression_eq_reflexive(a.object);
}

/// An index expression equals every one built from the same parts.
pub proof fn lemma_index_expr_eq_reflexive(a: IndexExpr)
    ensures
        index_expr_eq(a, a),
    decreases a,
{
    lemma_expression_eq_reflexive(a.array);
    lemma_expression_eq_reflexive(a.index);
}

/// A cast expression equals every one built from the same parts.
pub proof fn lemma_cast_expr_eq_reflexive(a: CastExpr)
    ensures
        cast_expr_eq(a, a),
    decreases a,
{
    lemma_expression_eq_reflexive(a.expr);
    lemma_type_eq_reflexive(a.target_type);
}

/// A block expression equals every one built from the same parts.
pub proof fn lemma_block_expr_eq_reflexive(a: BlockExpr)
    ensures
        block_expr_eq(a, a),
    decreases a,
{
    assert forall|i: int| 0 <= i < a.statements@.len() implies expression_eq(#[trigger] a.statements@[i], a.statements@[i]) by {
        lemma_expression_eq_reflexive(a.statements@[i]);
    }
}

/// An if expression equals every one built from the same parts.
pub proof fn lemma_if_expr_eq_reflexive(a: IfExpr)
    ensures
        if_expr_eq(a, a),
    decreases a,
{
    lemma_expression_eq_reflexive(a.condition);
    lemma_expression_eq_reflexive(a.then_branch);
    match a.else_branch {
        Some(x) => {
            lemma_expression_eq_reflexive(x);
        },
        None => {},
    }
}

/// A match expression equals every one built from the same parts.
pub proof fn lemma_match_expr_eq_reflexive(a: MatchExpr)
    ensures
        match_expr_eq(a, a),
    decreases a,
{
    lemma_expression_eq_reflexive(a.value);
    assert forall|i: int| 0 <= i < a.arms@.len() implies expression_arm_eq(#[trigger] a.arms@[i], a.arms@[i]) by {
        lemma_expression_arm_eq_reflexive(a.arms@[i]);
    }
}

/// An arm of a match expression equals every one built from the same parts.
pub proof fn lemma_expression_arm_eq_reflexive(a: expressions::MatchArm)
    ensures
        expression_arm_eq(a, a),
    decreases a,
{
    lemma_pattern_eq_reflexive(a.pattern);
    match a.guard {
        Some(x) => {
            lemma_expression_eq_reflexive(x);
        },
        None => {},
    }
    lemma_expression_eq_reflexive(a.body);
}

/// A pattern equals every one built from the same parts.
pub proof fn lemma_pattern_eq_reflexive(a: Pattern)
    ensures
        pattern_eq(a, a),
    decreases a,
{
    match a {
        Pattern::Literal(x0) => {
            lemma_literal_eq_reflexive(x0);
        },
        Pattern::Identifier(x0) => {
        },
        Pattern::Tuple(x0) => {
            assert forall|i: int| 0 <= i < x0@.len() implies pattern_eq(#[trigger] x0@[i], x0@[i]) by {
                lemma_pattern_eq_reflexive(x0@[i]);
            }
        },
        Pattern::Struct(x0, x1) => {
            assert forall|i: int| 0 <= i < x1@.len() implies ((#[trigger] x1@[i]).0.name@ == x1@[i].0.name@ && pattern_eq((#[trigger] x1@[i]).1, x1@[i].1)) by {
                lemma_pattern_eq_reflexive(x1@[i].1);
            }
        },
        Pattern::Or(x0) => {
            assert forall|i: int| 0 <= i < x0@.len() implies pattern_eq(#[trigger] x0@[i], x0@[i]) by {
                lemma_pattern_eq_reflexive(x0@[i]);
            }
        },
        Pattern::Range(x0, x1) => {
            lemma_pattern_eq_reflexive(*x0);
            lemma_pattern_eq_reflexive(*x1);
        },
        Pattern::Wildcard => {},
    }
}

/// A loop expression equals every one built from the same parts.
pub proof fn lemma_loop_expr_eq_reflexive(a: LoopExpr)
    ensures
        loop_expr_eq(a, a),
    decreases a,
{
    lemma_expression_eq_reflexive(a.body);
}

/// A while expression equals every one built from the same parts.
pub proof fn lemma_while_expr_eq_reflexive(a: WhileExpr)
    ensures
        while_expr_eq(a, a),
    decreases a,
{
    lemma_expression_eq_reflexive(a.condition);
    lemma_expression_eq_reflexive(a.body);
}

/// A for expression equals every one built from the same parts.
pub proof fn lemma_for_expr_eq_reflexive(a: ForExpr)
    ensures
        for_expr_eq(a, a),
    decreases a,
{
    lemma_pattern_eq_reflexive(a.pattern);
    lemma_expression_eq_reflexive(a.iterator);
    lemma_expression_eq_reflexive(a.body);
}

/// A range expression equals every one built from the same parts.
pub proof fn lemma_range_expr_eq_reflexive(a: RangeExpr)
    ensures
        range_expr_eq(a, a),
    decreases a,
{
    match a.start {
        Some(x) => {
            lemma_expression_eq_reflexive(x);
        },
        None => {},
    }
    match a.end {
        Some(x) => {
            lemma_expression_eq_reflexive(x);
        },
        None => {},
    }
}

/// A macro invocation equals every one built from the same parts.
pub proof fn lemma_macro_invocation_eq_reflexive(a: MacroInvocation)
    ensures
        macro_invocation_eq(a, a),
    decreases a,
{
    assert forall|i: int| 0 <= i < a.arguments@.len() implies expression_eq(#[trigger] a.arguments@[i], a.arguments@[i]) by {
        lemma_expression_eq_reflexive(a.arguments@[i]);
    }
}

/// A statement equals every one built from the same parts.
pub proof fn lemma_statement_eq_reflexive(a: Statement)
    ensures
        statement_eq(a, a),
    decreases a,
{
    match a {
        Statement::Empty => {},
        Statement::Expression(x0) => {
            lemma_expression_eq_reflexive(x0);
        },
        Statement::Let(x0) => {
            lemma_let_statement_eq_reflexive(x0);
        },
        Statement::Return(x0) => {
            lemma_return_statement_eq_reflexive(x0);
        },
        Statement::Break(x0) => {
            lemma_break_statement_eq_reflexive(x0);
        },
        Statement::Continue(x0) => {
            lemma_continue_statement_eq_reflexive(x0);
        },
        Statement::While(x0) => {
            lemma_while_statement_eq_reflexive(x0);
        },
        Statement::For(x0) => {
            lemma_for_statement_eq_reflexive(x0);
        },
        Statement::Loop(x0) => {
            lemma_loop_statement_eq_reflexive(x0);
        },
        Statement::Block(x0) => {
            lemma_block_eq_reflexive(x0);
        },
        Statement::If(x0) => {
            lemma_if_statement_eq_reflexive(x0);
        },
        Statement::Match(x0) => {
            lemma_match_statement_eq_reflexive(x0);
        },
        Statement::Panic(x0) => {
            lemma_panic_statement_eq_reflexive(x0);
        },
    }
}

/// A let statement equals every one built from the same parts.
pub proof fn lemma_let_statement_eq_reflexive(a: LetStatement)
    ensures
        let_statement_eq(a, a),
    decreases a,
{
    lemma_pattern_eq_reflexive(a.pattern);
    match a.type_annotation {
        Some(x) => {
            lemma_type_eq_reflexive(x);
        },
        None => {},
    }
    match a.initializer {
        Some(x) => {
            lemma_expression_eq_reflexive(x);
        },
        None => {},
    }
}

/// A return statement equals every one built from the same parts.
pub proof fn lemma_return_statement_eq_reflexive(a: ReturnStatement)
    ensures
        return_statement_eq(a, a),
    decreases a,
{
    match a.expression {
        Some(x) => {
            lemma_expression_eq_reflexive(x);
        },
        None => {},
    }
}

/// A break statement equals every one built from the same parts.
pub proof fn lemma_break_statement_eq_reflexive(a: BreakStatement)
    ensures
        break_statement_eq(a, a),
    decreases a,
{
    match a.expression {
        Some(x) => {
            lemma_expression_eq_reflexive(x);
        },
        None => {},
    }
}

/// A continue statement equals every one built from the same parts.
pub proof fn lemma_continue_statement_eq_reflexive(a: ContinueStatement)
    ensures
        continue_statement_eq(a, a),
    decreases a,
{

}

/// A while statement equals every one built from the same parts.
pub proof fn lemma_while_statement_eq_reflexive(a: WhileStatement)
    ensures
        while_statement_eq(a, a),
    decreases a,
{
    lemma_expression_eq_reflexive(a.condition);
    lemma_block_eq_reflexive(a.body);
}

/// A for statement equals every one built from the same parts.
pub proof fn lemma_for_statement_eq_reflexive(a: ForStatement)
    ensures
        for_statement_eq(a, a),
    decreases a,
{
    lemma_pattern_eq_reflexive(a.pattern);
    lemma_expression_eq_reflexive(a.iterator);
    lemma_block_eq_reflexive(a.body);
}

/// A loop statement equals every one built from the same parts.
pub proof fn lemma_loop_statement_eq_reflexive(a: LoopStatement)
    ensures
        loop_statement_eq(a, a),
    decreases a,
{
    lemma_block_eq_reflexive(a.body);
}

/// An if statement equals every one built from the same parts.
pub proof fn lemma_if_statement_eq_reflexive(a: IfStatement)
    ensures
        if_statement_eq(a, a),
    decreases a,
{
    lemma_expression_eq_reflexive(a.condition);
    lemma_block_eq_reflexive(a.then_branch);
    match a.else_branch {
        Some(x) => {
            lemma_else_branch_eq_reflexive(x);
        },
        None => {},
    }
}

/// An else branch equals every one built from the same parts.
pub proof fn lemma_else_branch_eq_reflexive(a: ElseBranch)
    ensures
        else_branch_eq(a, a),
    decreases a,
{
    match a {
        ElseBranch::Block(x0) => {
            lemma_block_eq_reflexive(x0);
        },
        ElseBranch::If(x0) => {
            lemma_if_statement_eq_reflexive(*x0);
        },
    }
}

/// A match statement equals every one built from the same parts.
pub proof fn lemma_match_statement_eq_reflexive(a: MatchStatement)
    ensures
        match_statement_eq(a, a),
    decreases a,
{
    lemma_expression_eq_reflexive(a.expression);
    assert forall|i: int| 0 <= i < a.arms@.len() implies statement_arm_eq(#[trigger] a.arms@[i], a.arms@[i]) by {
        lemma_statement_arm_eq_reflexive(a.arms@[i]);
    }
}

/// An arm of a match statement equals every one built from the same parts.
pub proof fn lemma_statement_arm_eq_reflexive(a: statements::MatchArm)
    ensures
        statement_arm_eq(a, a),
    decreases a,
{
    lemma_pattern_eq_reflexive(a.pattern);
    match a.guard {
        Some(x) => {
            lemma_expression_eq_reflexive(x);
        },
        None => {},
    }
    lemma_block_eq_reflexive(a.body);
}

/// A panic statement equals every one built from the same parts.
pub proof fn lemma_panic_statement_eq_reflexive(a: PanicStatement)
    ensures
        panic_statement_eq(a, a),
    decreases a,
{
    lemma_expression_eq_reflexive(a.message);
}

/// A type equals every one built from the same parts.
pub proof fn lemma_type_eq_reflexive(a: Type)
    ensures
        type_eq(a, a),
    decreases a,
{
    match a {
        Type::I8 => {},
        Type::I16 => {},
        Type::I32 => {},
        Type::I64 => {},
        Type::I128 => {},
        Type::U8 => {},
        Type::U16 => {},
        Type::U32 => {},
        Type::U64 => {},
        Type::U128 => {},
        Type::F32 => {},
        Type::F64 => {},
        Type::Bool => {},
        Type::Char => {},
        Type::Str => {},
        Type::Unit => {},
        Type::Never => {},
        Type::Array(x0, x1) => {
            lemma_type_eq_reflexive(*x0);
            match x1 {
                Some(x) => {
                    lemma_expression_eq_reflexive(*x);
                },
                None => {},
            }
        },
        Type::Slice(x0) => {
            lemma_type_eq_reflexive(*x0);
        },
        Type::Pointer(x0, x1) => {
            lemma_type_eq_reflexive(*x0);
        },
        Type::Reference(x0, x1) => {
            lemma_type_eq_reflexive(*x0);
        },
        Type::Tuple(x0) => {
            assert forall|i: int| 0 <= i < x0@.len() implies type_eq(#[trigger] x0@[i], x0@[i]) by {
                lemma_type_eq_reflexive(x0@[i]);
            }
        },
        Type::Function(x0, x1) => {
            assert forall|i: int| 0 <= i < x0@.len() implies type_eq(#[trigger] x0@[i], x0@[i]) by {
                lemma_type_eq_reflexive(x0@[i]);
            }
            lemma_type_eq_reflexive(*x1);
        },
        Type::Named(x0) => {
            lemma_type_path_eq_reflexive(x0);
        },
        Type::Generic(x0, x1) => {
            lemma_type_eq_reflexive(*x0);
            assert forall|i: int| 0 <= i < x1@.len() implies type_eq(#[trigger] x1@[i], x1@[i]) by {
                lemma_type_eq_reflexive(x1@[i]);
            }
        },
    }
}

/// A type path equals every one built from the same parts.
pub proof fn lemma_type_path_eq_reflexive(a: TypePath)
    ensures
        type_path_eq(a, a),
    decreases a,
{
    assert forall|i: int| 0 <= i < a.segments@.len() implies type_path_segment_eq(#[trigger] a.segments@[i], a.segments@[i]) by {
        lemma_type_path_segment_eq_reflexive(a.segments@[i]);
    }
}

/// A type path segment equals every one built from the same parts.
pub proof fn lemma_type_path_segment_eq_reflexive(a: TypePathSegment)
    ensures
        type_path_segment_eq(a, a),
    decreases a,
{
    match a.generic_args {
        Some(x) => {
            assert forall|i: int| 0 <= i < x@.len() implies type_eq(#[trigger] x@[i], x@[i]) by {
                lemma_type_eq_reflexive(x@[i]);
            }
        },
        None => {},
    }
}

/// Binary expressions with different operators are unequal, whatever
/// their operands are.
pub proof fn lemma_operator_distinguishes(a: BinaryExpr, b: BinaryExpr)
    requires
        a.operator != b.operator,
    ensures
        !binary_expr_eq(a, b),
        !expression_eq(Expression::Binary(Box::new(a)), Expression::Binary(Box::new(b))),
{
}

/// Nodes with different spans are unequal; identifiers with the same name
/// are equal wherever they were written.
pub proof fn lemma_span_policy(a: MemberExpr, b: MemberExpr)
    requires
        expression_eq(a.object, b.object),
        a.member.name@ == b.member.name@,
    ensures
        member_expr_eq(a, b) <==> a.span == b.span,
{
}

} // verus!
