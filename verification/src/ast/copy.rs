//! Copies of syntax trees.
//!
//! A tree has one owner, so a second tree is made by copying the first node
//! by node. The copy equals the tree it was made from.

use vstd::prelude::*;
use crate::ast::{
    Attribute, AttributeArg, Block, ConstDecl, Declaration, EnumDecl, EnumVariant,
    FunctionDecl, Identifier, MacroBody, MacroDecl, MacroParam, MacroToken, ModuleDecl,
    Parameter, Program, StructDecl, StructField, UnionDecl, UnionField, VarDecl,
    token_eq,
};
use crate::ast::expressions::{
    BinaryExpr, BlockExpr, CallExpr, CastExpr, Expression, ForExpr, IfExpr, IndexExpr, Literal,
    LoopExpr, MacroInvocation, MatchExpr, MemberExpr, Pattern, RangeExpr, UnaryExpr, WhileExpr,
};
use crate::ast::statements::{
    BreakStatement, ContinueStatement, ElseBranch, ForStatement, IfStatement, LetStatement,
    LoopStatement, MatchStatement, PanicStatement, ReturnStatement, Statement, WhileStatement,
};
use crate::ast::types::{
    Type, TypePath, TypePathSegment,
};
use crate::ast::equality::{
    attribute_arg_eq, attribute_eq, binary_expr_eq, block_eq, block_expr_eq,
    break_statement_eq, call_expr_eq, cast_expr_eq, const_decl_eq, continue_statement_eq,
    declaration_eq, else_branch_eq, enum_decl_eq, enum_variant_eq, expression_arm_eq,
    expression_eq, for_expr_eq, for_statement_eq, function_decl_eq, if_expr_eq,
    if_statement_eq, index_expr_eq, let_statement_eq, literal_eq, loop_expr_eq,
    loop_statement_eq, macro_body_eq, macro_decl_eq, macro_invocation_eq, macro_param_eq,
    match_expr_eq, match_statement_eq, member_expr_eq, module_decl_eq, panic_statement_eq,
    parameter_eq, pattern_eq, program_eq, range_expr_eq, return_statement_eq, statement_arm_eq,
    statement_eq, struct_decl_eq, struct_field_eq, type_eq, type_path_eq, type_path_segment_eq,
    unary_expr_eq, union_decl_eq, union_field_eq, var_decl_eq, while_expr_eq,
    while_statement_eq,
};
use crate::ast::{expressions, statements};

verus! {

/// A copy of a program, equal to it.
pub fn copy_program(a: &Program) -> (r: Program)
    ensures
        program_eq(*a, r),
    decreases a,
{
    Program {
        items: copy_declarations(&a.items),
        span: a.span,
    }
}

/// A copy of a declaration, equal to it.
pub fn copy_declaration(a: &Declaration) -> (r: Declaration)
    ensures
        declaration_eq(*a, r),
    decreases a,
{
    match a {
        Declaration::Function(x0) => Declaration::Function(copy_function_decl(x0)),
        Declaration::Struct(x0) => Declaration::Struct(copy_struct_decl(x0)),
        Declaration::Enum(x0) => Declaration::Enum(copy_enum_decl(x0)),
        Declaration::Union(x0) => Declaration::Union(copy_union_decl(x0)),
        Declaration::Variable(x0) => Declaration::Variable(copy_var_decl(x0)),
        Declaration::Constant(x0) => Declaration::Constant(copy_const_decl(x0)),
        Declaration::Module(x0) => Declaration::Module(copy_module_decl(x0)),
        Declaration::Macro(x0) => Declaration::Macro(copy_macro_decl(x0)),
    }
}

/// A copy of a function declaration, equal to it.
pub fn copy_function_decl(a: &FunctionDecl) -> (r: FunctionDecl)
    ensures
        function_decl_eq(*a, r),
    decreases a,
{
    FunctionDecl {
        name: Identifier { name: a.name.name.clone(), span: a.name.span },
        params: copy_parameters(&a.params),
        return_type: match &a.return_type {
            Some(x) => Some(Box::new(copy_type(x))),
            None => None,
        },
        body: copy_block(&a.body),
        attributes: copy_attributes(&a.attributes),
        span: a.span,
    }
}

/// A copy of a parameter, equal to it.
pub fn copy_parameter(a: &Parameter) -> (r: Parameter)
    ensures
        parameter_eq(*a, r),
    decreases a,
{
    Parameter {
        name: Identifier { name: a.name.name.clone(), span: a.name.span },
        ty: copy_type(&a.ty),
        span: a.span,
    }
}

/// A copy of a block, equal to it.
pub fn copy_block(a: &Block) -> (r: Block)
    ensures
        block_eq(*a, r),
    decreases a,
{
    Block {
        statements: copy_statements(&a.statements),
        span: a.span,
    }
}

/// A copy of an attribute, equal to it.
pub fn copy_attribute(a: &Attribute) -> (r: Attribute)
    ensures
        attribute_eq(*a, r),
    decreases a,
{
    Attribute {
        name: Identifier { name: a.name.name.clone(), span: a.name.span },
        args: copy_attribute_args(&a.args),
        span: a.span,
    }
}

/// A copy of an attribute argument, equal to it.
pub fn copy_attribute_arg(a: &AttributeArg) -> (r: AttributeArg)
    ensures
        attribute_arg_eq(*a, r),
    decreases a,
{
    match a {
        AttributeArg::Literal(x0) => AttributeArg::Literal(copy_literal(x0)),
        AttributeArg::Identifier(x0) => AttributeArg::Identifier(Identifier { name: x0.name.clone(), span: x0.span }),
    }
}

/// A copy of a struct declaration, equal to it.
pub fn copy_struct_decl(a: &StructDecl) -> (r: StructDecl)
    ensures
        struct_decl_eq(*a, r),
    decreases a,
{
    StructDecl {
        name: Identifier { name: a.name.name.clone(), span: a.name.span },
        fields: copy_struct_fields(&a.fields),
        attributes: copy_attributes(&a.attributes),
        span: a.span,
    }
}

/// A copy of a struct field, equal to it.
pub fn copy_struct_field(a: &StructField) -> (r: StructField)
    ensures
        struct_field_eq(*a, r),
    decreases a,
{
    StructField {
        name: Identifier { name: a.name.name.clone(), span: a.name.span },
        ty: copy_type(&a.ty),
        attributes: copy_attributes(&a.attributes),
        span: a.span,
    }
}

/// A copy of an enum declaration, equal to it.
pub fn copy_enum_decl(a: &EnumDecl) -> (r: EnumDecl)
    ensures
        enum_decl_eq(*a, r),
    decreases a,
{
    EnumDecl {
        name: Identifier { name: a.name.name.clone(), span: a.name.span },
        variants: copy_enum_variants(&a.variants),
        attributes: copy_attributes(&a.attributes),
        span: a.span,
    }
}

/// A copy of an enum variant, equal to it.
pub fn copy_enum_variant(a: &EnumVariant) -> (r: EnumVariant)
    ensures
        enum_variant_eq(*a, r),
    decreases a,
{
    EnumVariant {
        name: Identifier { name: a.name.name.clone(), span: a.name.span },
        data: match &a.data {
            Some(x) => Some(copy_type(x)),
            None => None,
        },
        span: a.span,
    }
}

/// A copy of an union declaration, equal to it.
pub fn copy_union_decl(a: &UnionDecl) -> (r: UnionDecl)
    ensures
        union_decl_eq(*a, r),
    decreases a,
{
    UnionDecl {
        name: Identifier { name: a.name.name.clone(), span: a.name.span },
        fields: copy_union_fields(&a.fields),
        attributes: copy_attributes(&a.attributes),
        span: a.span,
    }
}

/// A copy of an union field, equal to it.
pub fn copy_union_field(a: &UnionField) -> (r: UnionField)
    ensures
        union_field_eq(*a, r),
    decreases a,
{
    UnionField {
        name: Identifier { name: a.name.name.clone(), span: a.name.span },
        ty: copy_type(&a.ty),
        span: a.span,
    }
}

/// A copy of a variable declaration, equal to it.
pub fn copy_var_decl(a: &VarDecl) -> (r: VarDecl)
    ensures
        var_decl_eq(*a, r),
    decreases a,
{
    VarDecl {
        name: Identifier { name: a.name.name.clone(), span: a.name.span },
        ty: match &a.ty {
            Some(x) => Some(copy_type(x)),
            None => None,
        },
        mutable: a.mutable,
        initializer: match &a.initializer {
            Some(x) => Some(copy_expression(x)),
            None => None,
        },
        span: a.span,
    }
}

/// A copy of a constant declaration, equal to it.
pub fn copy_const_decl(a: &ConstDecl) -> (r: ConstDecl)
    ensures
        const_decl_eq(*a, r),
    decreases a,
{
    ConstDecl {
        name: Identifier { name: a.name.name.clone(), span: a.name.span },
        ty: copy_type(&a.ty),
        value: copy_expression(&a.value),
        span: a.span,
    }
}

/// A copy of a module declaration, equal to it.
pub fn copy_module_decl(a: &ModuleDecl) -> (r: ModuleDecl)
    ensures
        module_decl_eq(*a, r),
    decreases a,
{
    ModuleDecl {
        name: Identifier { name: a.name.name.clone(), span: a.name.span },
        items: copy_declarations(&a.items),
        span: a.span,
    }
}

/// A copy of a macro declaration, equal to it.
pub fn copy_macro_decl(a: &MacroDecl) -> (r: MacroDecl)
    ensures
        macro_decl_eq(*a, r),
    decreases a,
{
    MacroDecl {
        name: Identifier { name: a.name.name.clone(), span: a.name.span },
        params: copy_macro_params(&a.params),
        body: copy_macro_body(&a.body),
        span: a.span,
    }
}

/// A copy of a macro parameter, equal to it.
pub fn copy_macro_param(a: &MacroParam) -> (r: MacroParam)
    ensures
        macro_param_eq(*a, r),
    decreases a,
{
    MacroParam {
        name: Identifier { name: a.name.name.clone(), span: a.name.span },
        ty: copy_type(&a.ty),
        span: a.span,
    }
}

/// A copy of a macro body, equal to it.
pub fn copy_macro_body(a: &MacroBody) -> (r: MacroBody)
    ensures
        macro_body_eq(*a, r),
    decreases a,
{
    MacroBody {
        tokens: copy_tokens(&a.tokens),
        span: a.span,
    }
}

/// A copy of an expression, equal to it.
pub fn copy_expression(a: &Expression) -> (r: Expression)
    ensures
        expression_eq(*a, r),
    decreases a,
{
    match a {
        Expression::Literal(x0) => Expression::Literal(copy_literal(x0)),
        Expression::Identifier(x0) => Expression::Identifier(Identifier { name: x0.name.clone(), span: x0.span }),
        Expression::Binary(x0) => Expression::Binary(Box::new(copy_binary_expr(x0))),
        Expression::Unary(x0) => Expression::Unary(Box::new(copy_unary_expr(x0))),
        Expression::Call(x0) => Expression::Call(Box::new(copy_call_expr(x0))),
        Expression::Member(x0) => Expression::Member(Box::new(copy_member_expr(x0))),
        Expression::Index(x0) => Expression::Index(Box::new(copy_index_expr(x0))),
        Expression::Cast(x0) => Expression::Cast(Box::new(copy_cast_expr(x0))),
        Expression::Block(x0) => Expression::Block(Box::new(copy_block_expr(x0))),
        Expression::If(x0) => Expression::If(Box::new(copy_if_expr(x0))),
        Expression::Match(x0) => Expression::Match(Box::new(copy_match_expr(x0))),
        Expression::Loop(x0) => Expression::Loop(Box::new(copy_loop_expr(x0))),
        Expression::While(x0) => Expression::While(Box::new(copy_while_expr(x0))),
        Expression::For(x0) => Expression::For(Box::new(copy_for_expr(x0))),
        Expression::Range(x0) => Expression::Range(Box::new(copy_range_expr(x0))),
        Expression::MacroInvocation(x0) => Expression::MacroInvocation(Box::new(copy_macro_invocation(x0))),
    }
}

/// A copy of a literal, equal to it.
pub fn copy_literal(a: &Literal) -> (r: Literal)
    ensures
        literal_eq(*a, r),
    decreases a,
{
    match a {
        Literal::Integer(x0, x1) => Literal::Integer(*x0, match x1 {
            Some(x) => Some(copy_type(x)),
            None => None,
        }),
        Literal::Float(x0, x1) => Literal::Float(x0.clone(), match x1 {
            Some(x) => Some(copy_type(x)),
            None => None,
        }),
        Literal::String(x0) => Literal::String(x0.clone()),
        Literal::Character(x0) => Literal::Character(*x0),
        Literal::Boolean(x0) => Literal::Boolean(*x0),
        Literal::Array(x0) => Literal::Array(copy_expressions(x0)),
    }
}

/// A copy of a binary expression, equal to it.
pub fn copy_binary_expr(a: &BinaryExpr) -> (r: BinaryExpr)
    ensures
        binary_expr_eq(*a, r),
    decreases a,
{
    BinaryExpr {
        left: copy_expression(&a.left),
        operator: a.operator,
        right: copy_expression(&a.right),
        span: a.span,
    }
}

/// A copy of an unary expression, equal to it.
pub fn copy_unary_expr(a: &UnaryExpr) -> (r: UnaryExpr)
    ensures
        unary_expr_eq(*a, r),
    decreases a,
{
    UnaryExpr {
        operator: a.operator,
        operand: copy_expression(&a.operand),
        span: a.span,
    }
}

/// A copy of a call expression, equal to it.
pub fn copy_call_expr(a: &CallExpr) -> (r: CallExpr)
    ensures
        call_expr_eq(*a, r),
    decreases a,
{
    CallExpr {
        callee: copy_expression(&a.callee),
        arguments: copy_expressions(&a.arguments),
        span: a.span,
    }
}

/// A copy of a member expression, equal to it.
pub fn copy_member_expr(a: &MemberExpr) -> (r: MemberExpr)
    ensures
        member_expr_eq(*a, r),
    decreases a,
{
    MemberExpr {
        object: copy_expression(&a.object),
        member: Identifier { name: a.member.name.clone(), span: a.member.span },
        span: a.span,
    }
}

/// A copy of an index expression, equal to it.
pub fn copy_index_expr(a: &IndexExpr) -> (r: IndexExpr)
    ensures
        index_expr_eq(*a, r),
    decreases a,
{
    IndexExpr {
        array: copy_expression(&a.array),
        index: copy_expression(&a.index),
        span: a.span,
    }
}

/// A copy of a cast expression, equal to it.
pub fn copy_cast_expr(a: &CastExpr) -> (r: CastExpr)
    ensures
        cast_expr_eq(*a, r),
    decreases a,
{
    CastExpr {
        expr: copy_expression(&a.expr),
        target_type: copy_type(&a.target_type),
        span: a.span,
    }
}

/// A copy of a block expression, equal to it.
pub fn copy_block_expr(a: &BlockExpr) -> (r: BlockExpr)
    ensures
        block_expr_eq(*a, r),
    decreases a,
{
    BlockExpr {
        statements: copy_expressions(&a.statements),
        span: a.span,
    }
}

/// A copy of an if expression, equal to it.
pub fn copy_if_expr(a: &IfExpr) -> (r: IfExpr)
    ensures
        if_expr_eq(*a, r),
    decreases a,
{
    IfExpr {
        condition: copy_expression(&a.condition),
        then_branch: copy_expression(&a.then_branch),
        else_branch: match &a.else_branch {
            Some(x) => Some(copy_expression(x)),
            None => None,
        },
        span: a.span,
    }
}

/// A copy of a match expression, equal to it.
pub fn copy_match_expr(a: &MatchExpr) -> (r: MatchExpr)
    ensures
        match_expr_eq(*a, r),
    decreases a,
{
    MatchExpr {
        value: copy_expression(&a.value),
        arms: copy_expression_arms(&a.arms),
        span: a.span,
    }
}

/// A copy of an arm of a match expression, equal to it.
pub fn copy_expression_arm(a: &expressions::MatchArm) -> (r: expressions::MatchArm)
    ensures
        expression_arm_eq(*a, r),
    decreases a,
{
    expressions::MatchArm {
        pattern: copy_pattern(&a.pattern),
        guard: match &a.guard {
            Some(x) => Some(copy_expression(x)),
            None => None,
        },
        body: copy_expression(&a.body),
        span: a.span,
    }
}

/// A copy of a pattern, equal to it.
pub fn copy_pattern(a: &Pattern) -> (r: Pattern)
    ensures
        pattern_eq(*a, r),
    decreases a,
{
    match a {
        Pattern::Literal(x0) => Pattern::Literal(copy_literal(x0)),
        Pattern::Identifier(x0) => Pattern::Identifier(Identifier { name: x0.name.clone(), span: x0.span }),
        Pattern::Tuple(x0) => Pattern::Tuple(copy_patterns(x0)),
        Pattern::Struct(x0, x1) => Pattern::Struct(Identifier { name: x0.name.clone(), span: x0.span }, copy_field_patterns(x1)),
        Pattern::Or(x0) => Pattern::Or(copy_patterns(x0)),
        Pattern::Range(x0, x1) => Pattern::Range(Box::new(copy_pattern(x0)), Box::new(copy_pattern(x1))),
        Pattern::Wildcard => Pattern::Wildcard,
    }
}

/// A copy of a loop expression, equal to it.
pub fn copy_loop_expr(a: &LoopExpr) -> (r: LoopExpr)
    ensures
        loop_expr_eq(*a, r),
    decreases a,
{
    LoopExpr {
        body: copy_expression(&a.body),
        label: match &a.label {
            Some(x) => Some(Identifier { name: x.name.clone(), span: x.span }),
            None => None,
        },
        span: a.span,
    }
}

/// A copy of a while expression, equal to it.
pub fn copy_while_expr(a: &WhileExpr) -> (r: WhileExpr)
    ensures
        while_expr_eq(*a, r),
    decreases a,
{
    WhileExpr {
        condition: copy_expression(&a.condition),
        body: copy_expression(&a.body),
        label: match &a.label {
            Some(x) => Some(Identifier { name: x.name.clone(), span: x.span }),
            None => None,
        },
        span: a.span,
    }
}

/// A copy of a for expression, equal to it.
pub fn copy_for_expr(a: &ForExpr) -> (r: ForExpr)
    ensures
        for_expr_eq(*a, r),
    decreases a,
{
    ForExpr {
        pattern: copy_pattern(&a.pattern),
        iterator: copy_expression(&a.iterator),
        body: copy_expression(&a.body),
        label: match &a.label {
            Some(x) => Some(Identifier { name: x.name.clone(), span: x.span }),
            None => None,
        },
        span: a.span,
    }
}

/// A copy of a range expression, equal to it.
pub fn copy_range_expr(a: &RangeExpr) -> (r: RangeExpr)
    ensures
        range_expr_eq(*a, r),
    decreases a,
{
    RangeExpr {
        start: match &a.start {
            Some(x) => Some(copy_expression(x)),
            None => None,
        },
        end: match &a.end {
            Some(x) => Some(copy_expression(x)),
            None => None,
        },
        inclusive: a.inclusive,
        span: a.span,
    }
}

/// A copy of a macro invocation, equal to it.
pub fn copy_macro_invocation(a: &MacroInvocation) -> (r: MacroInvocation)
    ensures
        macro_invocation_eq(*a, r),
    decreases a,
{
    MacroInvocation {
        name: Identifier { name: a.name.name.clone(), span: a.name.span },
        arguments: copy_expressions(&a.arguments),
        span: a.span,
    }
}

/// A copy of a statement, equal to it.
pub fn copy_statement(a: &Statement) -> (r: Statement)
    ensures
        statement_eq(*a, r),
    decreases a,
{
    match a {
        Statement::Empty => Statement::Empty,
        Statement::Expression(x0) => Statement::Expression(copy_expression(x0)),
        Statement::Let(x0) => Statement::Let(copy_let_statement(x0)),
        Statement::Return(x0) => Statement::Return(copy_return_statement(x0)),
        Statement::Break(x0) => Statement::Break(copy_break_statement(x0)),
        Statement::Continue(x0) => Statement::Continue(copy_continue_statement(x0)),
        Statement::While(x0) => Statement::While(copy_while_statement(x0)),
        Statement::For(x0) => Statement::For(copy_for_statement(x0)),
        Statement::Loop(x0) => Statement::Loop(copy_loop_statement(x0)),
        Statement::Block(x0) => Statement::Block(copy_block(x0)),
        Statement::If(x0) => Statement::If(copy_if_statement(x0)),
        Statement::Match(x0) => Statement::Match(copy_match_statement(x0)),
        Statement::Panic(x0) => Statement::Panic(copy_panic_statement(x0)),
    }
}

/// A copy of a let statement, equal to it.
pub fn copy_let_statement(a: &LetStatement) -> (r: LetStatement)
    ensures
        let_statement_eq(*a, r),
    decreases a,
{
    LetStatement {
        pattern: copy_pattern(&a.pattern),
        type_annotation: match &a.type_annotation {
            Some(x) => Some(copy_type(x)),
            None => None,
        },
        initializer: match &a.initializer {
            Some(x) => Some(copy_expression(x)),
            None => None,
        },
        mutable: a.mutable,
        span: a.span,
    }
}

/// A copy of a return statement, equal to it.
pub fn copy_return_statement(a: &ReturnStatement) -> (r: ReturnStatement)
    ensures
        return_statement_eq(*a, r),
    decreases a,
{
    ReturnStatement {
        expression: match &a.expression {
            Some(x) => Some(copy_expression(x)),
            None => None,
        },
        span: a.span,
    }
}

/// A copy of a break statement, equal to it.
pub fn copy_break_statement(a: &BreakStatement) -> (r: BreakStatement)
    ensures
        break_statement_eq(*a, r),
    decreases a,
{
    BreakStatement {
        label: match &a.label {
            Some(x) => Some(Identifier { name: x.name.clone(), span: x.span }),
            None => None,
        },
        expression: match &a.expression {
            Some(x) => Some(copy_expression(x)),
            None => None,
        },
        span: a.span,
    }
}

/// A copy of a continue statement, equal to it.
pub fn copy_continue_statement(a: &ContinueStatement) -> (r: ContinueStatement)
    ensures
        continue_statement_eq(*a, r),
    decreases a,
{
    ContinueStatement {
        label: match &a.label {
            Some(x) => Some(Identifier { name: x.name.clone(), span: x.span }),
            None => None,
        },
        span: a.span,
    }
}

/// A copy of a while statement, equal to it.
pub fn copy_while_statement(a: &WhileStatement) -> (r: WhileStatement)
    ensures
        while_statement_eq(*a, r),
    decreases a,
{
    WhileStatement {
        condition: copy_expression(&a.condition),
        body: copy_block(&a.body),
        label: match &a.label {
            Some(x) => Some(Identifier { name: x.name.clone(), span: x.span }),
            None => None,
        },
        span: a.span,
    }
}

/// A copy of a for statement, equal to it.
pub fn copy_for_statement(a: &ForStatement) -> (r: ForStatement)
    ensures
        for_statement_eq(*a, r),
    decreases a,
{
    ForStatement {
        pattern: copy_pattern(&a.pattern),
        iterator: copy_expression(&a.iterator),
        body: copy_block(&a.body),
        label: match &a.label {
            Some(x) => Some(Identifier { name: x.name.clone(), span: x.span }),
            None => None,
        },
        span: a.span,
    }
}

/// A copy of a loop statement, equal to it.
pub fn copy_loop_statement(a: &LoopStatement) -> (r: LoopStatement)
    ensures
        loop_statement_eq(*a, r),
    decreases a,
{
    LoopStatement {
        body: copy_block(&a.body),
        label: match &a.label {
            Some(x) => Some(Identifier { name: x.name.clone(), span: x.span }),
            None => None,
        },
        span: a.span,
    }
}

/// A copy of an if statement, equal to it.
pub fn copy_if_statement(a: &IfStatement) -> (r: IfStatement)
    ensures
        if_statement_eq(*a, r),
    decreases a,
{
    IfStatement {
        condition: copy_expression(&a.condition),
        then_branch: copy_block(&a.then_branch),
        else_branch: match &a.else_branch {
            Some(x) => Some(copy_else_branch(x)),
            None => None,
        },
        span: a.span,
    }
}

/// A copy of an else branch, equal to it.
pub fn copy_else_branch(a: &ElseBranch) -> (r: ElseBranch)
    ensures
        else_branch_eq(*a, r),
    decreases a,
{
    match a {
        ElseBranch::Block(x0) => ElseBranch::Block(copy_block(x0)),
        ElseBranch::If(x0) => ElseBranch::If(Box::new(copy_if_statement(x0))),
    }
}

/// A copy of a match statement, equal to it.
pub fn copy_match_statement(a: &MatchStatement) -> (r: MatchStatement)
    ensures
        match_statement_eq(*a, r),
    decreases a,
{
    MatchStatement {
        expression: copy_expression(&a.expression),
        arms: copy_statement_arms(&a.arms),
        span: a.span,
    }
}

/// A copy of an arm of a match statement, equal to it.
pub fn copy_statement_arm(a: &statements::MatchArm) -> (r: statements::MatchArm)
    ensures
        statement_arm_eq(*a, r),
    decreases a,
{
    statements::MatchArm {
        pattern: copy_pattern(&a.pattern),
        guard: match &a.guard {
            Some(x) => Some(copy_expression(x)),
            None => None,
        },
        body: copy_block(&a.body),
        span: a.span,
    }
}

/// A copy of a panic statement, equal to it.
pub fn copy_panic_statement(a: &PanicStatement) -> (r: PanicStatement)
    ensures
        panic_statement_eq(*a, r),
    decreases a,
{
    PanicStatement {
        message: copy_expression(&a.message),
        span: a.span,
    }
}

/// A copy of a type, equal to it.
pub fn copy_type(a: &Type) -> (r: Type)
    ensures
        type_eq(*a, r),
    decreases a,
{
    match a {
        Type::I8 => Type::I8,
        Type::I16 => Type::I16,
        Type::I32 => Type::I32,
        Type::I64 => Type::I64,
        Type::I128 => Type::I128,
        Type::U8 => Type::U8,
        Type::U16 => Type::U16,
        Type::U32 => Type::U32,
        Type::U64 => Type::U64,
        Type::U128 => Type::U128,
        Type::F32 => Type::F32,
        Type::F64 => Type::F64,
        Type::Bool => Type::Bool,
        Type::Char => Type::Char,
        Type::Str => Type::Str,
        Type::Unit => Type::Unit,
        Type::Never => Type::Never,
        Type::Array(x0, x1) => Type::Array(Box::new(copy_type(x0)), match x1 {
            Some(x) => Some(Box::new(copy_expression(x))),
            None => None,
        }),
        Type::Slice(x0) => Type::Slice(Box::new(copy_type(x0))),
        Type::Pointer(x0, x1) => Type::Pointer(Box::new(copy_type(x0)), *x1),
        Type::Reference(x0, x1) => Type::Reference(Box::new(copy_type(x0)), *x1),
        Type::Tuple(x0) => Type::Tuple(copy_types(x0)),
        Type::Function(x0, x1) => Type::Function(copy_types(x0), Box::new(copy_type(x1))),
        Type::Named(x0) => Type::Named(copy_type_path(x0)),
        Type::Generic(x0, x1) => Type::Generic(Box::new(copy_type(x0)), copy_types(x1)),
    }
}

/// A copy of a type path, equal to it.
pub fn copy_type_path(a: &TypePath) -> (r: TypePath)
    ensures
        type_path_eq(*a, r),
    decreases a,
{
    TypePath {
        segments: copy_type_path_segments(&a.segments),
        span: a.span,
    }
}

/// A copy of a type path segment, equal to it.
pub fn copy_type_path_segment(a: &TypePathSegment) -> (r: TypePathSegment)
    ensures
        type_path_segment_eq(*a, r),
    decreases a,
{
    TypePathSegment {
        ident: Identifier { name: a.ident.name.clone(), span: a.ident.span },
        generic_args: match &a.generic_args {
            Some(x) => Some(copy_types(x)),
            None => None,
        },
        span: a.span,
    }
}

/// A copy of a token tree, equal to it.
pub fn copy_token(a: &MacroToken) -> (r: MacroToken)
    ensures
        token_eq(*a, r),
    decreases a,
{
    match a {
        MacroToken::Literal(x0) => MacroToken::Literal(x0.clone()),
        MacroToken::Variable(x0) => MacroToken::Variable(Identifier { name: x0.name.clone(), span: x0.span }),
        MacroToken::Group(x0) => MacroToken::Group(copy_tokens(x0)),
    }
}

/// A copy of a sequence, item by item.
pub fn copy_declarations(xs: &Vec<Declaration>) -> (r: Vec<Declaration>)
    ensures
        r@.len() == xs@.len(),
        forall|i: int|
            0 <= i < xs@.len() ==> declaration_eq(#[trigger] xs@[i], r@[i]),
    decreases xs,
{
    let mut out: Vec<Declaration> = Vec::new();
    let mut i: usize = 0;
    while i < xs.len()
        invariant
            i <= xs@.len(),
            out@.len() == i,
            forall|j: int|
                0 <= j < i ==> declaration_eq(#[trigger] xs@[j], out@[j]),
        decreases xs@.len() - i,
    {
        let item = copy_declaration(&xs[i]);
        out.push(item);
        i += 1;
    }
    out
}

/// A copy of a sequence, item by item.
pub fn copy_parameters(xs: &Vec<Parameter>) -> (r: Vec<Parameter>)
    ensures
        r@.len() == xs@.len(),
        forall|i: int|
            0 <= i < xs@.len() ==> parameter_eq(#[trigger] xs@[i], r@[i]),
    decreases xs,
{
    let mut out: Vec<Parameter> = Vec::new();
    let mut i: usize = 0;
    while i < xs.len()
        invariant
            i <= xs@.len(),
            out@.len() == i,
            forall|j: int|
                0 <= j < i ==> parameter_eq(#[trigger] xs@[j], out@[j]),
        decreases xs@.len() - i,
    {
        let item = copy_parameter(&xs[i]);
        out.push(item);
        i += 1;
    }
    out
}

/// A copy of a sequence, item by item.
pub fn copy_attributes(xs: &Vec<Attribute>) -> (r: Vec<Attribute>)
    ensures
        r@.len() == xs@.len(),
        forall|i: int|
            0 <= i < xs@.len() ==> attribute_eq(#[trigger] xs@[i], r@[i]),
    decreases xs,
{
    let mut out: Vec<Attribute> = Vec::new();
    let mut i: usize = 0;
    while i < xs.len()
        invariant
            i <= xs@.len(),
            out@.len() == i,
            forall|j: int|
                0 <= j < i ==> attribute_eq(#[trigger] xs@[j], out@[j]),
        decreases xs@.len() - i,
    {
        let item = copy_attribute(&xs[i]);
        out.push(item);
        i += 1;
    }
    out
}

/// A copy of a sequence, item by item.
pub fn copy_statements(xs: &Vec<Statement>) -> (r: Vec<Statement>)
    ensures
        r@.len() == xs@.len(),
        forall|i: int|
            0 <= i < xs@.len() ==> statement_eq(#[trigger] xs@[i], r@[i]),
    decreases xs,
{
    let mut out: Vec<Statement> = Vec::new();
    let mut i: usize = 0;
    while i < xs.len()
        invariant
            i <= xs@.len(),
            out@.len() == i,
            forall|j: int|
                0 <= j < i ==> statement_eq(#[trigger] xs@[j], out@[j]),
        decreases xs@.len() - i,
    {
        let item = copy_statement(&xs[i]);
        out.push(item);
        i += 1;
    }
    out
}

/// A copy of a sequence, item by item.
pub fn copy_attribute_args(xs: &Vec<AttributeArg>) -> (r: Vec<AttributeArg>)
    ensures
        r@.len() == xs@.len(),
        forall|i: int|
            0 <= i < xs@.len() ==> attribute_arg_eq(#[trigger] xs@[i], r@[i]),
    decreases xs,
{
    let mut out: Vec<AttributeArg> = Vec::new();
    let mut i: usize = 0;
    while i < xs.len()
        invariant
            i <= xs@.len(),
            out@.len() == i,
            forall|j: int|
                0 <= j < i ==> attribute_arg_eq(#[trigger] xs@[j], out@[j]),
        decreases xs@.len() - i,
    {
        let item = copy_attribute_arg(&xs[i]);
        out.push(item);
        i += 1;
    }
    out
}

/// A copy of a sequence, item by item.
pub fn copy_struct_fields(xs: &Vec<StructField>) -> (r: Vec<StructField>)
    ensures
        r@.len() == xs@.len(),
        forall|i: int|
            0 <= i < xs@.len() ==> struct_field_eq(#[trigger] xs@[i], r@[i]),
    decreases xs,
{
    let mut out: Vec<StructField> = Vec::new();
    let mut i: usize = 0;
    while i < xs.len()
        invariant
            i <= xs@.len(),
            out@.len() == i,
            forall|j: int|
                0 <= j < i ==> struct_field_eq(#[trigger] xs@[j], out@[j]),
        decreases xs@.len() - i,
    {
        let item = copy_struct_field(&xs[i]);
        out.push(item);
        i += 1;
    }
    out
}

/// A copy of a sequence, item by item.
pub fn copy_enum_variants(xs: &Vec<EnumVariant>) -> (r: Vec<EnumVariant>)
    ensures
        r@.len() == xs@.len(),
        forall|i: int|
            0 <= i < xs@.len() ==> enum_variant_eq(#[trigger] xs@[i], r@[i]),
    decreases xs,
{
    let mut out: Vec<EnumVariant> = Vec::new();
    let mut i: usize = 0;
    while i < xs.len()
        invariant
            i <= xs@.len(),
            out@.len() == i,
            forall|j: int|
                0 <= j < i ==> enum_variant_eq(#[trigger] xs@[j], out@[j]),
        decreases xs@.len() - i,
    {
        let item = copy_enum_variant(&xs[i]);
        out.push(item);
        i += 1;
    }
    out
}

/// A copy of a sequence, item by item.
pub fn copy_union_fields(xs: &Vec<UnionField>) -> (r: Vec<UnionField>)
    ensures
        r@.len() == xs@.len(),
        forall|i: int|
            0 <= i < xs@.len() ==> union_field_eq(#[trigger] xs@[i], r@[i]),
    decreases xs,
{
    let mut out: Vec<UnionField> = Vec::new();
    let mut i: usize = 0;
    while i < xs.len()
        invariant
            i <= xs@.len(),
            out@.len() == i,
            forall|j: int|
                0 <= j < i ==> union_field_eq(#[trigger] xs@[j], out@[j]),
        decreases xs@.len() - i,
    {
        let item = copy_union_field(&xs[i]);
        out.push(item);
        i += 1;
    }
    out
}

/// A copy of a sequence, item by item.
pub fn copy_macro_params(xs: &Vec<MacroParam>) -> (r: Vec<MacroParam>)
    ensures
        r@.len() == xs@.len(),
        forall|i: int|
            0 <= i < xs@.len() ==> macro_param_eq(#[trigger] xs@[i], r@[i]),
    decreases xs,
{
    let mut out: Vec<MacroParam> = Vec::new();
    let mut i: usize = 0;
    while i < xs.len()
        invariant
            i <= xs@.len(),
            out@.len() == i,
            forall|j: int|
                0 <= j < i ==> macro_param_eq(#[trigger] xs@[j], out@[j]),
        decreases xs@.len() - i,
    {
        let item = copy_macro_param(&xs[i]);
        out.push(item);
        i += 1;
    }
    out
}

/// A copy of a sequence, item by item.
pub fn copy_tokens(xs: &Vec<MacroToken>) -> (r: Vec<MacroToken>)
    ensures
        r@.len() == xs@.len(),
        forall|i: int|
            0 <= i < xs@.len() ==> token_eq(#[trigger] xs@[i], r@[i]),
    decreases xs,
{
    let mut out: Vec<MacroToken> = Vec::new();
    let mut i: usize = 0;
    while i < xs.len()
        invariant
            i <= xs@.len(),
            out@.len() == i,
            forall|j: int|
                0 <= j < i ==> token_eq(#[trigger] xs@[j], out@[j]),
        decreases xs@.len() - i,
    {
        let item = copy_token(&xs[i]);
        out.push(item);
        i += 1;
    }
    out
}

/// A copy of a sequence, item by item.
pub fn copy_expressions(xs: &Vec<Expression>) -> (r: Vec<Expression>)
    ensures
        r@.len() == xs@.len(),
        forall|i: int|
            0 <= i < xs@.len() ==> expression_eq(#[trigger] xs@[i], r@[i]),
    decreases xs,
{
    let mut out: Vec<Expression> = Vec::new();
    let mut i: usize = 0;
    while i < xs.len()
        invariant
            i <= xs@.len(),
            out@.len() == i,
            forall|j: int|
                0 <= j < i ==> expression_eq(#[trigger] xs@[j], out@[j]),
        decreases xs@.len() - i,
    {
        let item = copy_expression(&xs[i]);
        out.push(item);
        i += 1;
    }
    out
}

/// A copy of a sequence, item by item.
pub fn copy_expression_arms(xs: &Vec<expressions::MatchArm>) -> (r: Vec<expressions::MatchArm>)
    ensures
        r@.len() == xs@.len(),
        forall|i: int|
            0 <= i < xs@.len() ==> expression_arm_eq(#[trigger] xs@[i], r@[i]),
    decreases xs,
{
    let mut out: Vec<expressions::MatchArm> = Vec::new();
    let mut i: usize = 0;
    while i < xs.len()
        invariant
            i <= xs@.len(),
            out@.len() == i,
            forall|j: int|
                0 <= j < i ==> expression_arm_eq(#[trigger] xs@[j], out@[j]),
        decreases xs@.len() - i,
    {
        let item = copy_expression_arm(&xs[i]);
        out.push(item);
        i += 1;
    }
    out
}

/// A copy of a sequence, item by item.
pub fn copy_patterns(xs: &Vec<Pattern>) -> (r: Vec<Pattern>)
    ensures
        r@.len() == xs@.len(),
        forall|i: int|
            0 <= i < xs@.len() ==> pattern_eq(#[trigger] xs@[i], r@[i]),
    decreases xs,
{
    let mut out: Vec<Pattern> = Vec::new();
    let mut i: usize = 0;
    while i < xs.len()
        invariant
            i <= xs@.len(),
            out@.len() == i,
            forall|j: int|
                0 <= j < i ==> pattern_eq(#[trigger] xs@[j], out@[j]),
        decreases xs@.len() - i,
    {
        let item = copy_pattern(&xs[i]);
        out.push(item);
        i += 1;
    }
    out
}

/// A copy of a sequence, item by item.
pub fn copy_field_patterns(xs: &Vec<(Identifier, Pattern)>) -> (r: Vec<(Identifier, Pattern)>)
    ensures
        r@.len() == xs@.len(),
        forall|i: int|
            0 <= i < xs@.len() ==> ((#[trigger] xs@[i]).0.name@ == r@[i].0.name@ && pattern_eq((#[trigger] xs@[i]).1, r@[i].1)),
    decreases xs,
{
    let mut out: Vec<(Identifier, Pattern)> = Vec::new();
    let mut i: usize = 0;
    while i < xs.len()
        invariant
            i <= xs@.len(),
            out@.len() == i,
            forall|j: int|
                0 <= j < i ==> ((#[trigger] xs@[j]).0.name@ == out@[j].0.name@ && pattern_eq((#[trigger] xs@[j]).1, out@[j].1)),
        decreases xs@.len() - i,
    {
        let item = (Identifier { name: xs[i].0.name.clone(), span: xs[i].0.span }, copy_pattern(&xs[i].1));
        out.push(item);
        i += 1;
    }
    out
}

/// A copy of a sequence, item by item.
pub fn copy_statement_arms(xs: &Vec<statements::MatchArm>) -> (r: Vec<statements::MatchArm>)
    ensures
        r@.len() == xs@.len(),
        forall|i: int|
            0 <= i < xs@.len() ==> statement_arm_eq(#[trigger] xs@[i], r@[i]),
    decreases xs,
{
    let mut out: Vec<statements::MatchArm> = Vec::new();
    let mut i: usize = 0;
    while i < xs.len()
        invariant
            i <= xs@.len(),
            out@.len() == i,
            forall|j: int|
                0 <= j < i ==> statement_arm_eq(#[trigger] xs@[j], out@[j]),
        decreases xs@.len() - i,
    {
        let item = copy_statement_arm(&xs[i]);
        out.push(item);
        i += 1;
    }
    out
}

/// A copy of a sequence, item by item.
pub fn copy_types(xs: &Vec<Type>) -> (r: Vec<Type>)
    ensures
        r@.len() == xs@.len(),
        forall|i: int|
            0 <= i < xs@.len() ==> type_eq(#[trigger] xs@[i], r@[i]),
    decreases xs,
{
    let mut out: Vec<Type> = Vec::new();
    let mut i: usize = 0;
    while i < xs.len()
        invariant
            i <= xs@.len(),
            out@.len() == i,
            forall|j: int|
                0 <= j < i ==> type_eq(#[trigger] xs@[j], out@[j]),
        decreases xs@.len() - i,
    {
        let item = copy_type(&xs[i]);
        out.push(item);
        i += 1;
    }
    out
}

/// A copy of a sequence, item by item.
pub fn copy_type_path_segments(xs: &Vec<TypePathSegment>) -> (r: Vec<TypePathSegment>)
    ensures
        r@.len() == xs@.len(),
        forall|i: int|
            0 <= i < xs@.len() ==> type_path_segment_eq(#[trigger] xs@[i], r@[i]),
    decreases xs,
{
    let mut out: Vec<TypePathSegment> = Vec::new();
    let mut i: usize = 0;
    while i < xs.len()
        invariant
            i <= xs@.len(),
            out@.len() == i,
            forall|j: int|
                0 <= j < i ==> type_path_segment_eq(#[trigger] xs@[j], out@[j]),
        decreases xs@.len() - i,
    {
        let item = copy_type_path_segment(&xs[i]);
        out.push(item);
        i += 1;
    }
    out
}

impl Clone for Program {
    fn clone(&self) -> (r: Self)
        ensures
            program_eq(*self, r),
    {
        copy_program(self)
    }
}

impl Clone for Declaration {
    fn clone(&self) -> (r: Self)
        ensures
            declaration_eq(*self, r),
    {
        copy_declaration(self)
    }
}

impl Clone for FunctionDecl {
    fn clone(&self) -> (r: Self)
        ensures
            function_decl_eq(*self, r),
    {
        copy_function_decl(self)
    }
}

impl Clone for Parameter {
    fn clone(&self) -> (r: Self)
        ensures
            parameter_eq(*self, r),
    {
        copy_parameter(self)
    }
}

impl Clone for Block {
    fn clone(&self) -> (r: Self)
        ensures
            block_eq(*self, r),
    {
        copy_block(self)
    }
}

impl Clone for Attribute {
    fn clone(&self) -> (r: Self)
        ensures
            attribute_eq(*self, r),
    {
        copy_attribute(self)
    }
}

impl Clone for AttributeArg {
    fn clone(&self) -> (r: Self)
        ensures
            attribute_arg_eq(*self, r),
    {
        copy_attribute_arg(self)
    }
}

impl Clone for StructDecl {
    fn clone(&self) -> (r: Self)
        ensures
            struct_decl_eq(*self, r),
    {
        copy_struct_decl(self)
    }
}

impl Clone for StructField {
    fn clone(&self) -> (r: Self)
        ensures
            struct_field_eq(*self, r),
    {
        copy_struct_field(self)
    }
}

impl Clone for EnumDecl {
    fn clone(&self) -> (r: Self)
        ensures
            enum_decl_eq(*self, r),
    {
        copy_enum_decl(self)
    }
}

impl Clone for EnumVariant {
    fn clone(&self) -> (r: Self)
        ensures
            enum_variant_eq(*self, r),
    {
        copy_enum_variant(self)
    }
}

impl Clone for UnionDecl {
    fn clone(&self) -> (r: Self)
        ensures
            union_decl_eq(*self, r),
    {
        copy_union_decl(self)
    }
}

impl Clone for UnionField {
    fn clone(&self) -> (r: Self)
        ensures
            union_field_eq(*self, r),
    {
        copy_union_field(self)
    }
}

impl Clone for VarDecl {
    fn clone(&self) -> (r: Self)
        ensures
            var_decl_eq(*self, r),
    {
        copy_var_decl(self)
    }
}

impl Clone for ConstDecl {
    fn clone(&self) -> (r: Self)
        ensures
            const_decl_eq(*self, r),
    {
        copy_const_decl(self)
    }
}

impl Clone for ModuleDecl {
    fn clone(&self) -> (r: Self)
        ensures
            module_decl_eq(*self, r),
    {
        copy_module_decl(self)
    }
}

impl Clone for MacroDecl {
    fn clone(&self) -> (r: Self)
        ensures
            macro_decl_eq(*self, r),
    {
        copy_macro_decl(self)
    }
}

impl Clone for MacroParam {
    fn clone(&self) -> (r: Self)
        ensures
            macro_param_eq(*self, r),
    {
        copy_macro_param(self)
    }
}

impl Clone for MacroBody {
    fn clone(&self) -> (r: Self)
        ensures
            macro_body_eq(*self, r),
    {
        copy_macro_body(self)
    }
}

impl Clone for Expression {
    fn clone(&self) -> (r: Self)
        ensures
            expression_eq(*self, r),
    {
        copy_expression(self)
    }
}

impl Clone for Literal {
    fn clone(&self) -> (r: Self)
        ensures
            literal_eq(*self, r),
    {
        copy_literal(self)
    }
}

impl Clone for BinaryExpr {
    fn clone(&self) -> (r: Self)
        ensures
            binary_expr_eq(*self, r),
    {
        copy_binary_expr(self)
    }
}

impl Clone for UnaryExpr {
    fn clone(&self) -> (r: Self)
        ensures
            unary_expr_eq(*self, r),
    {
        copy_unary_expr(self)
    }
}

impl Clone for CallExpr {
    fn clone(&self) -> (r: Self)
        ensures
            call_expr_eq(*self, r),
    {
        copy_call_expr(self)
    }
}

impl Clone for MemberExpr {
    fn clone(&self) -> (r: Self)
        ensures
            member_expr_eq(*self, r),
    {
        copy_member_expr(self)
    }
}

impl Clone for IndexExpr {
    fn clone(&self) -> (r: Self)
        ensures
            index_expr_eq(*self, r),
    {
        copy_index_expr(self)
    }
}

impl Clone for CastExpr {
    fn clone(&self) -> (r: Self)
        ensures
            cast_expr_eq(*self, r),
    {
        copy_cast_expr(self)
    }
}

impl Clone for BlockExpr {
    fn clone(&self) -> (r: Self)
        ensures
            block_expr_eq(*self, r),
    {
        copy_block_expr(self)
    }
}

impl Clone for IfExpr {
    fn clone(&self) -> (r: Self)
        ensures
            if_expr_eq(*self, r),
    {
        copy_if_expr(self)
    }
}

impl Clone for MatchExpr {
    fn clone(&self) -> (r: Self)
        ensures
            match_expr_eq(*self, r),
    {
        copy_match_expr(self)
    }
}

impl Clone for expressions::MatchArm {
    fn clone(&self) -> (r: Self)
        ensures
            expression_arm_eq(*self, r),
    {
        copy_expression_arm(self)
    }
}

impl Clone for Pattern {
    fn clone(&self) -> (r: Self)
        ensures
            pattern_eq(*self, r),
    {
        copy_pattern(self)
    }
}

impl Clone for LoopExpr {
    fn clone(&self) -> (r: Self)
        ensures
            loop_expr_eq(*self, r),
    {
        copy_loop_expr(self)
    }
}

impl Clone for WhileExpr {
    fn clone(&self) -> (r: Self)
        ensures
            while_expr_eq(*self, r),
    {
        copy_while_expr(self)
    }
}

impl Clone for ForExpr {
    fn clone(&self) -> (r: Self)
        ensures
            for_expr_eq(*self, r),
    {
        copy_for_expr(self)
    }
}

impl Clone for RangeExpr {
    fn clone(&self) -> (r: Self)
        ensures
            range_expr_eq(*self, r),
    {
        copy_range_expr(self)
    }
}

impl Clone for MacroInvocation {
    fn clone(&self) -> (r: Self)
        ensures
            macro_invocation_eq(*self, r),
    {
        copy_macro_invocation(self)
    }
}

impl Clone for Statement {
    fn clone(&self) -> (r: Self)
        ensures
            statement_eq(*self, r),
    {
        copy_statement(self)
    }
}

impl Clone for LetStatement {
    fn clone(&self) -> (r: Self)
        ensures
            let_statement_eq(*self, r),
    {
        copy_let_statement(self)
    }
}

impl Clone for ReturnStatement {
    fn clone(&self) -> (r: Self)
        ensures
            return_statement_eq(*self, r),
    {
        copy_return_statement(self)
    }
}

impl Clone for BreakStatement {
    fn clone(&self) -> (r: Self)
        ensures
            break_statement_eq(*self, r),
    {
        copy_break_statement(self)
    }
}

impl Clone for ContinueStatement {
    fn clone(&self) -> (r: Self)
        ensures
            continue_statement_eq(*self, r),
    {
        copy_continue_statement(self)
    }
}

impl Clone for WhileStatement {
    fn clone(&self) -> (r: Self)
        ensures
            while_statement_eq(*self, r),
    {
        copy_while_statement(self)
    }
}

impl Clone for ForStatement {
    fn clone(&self) -> (r: Self)
        ensures
            for_statement_eq(*self, r),
    {
        copy_for_statement(self)
    }
}

impl Clone for LoopStatement {
    fn clone(&self) -> (r: Self)
        ensures
            loop_statement_eq(*self, r),
    {
        copy_loop_statement(self)
    }
}

impl Clone for IfStatement {
    fn clone(&self) -> (r: Self)
        ensures
            if_statement_eq(*self, r),
    {
        copy_if_statement(self)
    }
}

impl Clone for ElseBranch {
    fn clone(&self) -> (r: Self)
        ensures
            else_branch_eq(*self, r),
    {
        copy_else_branch(self)
    }
}

impl Clone for MatchStatement {
    fn clone(&self) -> (r: Self)
        ensures
            match_statement_eq(*self, r),
    {
        copy_match_statement(self)
    }
}

impl Clone for statements::MatchArm {
    fn clone(&self) -> (r: Self)
        ensures
            statement_arm_eq(*self, r),
    {
        copy_statement_arm(self)
    }
}

impl Clone for PanicStatement {
    fn clone(&self) -> (r: Self)
        ensures
            panic_statement_eq(*self, r),
    {
        copy_panic_statement(self)
    }
}

impl Clone for Type {
    fn clone(&self) -> (r: Self)
        ensures
            type_eq(*self, r),
    {
        copy_type(self)
    }
}

impl Clone for TypePath {
    fn clone(&self) -> (r: Self)
        ensures
            type_path_eq(*self, r),
    {
        copy_type_path(self)
    }
}

impl Clone for TypePathSegment {
    fn clone(&self) -> (r: Self)
        ensures
            type_path_segment_eq(*self, r),
    {
        copy_type_path_segment(self)
    }
}

impl Clone for MacroToken {
    fn clone(&self) -> (r: Self)
        ensures
            token_eq(*self, r),
    {
        copy_token(self)
    }
}

} // verus!
