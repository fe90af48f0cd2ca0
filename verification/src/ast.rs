//! The syntax tree: declarations, statements, expressions, patterns and
//! types, as values with a single owner.
//!
//! Equality is structural over what a node says. The span of an
//! [`Identifier`] takes no part in it: two identifiers are equal when their
//! names are.

use vstd::prelude::*;
use crate::ast::expressions::{Expression, Literal};
use crate::ast::statements::Statement;
pub use crate::ast::types::Type;

pub mod copy;
pub mod equality;
pub mod expressions;
pub mod literal;
pub mod render;
pub mod render_laws;
pub mod statements;
pub mod types;

verus! {

/// A range of source bytes, with the line and column at which it starts.
/// Lines and columns count from 1; the span of a node that stands for no
/// source text is all zeros.
#[derive(Debug, Clone, Copy, PartialEq, Eq, Hash, Structural)]
pub struct Span {
    pub start: usize,
    pub end: usize,
    pub line: usize,
    pub column: usize,
}

impl Span {
    /// The bytes of a span do not end before they start.
    pub open spec fn wf(&self) -> bool {
        self.start <= self.end
    }

    /// The span of the bytes `start..end`, which begin at `line` and `column`.
    pub fn new(start: usize, end: usize, line: usize, column: usize) -> (r: Self)
        ensures
            r == (Span { start, end, line, column }),
            r.wf() <==> start <= end,
    {
        Self { start, end, line, column }
    }

    /// The span of a node that stands for no source text.
    pub fn dummy() -> (r: Self)
        ensures
            r == (Span { start: 0, end: 0, line: 0, column: 0 }),
            r.wf(),
    {
        Self { start: 0, end: 0, line: 0, column: 0 }
    }
}

/// A name, with the place where it was written.
#[derive(Debug)]
pub struct Identifier {
    pub name: String,
    pub span: Span,
}

impl Identifier {
    pub fn new(name: String, span: Span) -> (r: Self)
        ensures
            r.name == name,
            r.span == span,
    {
        Self { name, span }
    }

    /// An identifier is shown as its name.
    pub open spec fn text(&self) -> Seq<char> {
        self.name@
    }

    pub fn render(&self) -> (r: String)
        ensures
            r@ == self.text(),
    {
        self.name.clone()
    }
}

impl Clone for Identifier {
    fn clone(&self) -> (r: Self)
        ensures
            r.name@ == self.name@,
            r.span == self.span,
    {
        Identifier { name: self.name.clone(), span: self.span }
    }
}

impl PartialEq for Identifier {
    /// Identifiers are equal when their names are; spans are not compared.
    fn eq(&self, other: &Self) -> (r: bool) {
        self.name == other.name
    }
}

impl vstd::std_specs::cmp::PartialEqSpecImpl for Identifier {
    open spec fn obeys_eq_spec() -> bool {
        true
    }

    open spec fn eq_spec(&self, other: &Self) -> bool {
        self.name@ == other.name@
    }
}

/// A whole source file: its top-level declarations, in source order.
#[derive(Debug)]
pub struct Program {
    pub items: Vec<Declaration>,
    pub span: Span,
}

#[derive(Debug)]
pub enum Declaration {
    Function(FunctionDecl),
    Struct(StructDecl),
    Enum(EnumDecl),
    Union(UnionDecl),
    Variable(VarDecl),
    Constant(ConstDecl),
    Module(ModuleDecl),
    Macro(MacroDecl),
}

#[derive(Debug)]
pub struct FunctionDecl {
    pub name: Identifier,
    pub params: Vec<Parameter>,
    pub return_type: Option<Box<Type>>,
    pub body: Block,
    pub attributes: Vec<Attribute>,
    pub span: Span,
}

#[derive(Debug)]
pub struct Parameter {
    pub name: Identifier,
    pub ty: Type,
    pub span: Span,
}

/// Statements in braces, in source order.
#[derive(Debug)]
pub struct Block {
    pub statements: Vec<Statement>,
    pub span: Span,
}

/// Metadata on a function, a struct or a struct field.
#[derive(Debug)]
pub struct Attribute {
    pub name: Identifier,
    pub args: Vec<AttributeArg>,
    pub span: Span,
}

#[derive(Debug)]
pub enum AttributeArg {
    Literal(Literal),
    Identifier(Identifier),
}

#[derive(Debug)]
pub struct StructDecl {
    pub name: Identifier,
    pub fields: Vec<StructField>,
    pub attributes: Vec<Attribute>,
    pub span: Span,
}

#[derive(Debug)]
pub struct StructField {
    pub name: Identifier,
    pub ty: Type,
    pub attributes: Vec<Attribute>,
    pub span: Span,
}

#[derive(Debug)]
pub struct EnumDecl {
    pub name: Identifier,
    pub variants: Vec<EnumVariant>,
    pub attributes: Vec<Attribute>,
    pub span: Span,
}

#[derive(Debug)]
pub struct EnumVariant {
    pub name: Identifier,
    pub data: Option<Type>,
    pub span: Span,
}

#[derive(Debug)]
pub struct UnionDecl {
    pub name: Identifier,
    pub fields: Vec<UnionField>,
    pub attributes: Vec<Attribute>,
    pub span: Span,
}

#[derive(Debug)]
pub struct UnionField {
    pub name: Identifier,
    pub ty: Type,
    pub span: Span,
}

#[derive(Debug)]
pub struct VarDecl {
    pub name: Identifier,
    pub ty: Option<Type>,
    pub mutable: bool,
    pub initializer: Option<Expression>,
    pub span: Span,
}

#[derive(Debug)]
pub struct ConstDecl {
    pub name: Identifier,
    pub ty: Type,
    pub value: Expression,
    pub span: Span,
}

/// A module owns the declarations nested in it.
#[derive(Debug)]
pub struct ModuleDecl {
    pub name: Identifier,
    pub items: Vec<Declaration>,
    pub span: Span,
}

#[derive(Debug)]
pub struct MacroDecl {
    pub name: Identifier,
    pub params: Vec<MacroParam>,
    pub body: MacroBody,
    pub span: Span,
}

#[derive(Debug)]
pub struct MacroParam {
    pub name: Identifier,
    pub ty: Type,
    pub span: Span,
}

/// The body of a macro: a token tree, not yet expanded.
#[derive(Debug)]
pub struct MacroBody {
    pub tokens: Vec<MacroToken>,
    pub span: Span,
}

/// A node of a token tree. Groups nest to any depth.
#[derive(Debug)]
pub enum MacroToken {
    Literal(String),
    Variable(Identifier),
    Group(Vec<MacroToken>),
}

/// Two token trees say the same: literals with the same text, variables of
/// the same name, or groups of equally many trees that say the same one by
/// one, to any depth.
pub open spec fn token_eq(a: MacroToken, b: MacroToken) -> bool
    decreases a,
{
    match a {
        MacroToken::Literal(x) => b matches MacroToken::Literal(y) && x@ == y@,
        MacroToken::Variable(x) => b matches MacroToken::Variable(y) && x.name@ == y.name@,
        MacroToken::Group(xs) => b matches MacroToken::Group(ys) && xs@.len() == ys@.len()
            && forall|i: int| 0 <= i < xs@.len() ==> token_eq(#[trigger] xs@[i], ys@[i]),
    }
}

/// Two sequences of token trees are as long and say the same one by one.
pub open spec fn tokens_eq(xs: Seq<MacroToken>, ys: Seq<MacroToken>) -> bool {
    xs.len() == ys.len() && forall|i: int| 0 <= i < xs.len() ==> token_eq(#[trigger] xs[i], ys[i])
}

impl MacroToken {
    /// Structural comparison of two token trees, of whatever depth.
    pub fn same(&self, other: &MacroToken) -> (r: bool)
        ensures
            r == token_eq(*self, *other),
        decreases self,
    {
        match self {
            MacroToken::Literal(x) => match other {
                MacroToken::Literal(y) => *x == *y,
                _ => false,
            },
            MacroToken::Variable(x) => match other {
                MacroToken::Variable(y) => x.name == y.name,
                _ => false,
            },
            MacroToken::Group(xs) => match other {
                MacroToken::Group(ys) => same_tokens(xs, ys),
                _ => false,
            },
        }
    }
}

impl PartialEq for MacroToken {
    fn eq(&self, other: &Self) -> (r: bool) {
        self.same(other)
    }
}

impl vstd::std_specs::cmp::PartialEqSpecImpl for MacroToken {
    open spec fn obeys_eq_spec() -> bool {
        true
    }

    open spec fn eq_spec(&self, other: &Self) -> bool {
        token_eq(*self, *other)
    }
}

/// Structural comparison of two sequences of token trees.
pub fn same_tokens(xs: &Vec<MacroToken>, ys: &Vec<MacroToken>) -> (r: bool)
    ensures
        r == tokens_eq(xs@, ys@),
    decreases xs,
{
    if xs.len() != ys.len() {
        return false;
    }
    let mut i: usize = 0;
    while i < xs.len()
        invariant
            xs@.len() == ys@.len(),
            i <= xs@.len(),
            forall|j: int| 0 <= j < i ==> token_eq(#[trigger] xs@[j], ys@[j]),
        decreases xs@.len() - i,
    {
        if !xs[i].same(&ys[i]) {
            return false;
        }
        i += 1;
    }
    true
}

/// A token tree equals every tree built from the same values.
pub proof fn lemma_token_eq_reflexive(a: MacroToken)
    ensures
        token_eq(a, a),
    decreases a,
{
    match a {
        MacroToken::Group(xs) => {
            assert forall|i: int| 0 <= i < xs@.len() implies token_eq(#[trigger] xs@[i], xs@[i]) by {
                lemma_token_eq_reflexive(xs@[i]);
            }
        },
        _ => {},
    }
}

/// Equality of token trees is symmetric.
pub proof fn lemma_token_eq_symmetric(a: MacroToken, b: MacroToken)
    requires
        token_eq(a, b),
    ensures
        token_eq(b, a),
    decreases a,
{
    match (a, b) {
        (MacroToken::Group(xs), MacroToken::Group(ys)) => {
            assert forall|i: int| 0 <= i < ys@.len() implies token_eq(#[trigger] ys@[i], xs@[i]) by {
                assert(token_eq(xs@[i], ys@[i]));
                lemma_token_eq_symmetric(xs@[i], ys@[i]);
            }
        },
        _ => {},
    }
}

/// Wrapping two trees in a group each keeps them equal or unequal as they
/// were: depth changes nothing.
pub proof fn lemma_token_eq_nested(a: MacroToken, b: MacroToken, ga: MacroToken, gb: MacroToken)
    requires
        ga matches MacroToken::Group(xs) && xs@ == seq![a],
        gb matches MacroToken::Group(ys) && ys@ == seq![b],
    ensures
        token_eq(ga, gb) == token_eq(a, b),
{
    match (ga, gb) {
        (MacroToken::Group(xs), MacroToken::Group(ys)) => {
            assert(xs@[0] == a && ys@[0] == b);
            if token_eq(ga, gb) {
                assert(token_eq(xs@[0], ys@[0]));
            }
        },
        _ => {},
    }
}

} // verus!
