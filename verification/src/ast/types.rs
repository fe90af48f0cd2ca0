//! Static types as the syntax tree describes them.

use vstd::prelude::*;
use crate::ast::expressions::Expression;
use crate::ast::{Identifier, Span};

verus! {

/// The one description of a type, used by declarations, casts, patterns and
/// function signatures alike.
#[derive(Debug)]
pub enum Type {
    I8,
    I16,
    I32,
    I64,
    I128,
    U8,
    U16,
    U32,
    U64,
    U128,
    F32,
    F64,
    Bool,
    Char,
    Str,
    Unit,
    Never,
    /// Element type, and the length where one is written.
    Array(Box<Type>, Option<Box<Expression>>),
    Slice(Box<Type>),
    Pointer(Box<Type>, Mutability),
    Reference(Box<Type>, Mutability),
    Tuple(Vec<Type>),
    /// Parameter types and return type.
    Function(Vec<Type>, Box<Type>),
    Named(TypePath),
    /// A type applied to type arguments.
    Generic(Box<Type>, Vec<Type>),
}

/// A path such as `a::b::C<T>`.
#[derive(Debug)]
pub struct TypePath {
    pub segments: Vec<TypePathSegment>,
    pub span: Span,
}

#[derive(Debug)]
pub struct TypePathSegment {
    pub ident: Identifier,
    pub generic_args: Option<Vec<Type>>,
    pub span: Span,
}

#[derive(Debug, Clone, Copy, PartialEq, Eq, Hash, Structural)]
pub enum Mutability {
    Mutable,
    Immutable,
}

impl Type {
    /// The sized integers.
    pub open spec fn integer(&self) -> bool {
        match self {
            Type::I8
            | Type::I16
            | Type::I32
            | Type::I64
            | Type::I128
            | Type::U8
            | Type::U16
            | Type::U32
            | Type::U64
            | Type::U128 => true,
            _ => false,
        }
    }

    /// The two floating-point types.
    pub open spec fn float(&self) -> bool {
        self is F32 || self is F64
    }

    /// The types built into the language: numbers, `bool`, `char`, `str`,
    /// unit and never.
    pub open spec fn primitive(&self) -> bool {
        self.integer() || self.float() || self is Bool || self is Char || self is Str
            || self is Unit || self is Never
    }

    /// The numeric types that hold negative values: signed integers and
    /// floats.
    pub open spec fn signed(&self) -> bool {
        self is I8 || self is I16 || self is I32 || self is I64 || self is I128 || self.float()
    }

    pub fn is_primitive(&self) -> (r: bool)
        ensures
            r == self.primitive(),
    {
        match self {
            Type::Array(..)
            | Type::Slice(..)
            | Type::Pointer(..)
            | Type::Reference(..)
            | Type::Tuple(..)
            | Type::Function(..)
            | Type::Named(..)
            | Type::Generic(..) => false,
            _ => true,
        }
    }

    pub fn is_numeric(&self) -> (r: bool)
        ensures
            r == (self.integer() || self.float()),
    {
        self.is_integer() || self.is_float()
    }

    pub fn is_integer(&self) -> (r: bool)
        ensures
            r == self.integer(),
    {
        match self {
            Type::I8
            | Type::I16
            | Type::I32
            | Type::I64
            | Type::I128
            | Type::U8
            | Type::U16
            | Type::U32
            | Type::U64
            | Type::U128 => true,
            _ => false,
        }
    }

    pub fn is_float(&self) -> (r: bool)
        ensures
            r == self.float(),
    {
        match self {
            Type::F32 | Type::F64 => true,
            _ => false,
        }
    }

    pub fn is_signed(&self) -> (r: bool)
        ensures
            r == self.signed(),
    {
        match self {
            Type::I8 | Type::I16 | Type::I32 | Type::I64 | Type::I128 | Type::F32 | Type::F64 => true,
            _ => false,
        }
    }
}

} // verus!
