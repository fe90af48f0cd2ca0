//! Canonical text of types, literals, expressions and patterns.
//!
//! Every value has one text, and a value inside another is shown by the same
//! rule as on its own: a type suffix of a literal and the length of an array
//! type read as they would alone. The text is close to source syntax;
//! operators with operands are parenthesised, so it needs no precedence.

use vstd::prelude::*;
use vstd::string::StringExecFns;
use crate::ast::expressions::{
    BinaryOperator, Expression, Literal, MatchArm, Pattern, UnaryOperator,
};
use crate::ast::types::{Mutability, Type, TypePathSegment};
use crate::ast::Identifier;

verus! {

/// `String::push` appends one character to the string.
pub assume_specification[ std::string::String::push ](s: &mut std::string::String, c: char)
    ensures
        final(s)@ == old(s)@.push(c),
;

impl BinaryOperator {
    #[verifier::when_used_as_spec(spec_symbol)]
    pub fn symbol(&self) -> (r: &'static str)
        ensures
            r == self.spec_symbol(),
    {
        match self {
            BinaryOperator::Add => "+",
            BinaryOperator::Sub => "-",
            BinaryOperator::Mul => "*",
            BinaryOperator::Div => "/",
            BinaryOperator::Rem => "%",
            BinaryOperator::And => "&&",
            BinaryOperator::Or => "||",
            BinaryOperator::BitAnd => "&",
            BinaryOperator::BitOr => "|",
            BinaryOperator::BitXor => "^",
            BinaryOperator::Shl => "<<",
            BinaryOperator::Shr => ">>",
            BinaryOperator::Eq => "==",
            BinaryOperator::NotEq => "!=",
            BinaryOperator::Lt => "<",
            BinaryOperator::LtEq => "<=",
            BinaryOperator::Gt => ">",
            BinaryOperator::GtEq => ">=",
            BinaryOperator::Assign => "=",
            BinaryOperator::AddAssign => "+=",
            BinaryOperator::SubAssign => "-=",
            BinaryOperator::MulAssign => "*=",
            BinaryOperator::DivAssign => "/=",
            BinaryOperator::RemAssign => "%=",
            BinaryOperator::BitAndAssign => "&=",
            BinaryOperator::BitOrAssign => "|=",
            BinaryOperator::BitXorAssign => "^=",
            BinaryOperator::ShlAssign => "<<=",
            BinaryOperator::ShrAssign => ">>=",
        }
    }

    /// The operator as it is written in source.
    pub open spec fn spec_symbol(&self) -> &'static str {
        match self {
            BinaryOperator::Add => "+",
            BinaryOperator::Sub => "-",
            BinaryOperator::Mul => "*",
            BinaryOperator::Div => "/",
            BinaryOperator::Rem => "%",
            BinaryOperator::And => "&&",
            BinaryOperator::Or => "||",
            BinaryOperator::BitAnd => "&",
            BinaryOperator::BitOr => "|",
            BinaryOperator::BitXor => "^",
            BinaryOperator::Shl => "<<",
            BinaryOperator::Shr => ">>",
            BinaryOperator::Eq => "==",
            BinaryOperator::NotEq => "!=",
            BinaryOperator::Lt => "<",
            BinaryOperator::LtEq => "<=",
            BinaryOperator::Gt => ">",
            BinaryOperator::GtEq => ">=",
            BinaryOperator::Assign => "=",
            BinaryOperator::AddAssign => "+=",
            BinaryOperator::SubAssign => "-=",
            BinaryOperator::MulAssign => "*=",
            BinaryOperator::DivAssign => "/=",
            BinaryOperator::RemAssign => "%=",
            BinaryOperator::BitAndAssign => "&=",
            BinaryOperator::BitOrAssign => "|=",
            BinaryOperator::BitXorAssign => "^=",
            BinaryOperator::ShlAssign => "<<=",
            BinaryOperator::ShrAssign => ">>=",
        }
    }
}

impl UnaryOperator {
    #[verifier::when_used_as_spec(spec_symbol)]
    pub fn symbol(&self) -> (r: &'static str)
        ensures
            r == self.spec_symbol(),
    {
        match self {
            UnaryOperator::Neg => "-",
            UnaryOperator::Not => "!",
            UnaryOperator::BitNot => "~",
            UnaryOperator::Deref => "*",
            UnaryOperator::Ref => "&",
            UnaryOperator::RefMut => "&mut ",
        }
    }

    /// The operator as it is written before its operand.
    pub open spec fn spec_symbol(&self) -> &'static str {
        match self {
            UnaryOperator::Neg => "-",
            UnaryOperator::Not => "!",
            UnaryOperator::BitNot => "~",
            UnaryOperator::Deref => "*",
            UnaryOperator::Ref => "&",
            UnaryOperator::RefMut => "&mut ",
        }
    }
}

/// The decimal digit `d` as a character.
pub open spec fn digit_char(d: nat) -> char {
    ('0' as u8 + d) as char
}

/// The decimal numeral of `n`, without leading zeros.
pub open spec fn decimal(n: nat) -> Seq<char>
    decreases n,
{
    if n < 10 {
        seq![digit_char(n)]
    } else {
        decimal(n / 10).push(digit_char(n % 10))
    }
}

/// The decimal numeral of `n`, with a minus sign where it is negative.
pub open spec fn integer_text(n: int) -> Seq<char> {
    if n < 0 {
        seq!['-'] + decimal((-n) as nat)
    } else {
        decimal(n as nat)
    }
}

/// A label with the colon that follows it, or nothing.
pub open spec fn label_text(label: Option<Identifier>) -> Seq<char> {
    match label {
        Some(l) => l.name@ + ": "@,
        None => Seq::empty(),
    }
}

/// The name of a built-in type; the empty text for other types.
pub open spec fn primitive_name(t: Type) -> &'static str {
    match t {
        Type::I8 => "i8",
        Type::I16 => "i16",
        Type::I32 => "i32",
        Type::I64 => "i64",
        Type::I128 => "i128",
        Type::U8 => "u8",
        Type::U16 => "u16",
        Type::U32 => "u32",
        Type::U64 => "u64",
        Type::U128 => "u128",
        Type::F32 => "f32",
        Type::F64 => "f64",
        Type::Bool => "bool",
        Type::Char => "char",
        Type::Str => "str",
        Type::Unit => "()",
        Type::Never => "!",
        _ => "",
    }
}

/// The text of a type: `i32`, `[i32]`, `[i32; 4]`, `*mut i32`, `*const i32`,
/// `&i32`, `&mut i32`, `(i32, bool)`, `fn(i32) -> bool`, `a::b::C<T>`.
pub open spec fn type_text(t: Type) -> Seq<char>
    decreases t,
{
    match t {
        Type::Array(elem, size) => "["@ + type_text(*elem) + (match size {
            Some(n) => "; "@ + expression_text(*n),
            None => Seq::empty(),
        }) + "]"@,
        Type::Slice(elem) => "["@ + type_text(*elem) + "]"@,
        Type::Pointer(to, m) => (match m {
            Mutability::Mutable => "*mut "@,
            Mutability::Immutable => "*const "@,
        }) + type_text(*to),
        Type::Reference(to, m) => (match m {
            Mutability::Mutable => "&mut "@,
            Mutability::Immutable => "&"@,
        }) + type_text(*to),
        Type::Tuple(ts) => "("@ + types_text(ts@, ts@.len() as int, ", "@) + ")"@,
        Type::Function(params, ret) => "fn("@ + types_text(params@, params@.len() as int, ", "@)
            + ") -> "@ + type_text(*ret),
        Type::Named(path) => segments_text(path.segments@, path.segments@.len() as int, "::"@),
        Type::Generic(base, args) => type_text(*base) + "<"@ + types_text(
            args@,
            args@.len() as int,
            ", "@,
        ) + ">"@,
        _ => primitive_name(t)@,
    }
}

/// A path segment: its name, then its generic arguments in angle brackets
/// where it has any.
pub open spec fn segment_text(seg: TypePathSegment) -> Seq<char>
    decreases seg,
{
    seg.ident.name@ + (match seg.generic_args {
        Some(args) => "<"@ + types_text(args@, args@.len() as int, ", "@) + ">"@,
        None => Seq::empty(),
    })
}

/// The text of a literal: a number with its type suffix where it has one, a
/// string in double quotes, a character in apostrophes, `true` or `false`,
/// an array in square brackets.
pub open spec fn literal_text(l: Literal) -> Seq<char>
    decreases l,
{
    match l {
        Literal::Integer(n, ty) => integer_text(n as int) + (match ty {
            Some(t) => type_text(t),
            None => Seq::empty(),
        }),
        Literal::Float(text, ty) => text@ + (match ty {
            Some(t) => type_text(t),
            None => Seq::empty(),
        }),
        Literal::String(s) => "\""@ + s@ + "\""@,
        Literal::Character(c) => seq!['\'', c, '\''],
        Literal::Boolean(b) => if b {
            "true"@
        } else {
            "false"@
        },
        Literal::Array(elems) => "["@ + expressions_text(elems@, elems@.len() as int, ", "@)
            + "]"@,
    }
}

/// The text of an expression.
pub open spec fn expression_text(e: Expression) -> Seq<char>
    decreases e,
{
    match e {
        Expression::Literal(l) => literal_text(l),
        Expression::Identifier(id) => id.name@,
        Expression::Binary(b) => "("@ + expression_text(b.left) + " "@ + b.operator.spec_symbol()@
            + " "@ + expression_text(b.right) + ")"@,
        Expression::Unary(u) => "("@ + u.operator.spec_symbol()@ + expression_text(u.operand)
            + ")"@,
        Expression::Call(c) => expression_text(c.callee) + "("@ + expressions_text(
            c.arguments@,
            c.arguments@.len() as int,
            ", "@,
        ) + ")"@,
        Expression::Member(m) => expression_text(m.object) + "."@ + m.member.name@,
        Expression::Index(i) => expression_text(i.array) + "["@ + expression_text(i.index) + "]"@,
        Expression::Cast(c) => "("@ + expression_text(c.expr) + " as "@ + type_text(c.target_type)
            + ")"@,
        Expression::Block(b) => "{ "@ + expressions_text(
            b.statements@,
            b.statements@.len() as int,
            "; "@,
        ) + " }"@,
        Expression::If(i) => "if "@ + expression_text(i.condition) + " "@ + expression_text(
            i.then_branch,
        ) + (match i.else_branch {
            Some(other) => " else "@ + expression_text(other),
            None => Seq::empty(),
        }),
        Expression::Match(m) => "match "@ + expression_text(m.value) + " { "@ + arms_text(
            m.arms@,
            m.arms@.len() as int,
            ", "@,
        ) + " }"@,
        Expression::Loop(l) => label_text(l.label) + "loop "@ + expression_text(l.body),
        Expression::While(w) => label_text(w.label) + "while "@ + expression_text(w.condition)
            + " "@ + expression_text(w.body),
        Expression::For(f) => label_text(f.label) + "for "@ + pattern_text(f.pattern) + " in "@
            + expression_text(f.iterator) + " "@ + expression_text(f.body),
        Expression::Range(r) => (match r.start {
            Some(from) => expression_text(from),
            None => Seq::empty(),
        }) + (if r.inclusive {
            "..="@
        } else {
            ".."@
        }) + (match r.end {
            Some(to) => expression_text(to),
            None => Seq::empty(),
        }),
        Expression::MacroInvocation(m) => "@"@ + m.name.name@ + "("@ + expressions_text(
            m.arguments@,
            m.arguments@.len() as int,
            ", "@,
        ) + ")"@,
    }
}

/// A match arm: the pattern, the guard behind `if` where there is one, an
/// arrow and the body.
pub open spec fn arm_text(arm: MatchArm) -> Seq<char>
    decreases arm,
{
    pattern_text(arm.pattern) + (match arm.guard {
        Some(g) => " if "@ + expression_text(g),
        None => Seq::empty(),
    }) + " => "@ + expression_text(arm.body)
}

/// The text of a pattern.
pub open spec fn pattern_text(p: Pattern) -> Seq<char>
    decreases p,
{
    match p {
        Pattern::Literal(l) => literal_text(l),
        Pattern::Identifier(id) => id.name@,
        Pattern::Tuple(ps) => "("@ + patterns_text(ps@, ps@.len() as int, ", "@) + ")"@,
        Pattern::Struct(name, fields) => name.name@ + " { "@ + field_patterns_text(
            fields@,
            fields@.len() as int,
            ", "@,
        ) + " }"@,
        Pattern::Or(ps) => patterns_text(ps@, ps@.len() as int, " | "@),
        Pattern::Range(lo, hi) => pattern_text(*lo) + "..="@ + pattern_text(*hi),
        Pattern::Wildcard => "_"@,
    }
}

/// A field of a struct pattern: its name, a colon and its pattern.
pub open spec fn field_pattern_text(f: (Identifier, Pattern)) -> Seq<char>
    decreases f,
{
    f.0.name@ + ": "@ + pattern_text(f.1)
}

/// The first `n` of `xs`, each shown as a type, with `sep` between them.
pub open spec fn types_text(xs: Seq<Type>, n: int, sep: Seq<char>) -> Seq<char>
    decreases xs, n,
{
    if n <= 0 || n > xs.len() {
        Seq::empty()
    } else if n == 1 {
        type_text(xs[0])
    } else {
        types_text(xs, n - 1, sep) + sep + type_text(xs[n - 1])
    }
}

/// The first `n` of `xs`, each shown as a path segment, with `sep` between them.
pub open spec fn segments_text(xs: Seq<TypePathSegment>, n: int, sep: Seq<char>) -> Seq<char>
    decreases xs, n,
{
    if n <= 0 || n > xs.len() {
        Seq::empty()
    } else if n == 1 {
        segment_text(xs[0])
    } else {
        segments_text(xs, n - 1, sep) + sep + segment_text(xs[n - 1])
    }
}

/// The first `n` of `xs`, each shown as an expression, with `sep` between them.
pub open spec fn expressions_text(xs: Seq<Expression>, n: int, sep: Seq<char>) -> Seq<char>
    decreases xs, n,
{
    if n <= 0 || n > xs.len() {
        Seq::empty()
    } else if n == 1 {
        expression_text(xs[0])
    } else {
        expressions_text(xs, n - 1, sep) + sep + expression_text(xs[n - 1])
    }
}

/// The first `n` of `xs`, each shown as a match arm, with `sep` between them.
pub open spec fn arms_text(xs: Seq<MatchArm>, n: int, sep: Seq<char>) -> Seq<char>
    decreases xs, n,
{
    if n <= 0 || n > xs.len() {
        Seq::empty()
    } else if n == 1 {
        arm_text(xs[0])
    } else {
        arms_text(xs, n - 1, sep) + sep + arm_text(xs[n - 1])
    }
}

/// The first `n` of `xs`, each shown as a pattern, with `sep` between them.
pub open spec fn patterns_text(xs: Seq<Pattern>, n: int, sep: Seq<char>) -> Seq<char>
    decreases xs, n,
{
    if n <= 0 || n > xs.len() {
        Seq::empty()
    } else if n == 1 {
        pattern_text(xs[0])
    } else {
        patterns_text(xs, n - 1, sep) + sep + pattern_text(xs[n - 1])
    }
}

/// The first `n` of `xs`, each shown as a field with its pattern, with `sep` between them.
pub open spec fn field_patterns_text(xs: Seq<(Identifier, Pattern)>, n: int, sep: Seq<char>) -> Seq<char>
    decreases xs, n,
{
    if n <= 0 || n > xs.len() {
        Seq::empty()
    } else if n == 1 {
        field_pattern_text(xs[0])
    } else {
        field_patterns_text(xs, n - 1, sep) + sep + field_pattern_text(xs[n - 1])
    }
}

fn digit(d: u8) -> (r: char)
    requires
        d < 10,
    ensures
        r == digit_char(d as nat),
{
    ('0' as u8 + d) as char
}

fn render_decimal(n: u128) -> (r: String)
    ensures
        r@ == decimal(n as nat),
    decreases n,
{
    if n < 10 {
        let mut out = String::new();
        out.push(digit(n as u8));
        assert(out@ =~= decimal(n as nat));
        out
    } else {
        let mut out = render_decimal(n / 10);
        out.push(digit((n % 10) as u8));
        out
    }
}

/// The decimal numeral of `n`.
pub fn render_integer(n: i128) -> (r: String)
    ensures
        r@ == integer_text(n as int),
{
    if n < 0 {
        let magnitude: u128 = ((-(n + 1)) as u128) + 1;
        let mut out = String::from_str("-");
        let digits = render_decimal(magnitude);
        out.append(digits.as_str());
        proof {
            reveal_strlit("-");
            assert("-"@ =~= seq!['-']);
        }
        out
    } else {
        render_decimal(n as u128)
    }
}

fn render_label(label: &Option<Identifier>) -> (r: String)
    ensures
        r@ == label_text(*label),
{
    match label {
        Some(l) => {
            let mut out = l.name.clone();
            out.append(": ");
            out
        },
        None => String::new(),
    }
}

fn primitive_str(t: &Type) -> (r: &'static str)
    ensures
        r == primitive_name(*t),
{
    match t {
        Type::I8 => "i8",
        Type::I16 => "i16",
        Type::I32 => "i32",
        Type::I64 => "i64",
        Type::I128 => "i128",
        Type::U8 => "u8",
        Type::U16 => "u16",
        Type::U32 => "u32",
        Type::U64 => "u64",
        Type::U128 => "u128",
        Type::F32 => "f32",
        Type::F64 => "f64",
        Type::Bool => "bool",
        Type::Char => "char",
        Type::Str => "str",
        Type::Unit => "()",
        Type::Never => "!",
        _ => "",
    }
}

/// The canonical text of a type.
pub fn render_type(t: &Type) -> (r: String)
    ensures
        r@ == type_text(*t),
    decreases t,
{
    match t {
        Type::Array(elem, size) => {
            let mut out = String::from_str("[");
            out.append(render_type(elem).as_str());
            match size {
                Some(n) => {
                    out.append("; ");
                    out.append(render_expression(n).as_str());
                },
                None => {},
            }
            out.append("]");
            proof {
                assert(out@ =~= type_text(*t));
            }
            out
        },
        Type::Slice(elem) => {
            let mut out = String::from_str("[");
            out.append(render_type(elem).as_str());
            out.append("]");
            out
        },
        Type::Pointer(to, m) => {
            let mut out = String::from_str(
                match m {
                    Mutability::Mutable => "*mut ",
                    Mutability::Immutable => "*const ",
                },
            );
            out.append(render_type(to).as_str());
            out
        },
        Type::Reference(to, m) => {
            let mut out = String::from_str(
                match m {
                    Mutability::Mutable => "&mut ",
                    Mutability::Immutable => "&",
                },
            );
            out.append(render_type(to).as_str());
            out
        },
        Type::Tuple(ts) => {
            let mut out = String::from_str("(");
            out.append(render_types(ts, ", ").as_str());
            out.append(")");
            out
        },
        Type::Function(params, ret) => {
            let mut out = String::from_str("fn(");
            out.append(render_types(params, ", ").as_str());
            out.append(") -> ");
            out.append(render_type(ret).as_str());
            out
        },
        Type::Named(path) => render_segments(&path.segments, "::"),
        Type::Generic(base, args) => {
            let mut out = render_type(base);
            out.append("<");
            out.append(render_types(args, ", ").as_str());
            out.append(">");
            out
        },
        _ => String::from_str(primitive_str(t)),
    }
}

fn render_segment(seg: &TypePathSegment) -> (r: String)
    ensures
        r@ == segment_text(*seg),
    decreases seg,
{
    let mut out = seg.ident.name.clone();
    match &seg.generic_args {
        Some(args) => {
            out.append("<");
            out.append(render_types(args, ", ").as_str());
            out.append(">");
        },
        None => {},
    }
    proof {
        assert(out@ =~= segment_text(*seg));
    }
    out
}

/// The canonical text of a literal.
pub fn render_literal(l: &Literal) -> (r: String)
    ensures
        r@ == literal_text(*l),
    decreases l,
{
    match l {
        Literal::Integer(n, ty) => {
            let mut out = render_integer(*n);
            match ty {
                Some(t) => {
                    out.append(render_type(t).as_str());
                },
                None => {},
            }
            proof {
                assert(out@ =~= literal_text(*l));
            }
            out
        },
        Literal::Float(text, ty) => {
            let mut out = text.clone();
            match ty {
                Some(t) => {
                    out.append(render_type(t).as_str());
                },
                None => {},
            }
            proof {
                assert(out@ =~= literal_text(*l));
            }
            out
        },
        Literal::String(s) => {
            let mut out = String::from_str("\"");
            out.append(s.as_str());
            out.append("\"");
            out
        },
        Literal::Character(c) => {
            let mut out = String::new();
            out.push('\'');
            out.push(*c);
            out.push('\'');
            proof {
                assert(out@ =~= literal_text(*l));
            }
            out
        },
        Literal::Boolean(b) => {
            if *b {
                String::from_str("true")
            } else {
                String::from_str("false")
            }
        },
        Literal::Array(elems) => {
            let mut out = String::from_str("[");
            out.append(render_expressions(elems, ", ").as_str());
            out.append("]");
            out
        },
    }
}

/// The canonical text of an expression.
pub fn render_expression(e: &Expression) -> (r: String)
    ensures
        r@ == expression_text(*e),
    decreases e,
{
    match e {
        Expression::Literal(l) => render_literal(l),
        Expression::Identifier(id) => id.name.clone(),
        Expression::Binary(b) => {
            let mut out = String::from_str("(");
            out.append(render_expression(&b.left).as_str());
            out.append(" ");
            out.append(b.operator.symbol());
            out.append(" ");
            out.append(render_expression(&b.right).as_str());
            out.append(")");
            out
        },
        Expression::Unary(u) => {
            let mut out = String::from_str("(");
            out.append(u.operator.symbol());
            out.append(render_expression(&u.operand).as_str());
            out.append(")");
            out
        },
        Expression::Call(c) => {
            let mut out = render_expression(&c.callee);
            out.append("(");
            out.append(render_expressions(&c.arguments, ", ").as_str());
            out.append(")");
            out
        },
        Expression::Member(m) => {
            let mut out = render_expression(&m.object);
            out.append(".");
            out.append(m.member.name.as_str());
            out
        },
        Expression::Index(i) => {
            let mut out = render_expression(&i.array);
            out.append("[");
            out.append(render_expression(&i.index).as_str());
            out.append("]");
            out
        },
        Expression::Cast(c) => {
            let mut out = String::from_str("(");
            out.append(render_expression(&c.expr).as_str());
            out.append(" as ");
            out.append(render_type(&c.target_type).as_str());
            out.append(")");
            out
        },
        Expression::Block(b) => {
            let mut out = String::from_str("{ ");
            out.append(render_expressions(&b.statements, "; ").as_str());
            out.append(" }");
            out
        },
        Expression::If(i) => {
            let mut out = String::from_str("if ");
            out.append(render_expression(&i.condition).as_str());
            out.append(" ");
            out.append(render_expression(&i.then_branch).as_str());
            match &i.else_branch {
                Some(other) => {
                    out.append(" else ");
                    out.append(render_expression(other).as_str());
                },
                None => {},
            }
            proof {
                assert(out@ =~= expression_text(*e));
            }
            out
        },
        Expression::Match(m) => {
            let mut out = String::from_str("match ");
            out.append(render_expression(&m.value).as_str());
            out.append(" { ");
            out.append(render_arms(&m.arms, ", ").as_str());
            out.append(" }");
            out
        },
        Expression::Loop(l) => {
            let mut out = render_label(&l.label);
            out.append("loop ");
            out.append(render_expression(&l.body).as_str());
            out
        },
        Expression::While(w) => {
            let mut out = render_label(&w.label);
            out.append("while ");
            out.append(render_expression(&w.condition).as_str());
            out.append(" ");
            out.append(render_expression(&w.body).as_str());
            out
        },
        Expression::For(f) => {
            let mut out = render_label(&f.label);
            out.append("for ");
            out.append(render_pattern(&f.pattern).as_str());
            out.append(" in ");
            out.append(render_expression(&f.iterator).as_str());
            out.append(" ");
            out.append(render_expression(&f.body).as_str());
            out
        },
        Expression::Range(r) => {
            let mut out = match &r.start {
                Some(from) => render_expression(from),
                None => String::new(),
            };
            out.append(
                if r.inclusive {
                    "..="
                } else {
                    ".."
                },
            );
            match &r.end {
                Some(to) => {
                    out.append(render_expression(to).as_str());
                },
                None => {},
            }
            proof {
                assert(out@ =~= expression_text(*e));
            }
            out
        },
        Expression::MacroInvocation(m) => {
            let mut out = String::from_str("@");
            out.append(m.name.name.as_str());
            out.append("(");
            out.append(render_expressions(&m.arguments, ", ").as_str());
            out.append(")");
            out
        },
    }
}

fn render_arm(arm: &MatchArm) -> (r: String)
    ensures
        r@ == arm_text(*arm),
    decreases arm,
{
    let mut out = render_pattern(&arm.pattern);
    match &arm.guard {
        Some(g) => {
            out.append(" if ");
            out.append(render_expression(g).as_str());
        },
        None => {},
    }
    out.append(" => ");
    out.append(render_expression(&arm.body).as_str());
    proof {
        assert(out@ =~= arm_text(*arm));
    }
    out
}

/// The canonical text of a pattern.
pub fn render_pattern(p: &Pattern) -> (r: String)
    ensures
        r@ == pattern_text(*p),
    decreases p,
{
    match p {
        Pattern::Literal(l) => render_literal(l),
        Pattern::Identifier(id) => id.name.clone(),
        Pattern::Tuple(ps) => {
            let mut out = String::from_str("(");
            out.append(render_patterns(ps, ", ").as_str());
            out.append(")");
            out
        },
        Pattern::Struct(name, fields) => {
            let mut out = name.name.clone();
            out.append(" { ");
            out.append(render_field_patterns(fields, ", ").as_str());
            out.append(" }");
            out
        },
        Pattern::Or(ps) => render_patterns(ps, " | "),
        Pattern::Range(lo, hi) => {
            let mut out = render_pattern(lo);
            out.append("..=");
            out.append(render_pattern(hi).as_str());
            out
        },
        Pattern::Wildcard => String::from_str("_"),
    }
}

fn render_field_pattern(f: &(Identifier, Pattern)) -> (r: String)
    ensures
        r@ == field_pattern_text(*f),
    decreases f,
{
    let mut out = f.0.name.clone();
    out.append(": ");
    out.append(render_pattern(&f.1).as_str());
    out
}

fn render_types(xs: &Vec<Type>, sep: &str) -> (r: String)
    ensures
        r@ == types_text(xs@, xs@.len() as int, sep@),
    decreases xs,
{
    let mut out = String::new();
    let mut i: usize = 0;
    while i < xs.len()
        invariant
            i <= xs@.len(),
            out@ == types_text(xs@, i as int, sep@),
        decreases xs@.len() - i,
    {
        if i > 0 {
            out.append(sep);
        }
        let one = render_type(&xs[i]);
        out.append(one.as_str());
        i += 1;
    }
    out
}

fn render_segments(xs: &Vec<TypePathSegment>, sep: &str) -> (r: String)
    ensures
        r@ == segments_text(xs@, xs@.len() as int, sep@),
    decreases xs,
{
    let mut out = String::new();
    let mut i: usize = 0;
    while i < xs.len()
        invariant
            i <= xs@.len(),
            out@ == segments_text(xs@, i as int, sep@),
        decreases xs@.len() - i,
    {
        if i > 0 {
            out.append(sep);
        }
        let one = render_segment(&xs[i]);
        out.append(one.as_str());
        i += 1;
    }
    out
}

fn render_expressions(xs: &Vec<Expression>, sep: &str) -> (r: String)
    ensures
        r@ == expressions_text(xs@, xs@.len() as int, sep@),
    decreases xs,
{
    let mut out = String::new();
    let mut i: usize = 0;
    while i < xs.len()
        invariant
            i <= xs@.len(),
            out@ == expressions_text(xs@, i as int, sep@),
        decreases xs@.len() - i,
    {
        if i > 0 {
            out.append(sep);
        }
        let one = render_expression(&xs[i]);
        out.append(one.as_str());
        i += 1;
    }
    out
}

fn render_arms(xs: &Vec<MatchArm>, sep: &str) -> (r: String)
    ensures
        r@ == arms_text(xs@, xs@.len() as int, sep@),
    decreases xs,
{
    let mut out = String::new();
    let mut i: usize = 0;
    while i < xs.len()
        invariant
            i <= xs@.len(),
            out@ == arms_text(xs@, i as int, sep@),
        decreases xs@.len() - i,
    {
        if i > 0 {
            out.append(sep);
        }
        let one = render_arm(&xs[i]);
        out.append(one.as_str());
        i += 1;
    }
    out
}

fn render_patterns(xs: &Vec<Pattern>, sep: &str) -> (r: String)
    ensures
        r@ == patterns_text(xs@, xs@.len() as int, sep@),
    decreases xs,
{
    let mut out = String::new();
    let mut i: usize = 0;
    while i < xs.len()
        invariant
            i <= xs@.len(),
            out@ == patterns_text(xs@, i as int, sep@),
        decreases xs@.len() - i,
    {
        if i > 0 {
            out.append(sep);
        }
        let one = render_pattern(&xs[i]);
        out.append(one.as_str());
        i += 1;
    }
    out
}

fn render_field_patterns(xs: &Vec<(Identifier, Pattern)>, sep: &str) -> (r: String)
    ensures
        r@ == field_patterns_text(xs@, xs@.len() as int, sep@),
    decreases xs,
{
    let mut out = String::new();
    let mut i: usize = 0;
    while i < xs.len()
        invariant
            i <= xs@.len(),
            out@ == field_patterns_text(xs@, i as int, sep@),
        decreases xs@.len() - i,
    {
        if i > 0 {
            out.append(sep);
        }
        let one = render_field_pattern(&xs[i]);
        out.append(one.as_str());
        i += 1;
    }
    out
}

impl Type {
    /// The canonical text of the type.
    pub fn render(&self) -> (r: String)
        ensures
            r@ == type_text(*self),
    {
        render_type(self)
    }
}

impl Literal {
    /// The canonical text of the literal.
    pub fn render(&self) -> (r: String)
        ensures
            r@ == literal_text(*self),
    {
        render_literal(self)
    }
}

impl Expression {
    /// The canonical text of the expression.
    pub fn render(&self) -> (r: String)
        ensures
            r@ == expression_text(*self),
    {
        render_expression(self)
    }
}

impl Pattern {
    /// The canonical text of the pattern.
    pub fn render(&self) -> (r: String)
        ensures
            r@ == pattern_text(*self),
    {
        render_pattern(self)
    }
}

} // verus!
