//! The tokenizer: from source bytes to classified lexemes.

use vstd::prelude::*;
use vstd::string::StringExecFns;
use vstd::string::StringSliceAdditionalSpecFns;
use crate::lexer::rules::{
    code_point_len, gap, is_best, is_space, lemma_best_bounds, lemma_best_unique, no_match, spaces,
};
use crate::lexer::scan::{scan_token, skip_spaces};

pub mod rules;
pub mod scan;

verus! {

/// The kinds of token. A token's text is found through its span.
#[derive(Debug, Clone, Copy, PartialEq, Eq, Hash, Structural)]
pub enum Token {
    Var,
    Mut,
    Fn,
    Const,
    Struct,
    Enum,
    Union,
    If,
    Else,
    While,
    For,
    Loop,
    Match,
    Mod,
    Return,
    Panic,
    I8,
    I16,
    I32,
    I64,
    I128,
    U8,
    U16,
    U32,
    U64,
    U128,
    F32,
    F64,
    Isize,
    Usize,
    Bool,
    Char,
    Str,
    IntegerLiteral,
    FloatLiteral,
    StringLiteral,
    CharLiteral,
    True,
    False,
    Identifier,
    Plus,
    Minus,
    Star,
    Slash,
    Percent,
    Assign,
    Eq,
    NotEq,
    Lt,
    LtEq,
    Gt,
    GtEq,
    And,
    Or,
    Not,
    BitAnd,
    BitOr,
    BitXor,
    BitNot,
    Shl,
    Shr,
    LParen,
    RParen,
    LBrace,
    RBrace,
    LBracket,
    RBracket,
    Semicolon,
    Colon,
    Comma,
    Dot,
    Arrow,
    SingleLineComment,
    MultiLineComment,
    Attribute,
    MacroInvoke,
}

/// A stretch of input that no rule accepts: the one code point that the
/// tokenizer steps over before it goes on.
#[derive(Debug, Clone, Copy, PartialEq, Eq, Hash, Structural)]
pub struct LexError {
    /// Byte offset at which nothing could be recognised.
    pub start: usize,
    /// Byte offset at which scanning goes on.
    pub end: usize,
}

/// One entry of a tokenization: a token or a lexical error, with the bytes
/// `start..end` that it covers.
#[derive(Debug, Clone, Copy, PartialEq, Eq, Hash)]
pub struct Lexeme {
    pub kind: Result<Token, LexError>,
    pub start: usize,
    pub end: usize,
}

/// A cursor over source bytes that hands out one token per call.
pub struct Lexer<'a> {
    input: &'a [u8],
    start: usize,
    end: usize,
}

impl Token {
    /// A tokenizer at the start of `source`.
    pub fn lexer(source: &str) -> (r: Lexer<'_>)
        ensures
            r.wf(),
            r.source() == source.spec_bytes(),
            r.token_start() == 0,
            r.offset() == 0,
    {
        Lexer::new(source.as_bytes())
    }

    /// The text by which a token is shown: the variant's name for keywords,
    /// type names, literals and comments, the symbol itself for operators and
    /// delimiters.
    pub open spec fn text(self) -> Seq<char> {
        self.name()@
    }

    #[verifier::when_used_as_spec(spec_name)]
    pub fn name(&self) -> (r: &'static str)
        ensures
            r == self.spec_name(),
    {
        match self {
            Token::Var => "Var",
            Token::Mut => "Mut",
            Token::Fn => "Fn",
            Token::Const => "Const",
            Token::Struct => "Struct",
            Token::Enum => "Enum",
            Token::Union => "Union",
            Token::If => "If",
            Token::Else => "Else",
            Token::While => "While",
            Token::For => "For",
            Token::Loop => "Loop",
            Token::Match => "Match",
            Token::Mod => "Mod",
            Token::Return => "Return",
            Token::Panic => "Panic",
            Token::I8 => "I8",
            Token::I16 => "I16",
            Token::I32 => "I32",
            Token::I64 => "I64",
            Token::I128 => "I128",
            Token::U8 => "U8",
            Token::U16 => "U16",
            Token::U32 => "U32",
            Token::U64 => "U64",
            Token::U128 => "U128",
            Token::F32 => "F32",
            Token::F64 => "F64",
            Token::Isize => "Isize",
            Token::Usize => "Usize",
            Token::Bool => "Bool",
            Token::Char => "Char",
            Token::Str => "Str",
            Token::IntegerLiteral => "IntegerLiteral",
            Token::FloatLiteral => "FloatLiteral",
            Token::StringLiteral => "StringLiteral",
            Token::CharLiteral => "CharLiteral",
            Token::True => "True",
            Token::False => "False",
            Token::Identifier => "Identifier",
            Token::Plus => "+",
            Token::Minus => "-",
            Token::Star => "*",
            Token::Slash => "/",
            Token::Percent => "%",
            Token::Assign => "=",
            Token::Eq => "==",
            Token::NotEq => "!=",
            Token::Lt => "<",
            Token::LtEq => "<=",
            Token::Gt => ">",
            Token::GtEq => ">=",
            Token::And => "&&",
            Token::Or => "||",
            Token::Not => "!",
            Token::BitAnd => "&",
            Token::BitOr => "|",
            Token::BitXor => "^",
            Token::BitNot => "~",
            Token::Shl => "<<",
            Token::Shr => ">>",
            Token::LParen => "(",
            Token::RParen => ")",
            Token::LBrace => "{",
            Token::RBrace => "}",
            Token::LBracket => "[",
            Token::RBracket => "]",
            Token::Semicolon => ";",
            Token::Colon => ":",
            Token::Comma => ",",
            Token::Dot => ".",
            Token::Arrow => "->",
            Token::SingleLineComment => "SingleLineComment",
            Token::MultiLineComment => "MultiLineComment",
            Token::Attribute => "Attribute",
            Token::MacroInvoke => "@",
        }
    }

    pub open spec fn spec_name(&self) -> &'static str {
        match self {
            Token::Var => "Var",
            Token::Mut => "Mut",
            Token::Fn => "Fn",
            Token::Const => "Const",
            Token::Struct => "Struct",
            Token::Enum => "Enum",
            Token::Union => "Union",
            Token::If => "If",
            Token::Else => "Else",
            Token::While => "While",
            Token::For => "For",
            Token::Loop => "Loop",
            Token::Match => "Match",
            Token::Mod => "Mod",
            Token::Return => "Return",
            Token::Panic => "Panic",
            Token::I8 => "I8",
            Token::I16 => "I16",
            Token::I32 => "I32",
            Token::I64 => "I64",
            Token::I128 => "I128",
            Token::U8 => "U8",
            Token::U16 => "U16",
            Token::U32 => "U32",
            Token::U64 => "U64",
            Token::U128 => "U128",
            Token::F32 => "F32",
            Token::F64 => "F64",
            Token::Isize => "Isize",
            Token::Usize => "Usize",
            Token::Bool => "Bool",
            Token::Char => "Char",
            Token::Str => "Str",
            Token::IntegerLiteral => "IntegerLiteral",
            Token::FloatLiteral => "FloatLiteral",
            Token::StringLiteral => "StringLiteral",
            Token::CharLiteral => "CharLiteral",
            Token::True => "True",
            Token::False => "False",
            Token::Identifier => "Identifier",
            Token::Plus => "+",
            Token::Minus => "-",
            Token::Star => "*",
            Token::Slash => "/",
            Token::Percent => "%",
            Token::Assign => "=",
            Token::Eq => "==",
            Token::NotEq => "!=",
            Token::Lt => "<",
            Token::LtEq => "<=",
            Token::Gt => ">",
            Token::GtEq => ">=",
            Token::And => "&&",
            Token::Or => "||",
            Token::Not => "!",
            Token::BitAnd => "&",
            Token::BitOr => "|",
            Token::BitXor => "^",
            Token::BitNot => "~",
            Token::Shl => "<<",
            Token::Shr => ">>",
            Token::LParen => "(",
            Token::RParen => ")",
            Token::LBrace => "{",
            Token::RBrace => "}",
            Token::LBracket => "[",
            Token::RBracket => "]",
            Token::Semicolon => ";",
            Token::Colon => ":",
            Token::Comma => ",",
            Token::Dot => ".",
            Token::Arrow => "->",
            Token::SingleLineComment => "SingleLineComment",
            Token::MultiLineComment => "MultiLineComment",
            Token::Attribute => "Attribute",
            Token::MacroInvoke => "@",
        }
    }

    /// The token's text as an owned string.
    pub fn render(&self) -> (r: String)
        ensures
            r@ == self.text(),
    {
        String::from_str(self.name())
    }
}

impl<'a> Lexer<'a> {
    /// The bytes being tokenized.
    pub closed spec fn source(&self) -> Seq<u8> {
        self.input@
    }

    /// Offset at which the token handed out last starts.
    pub closed spec fn token_start(&self) -> int {
        self.start as int
    }

    /// Offset behind the token handed out last, where scanning goes on.
    pub closed spec fn offset(&self) -> int {
        self.end as int
    }

    /// The cursor lies within the input, behind the start of the last token.
    pub open spec fn wf(&self) -> bool {
        0 <= self.token_start() <= self.offset() <= self.source().len()
    }

    /// A tokenizer at the start of `input`.
    pub fn new(input: &'a [u8]) -> (r: Self)
        ensures
            r.wf(),
            r.source() == input@,
            r.token_start() == 0,
            r.offset() == 0,
    {
        Lexer { input, start: 0, end: 0 }
    }

    /// The bytes `start..end` of the token handed out last.
    pub fn span(&self) -> (r: (usize, usize))
        ensures
            r.0 == self.token_start(),
            r.1 == self.offset(),
    {
        (self.start, self.end)
    }

    /// The next token: whitespace is skipped, then the longest match wins,
    /// a fixed text before a pattern where two are as long. Where nothing
    /// matches, the result is an error over one code point, and the call
    /// after it goes on behind that. `None` at the end of input.
    pub fn next(&mut self) -> (r: Option<Result<Token, LexError>>)
        requires
            old(self).wf(),
        ensures
            final(self).wf(),
            final(self).source() == old(self).source(),
            gap(old(self).source(), old(self).offset(), final(self).token_start()),
            follows(final(self).source(), final(self).token_start(), final(self).offset(), r),
    {
        let start = skip_spaces(self.input, self.end);
        self.start = start;
        if start >= self.input.len() {
            self.end = start;
            return None;
        }
        let (kind, end) = scan_token(self.input, start);
        self.end = end;
        match kind {
            Some(k) => Some(Ok(k)),
            None => Some(Err(LexError { start, end })),
        }
    }
}

/// What `r` must be where the bytes of `s` from `start` hold no whitespace at
/// their head and the token found there ends at `end`.
pub open spec fn follows(
    s: Seq<u8>,
    start: int,
    end: int,
    r: Option<Result<Token, LexError>>,
) -> bool {
    match r {
        None => start == s.len() && end == s.len(),
        Some(found) => {
            &&& 0 <= start < end <= s.len()
            &&& match found {
                Ok(k) => is_best(k, s, start, end - start),
                Err(e) => {
                    &&& no_match(s, start)
                    &&& end == start + code_point_len(s, start)
                    &&& e.start == start
                    &&& e.end == end
                },
            }
        },
    }
}

/// Offset at which the first `n` lexemes of `toks` end.
pub open spec fn end_of(toks: Seq<Lexeme>, n: int) -> int {
    if n <= 0 {
        0
    } else {
        toks[n - 1].end as int
    }
}

/// `toks` is the tokenization of `s`: each lexeme is what follows the one
/// before it, only whitespace lies between them, and behind the last there is
/// nothing but whitespace.
pub open spec fn tokenization(s: Seq<u8>, toks: Seq<Lexeme>) -> bool {
    &&& forall|i: int| 0 <= i < toks.len() ==> #[trigger] is_next(s, toks, i)
    &&& gap(s, end_of(toks, toks.len() as int), s.len() as int)
}

/// Lexeme `i` of `toks` is what follows lexeme `i - 1`: the whitespace behind
/// that one ends where it starts, before the end of input, and it is the
/// token, or the error, found there.
pub open spec fn is_next(s: Seq<u8>, toks: Seq<Lexeme>, i: int) -> bool {
    &&& gap(s, end_of(toks, i), toks[i].start as int)
    &&& toks[i].start < s.len()
    &&& follows(s, toks[i].start as int, toks[i].end as int, Some(toks[i].kind))
}

/// All tokens and lexical errors of `input`, in order.
pub fn tokenize(input: &[u8]) -> (r: Vec<Lexeme>)
    ensures
        tokenization(input@, r@),
{
    let mut lexer = Lexer::new(input);
    let mut out: Vec<Lexeme> = Vec::new();
    loop
        invariant
            lexer.wf(),
            lexer.source() == input@,
            lexer.offset() == end_of(out@, out@.len() as int),
            forall|i: int| 0 <= i < out@.len() ==> #[trigger] is_next(input@, out@, i),
        decreases input@.len() - lexer.offset(),
    {
        let ghost before = out@;
        match lexer.next() {
            None => {
                return out;
            },
            Some(kind) => {
                let (start, end) = lexer.span();
                out.push(Lexeme { kind, start, end });
                proof {
                    assert forall|i: int| 0 <= i < out@.len() implies #[trigger] is_next(
                        input@,
                        out@,
                        i,
                    ) by {
                        if i < before.len() {
                            assert(is_next(input@, before, i));
                            assert(out@[i] == before[i]);
                            assert(end_of(out@, i) == end_of(before, i));
                        }
                    }
                }
            },
        }
    }
}

/// The input read as pieces: before each of the first `n` lexemes the
/// whitespace skipped to reach it, then the lexeme's own bytes.
pub open spec fn pieces(s: Seq<u8>, toks: Seq<Lexeme>, n: int) -> Seq<u8>
    decreases n,
{
    if n <= 0 {
        Seq::empty()
    } else {
        pieces(s, toks, n - 1) + s.subrange(end_of(toks, n - 1), toks[n - 1].start as int)
            + s.subrange(toks[n - 1].start as int, toks[n - 1].end as int)
    }
}

/// The pieces of the first `n` lexemes make up the input as far as the
/// `n`-th lexeme ends.
pub proof fn lemma_pieces_prefix(s: Seq<u8>, toks: Seq<Lexeme>, n: int)
    requires
        tokenization(s, toks),
        0 <= n <= toks.len(),
    ensures
        0 <= end_of(toks, n) <= s.len(),
        pieces(s, toks, n) == s.subrange(0, end_of(toks, n)),
    decreases n,
{
    if n > 0 {
        lemma_pieces_prefix(s, toks, n - 1);
        let t = toks[n - 1];
        assert(is_next(s, toks, n - 1));
        assert(pieces(s, toks, n) =~= s.subrange(0, end_of(toks, n)));
    } else {
        assert(pieces(s, toks, n) =~= s.subrange(0, 0));
    }
}

/// Coverage: the spans of the lexemes and of the whitespace skipped between
/// them, put end to end, are the input, with no gap and no overlap; and what
/// was skipped is whitespace.
pub proof fn lemma_spans_cover_input(s: Seq<u8>, toks: Seq<Lexeme>)
    requires
        tokenization(s, toks),
    ensures
        pieces(s, toks, toks.len() as int) + s.subrange(
            end_of(toks, toks.len() as int),
            s.len() as int,
        ) == s,
        forall|i: int|
            0 <= i < toks.len() ==> end_of(toks, i) <= (#[trigger] toks[i]).start < toks[i].end
                <= s.len() && spaces(s, end_of(toks, i), toks[i].start as int),
        spaces(s, end_of(toks, toks.len() as int), s.len() as int),
{
    let n = toks.len() as int;
    lemma_pieces_prefix(s, toks, n);
    assert(s.subrange(0, end_of(toks, n)) + s.subrange(end_of(toks, n), s.len() as int) =~= s);
    assert forall|i: int| 0 <= i < toks.len() implies end_of(toks, i) <= (#[trigger] toks[i]).start
        < toks[i].end <= s.len() && spaces(s, end_of(toks, i), toks[i].start as int) by {
        let t = toks[i];
        assert(is_next(s, toks, i));
    }
}

/// A text has one tokenization.
pub proof fn lemma_tokenization_unique(s: Seq<u8>, a: Seq<Lexeme>, b: Seq<Lexeme>)
    requires
        tokenization(s, a),
        tokenization(s, b),
    ensures
        a == b,
{
    lemma_same_prefix(s, a, b, a.len() as int);
    lemma_same_prefix(s, b, a, b.len() as int);
    assert(a =~= b);
}

/// Two tokenizations of a text agree on the first `n` lexemes of the first.
pub proof fn lemma_same_prefix(s: Seq<u8>, a: Seq<Lexeme>, b: Seq<Lexeme>, n: int)
    requires
        tokenization(s, a),
        tokenization(s, b),
        0 <= n <= a.len(),
    ensures
        n <= b.len(),
        forall|i: int| 0 <= i < n ==> a[i] == b[i],
    decreases n,
{
    if n > 0 {
        lemma_same_prefix(s, a, b, n - 1);
        let i = n - 1;
        let t = a[i];
        assert(end_of(a, i) == end_of(b, i)) by {
            if i > 0 {
                assert(a[i - 1] == b[i - 1]);
            }
        }
        assert(is_next(s, a, i));
        if b.len() <= i {
            assert(gap(s, end_of(b, b.len() as int), s.len() as int));
            assert(is_space(s[t.start as int]));
        } else {
            let u = b[i];
            assert(is_next(s, b, i));
            lemma_same_lexeme(s, end_of(a, i), t, u);
        }
    }
}

/// Behind a given offset there is one next lexeme.
pub proof fn lemma_same_lexeme(s: Seq<u8>, from: int, t: Lexeme, u: Lexeme)
    requires
        gap(s, from, t.start as int),
        gap(s, from, u.start as int),
        t.start < s.len(),
        u.start < s.len(),
        follows(s, t.start as int, t.end as int, Some(t.kind)),
        follows(s, u.start as int, u.end as int, Some(u.kind)),
    ensures
        t == u,
{
    assert(t.start == u.start) by {
        if t.start < u.start {
            assert(is_space(s[t.start as int]));
        }
        if u.start < t.start {
            assert(is_space(s[u.start as int]));
        }
    }
    match (t.kind, u.kind) {
        (Ok(k1), Ok(k2)) => {
            lemma_best_unique(s, t.start as int, k1, t.end - t.start, k2, u.end - u.start);
        },
        (Ok(k1), Err(_)) => {
            lemma_best_bounds(s, t.start as int, k1, t.end - t.start);
        },
        (Err(_), Ok(k2)) => {
            lemma_best_bounds(s, u.start as int, k2, u.end - u.start);
        },
        (Err(e1), Err(e2)) => {
            assert(e1 == e2);
        },
    }
}

} // verus!
