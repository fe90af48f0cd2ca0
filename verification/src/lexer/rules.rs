//! The lexical grammar: which byte strings each token rule accepts, and which
//! rule wins where several accept a prefix of the remaining input.

use vstd::prelude::*;
use crate::lexer::Token;

verus! {

/// Space, tab, newline and form feed separate tokens and are never emitted.
pub open spec fn is_space(b: u8) -> bool {
    b == ' ' as u8 || b == 9 || b == 10 || b == 12
}

pub open spec fn is_digit(b: u8) -> bool {
    '0' as u8 <= b && b <= '9' as u8
}

pub open spec fn is_ident_start(b: u8) -> bool {
    ('a' as u8 <= b && b <= 'z' as u8) || ('A' as u8 <= b && b <= 'Z' as u8) || b == '_' as u8
}

pub open spec fn is_ident_continue(b: u8) -> bool {
    is_ident_start(b) || is_digit(b)
}

/// A byte of the form `10xxxxxx`, which continues a multi-byte code point.
pub open spec fn is_continuation(b: u8) -> bool {
    128 <= b && b < 192
}

/// Every byte of `s[lo..hi]` is a decimal digit.
pub open spec fn digits(s: Seq<u8>, lo: int, hi: int) -> bool {
    forall|i: int| lo <= i < hi ==> is_digit(#[trigger] s[i])
}

/// Every byte of `s[lo..hi]` may continue an identifier.
pub open spec fn ident_tail(s: Seq<u8>, lo: int, hi: int) -> bool {
    forall|i: int| lo <= i < hi ==> is_ident_continue(#[trigger] s[i])
}

/// Every byte of `s[lo..hi]` is whitespace.
pub open spec fn spaces(s: Seq<u8>, lo: int, hi: int) -> bool {
    forall|i: int| lo <= i < hi ==> is_space(#[trigger] s[i])
}

/// The byte `b` does not occur in `s[lo..hi]`.
pub open spec fn free_of(s: Seq<u8>, lo: int, hi: int, b: u8) -> bool {
    forall|i: int| lo <= i < hi ==> #[trigger] s[i] != b
}

/// The two bytes `*/` stand at offset `i`.
pub open spec fn closes_comment(s: Seq<u8>, i: int) -> bool {
    0 <= i && i + 1 < s.len() && s[i] == '*' as u8 && s[i + 1] == '/' as u8
}

/// No `*/` starts at an offset in `lo..hi`.
pub open spec fn unclosed(s: Seq<u8>, lo: int, hi: int) -> bool {
    forall|i: int| lo <= i < hi ==> !#[trigger] closes_comment(s, i)
}

/// Length in bytes of the code point at `pos`: its first byte and the
/// continuation bytes that follow it, three at most.
pub open spec fn code_point_len(s: Seq<u8>, pos: int) -> int {
    if pos + 1 < s.len() && is_continuation(s[pos + 1]) {
        if pos + 2 < s.len() && is_continuation(s[pos + 2]) {
            if pos + 3 < s.len() && is_continuation(s[pos + 3]) {
                4
            } else {
                3
            }
        } else {
            2
        }
    } else {
        1
    }
}

pub open spec fn lit1(s: Seq<u8>, pos: int, len: int, a: char) -> bool {
    len == 1 && s[pos] == a as u8
}

pub open spec fn lit2(s: Seq<u8>, pos: int, len: int, a: char, b: char) -> bool {
    len == 2 && s[pos] == a as u8 && s[pos + 1] == b as u8
}

pub open spec fn lit3(s: Seq<u8>, pos: int, len: int, a: char, b: char, c: char) -> bool {
    len == 3 && s[pos] == a as u8 && s[pos + 1] == b as u8 && s[pos + 2] == c as u8
}

pub open spec fn lit4(s: Seq<u8>, pos: int, len: int, a: char, b: char, c: char, d: char) -> bool {
    len == 4 && s[pos] == a as u8 && s[pos + 1] == b as u8 && s[pos + 2] == c as u8 && s[pos + 3]
        == d as u8
}

pub open spec fn lit5(
    s: Seq<u8>,
    pos: int,
    len: int,
    a: char,
    b: char,
    c: char,
    d: char,
    e: char,
) -> bool {
    len == 5 && s[pos] == a as u8 && s[pos + 1] == b as u8 && s[pos + 2] == c as u8 && s[pos + 3]
        == d as u8 && s[pos + 4] == e as u8
}

pub open spec fn lit6(
    s: Seq<u8>,
    pos: int,
    len: int,
    a: char,
    b: char,
    c: char,
    d: char,
    e: char,
    f: char,
) -> bool {
    len == 6 && s[pos] == a as u8 && s[pos + 1] == b as u8 && s[pos + 2] == c as u8 && s[pos + 3]
        == d as u8 && s[pos + 4] == e as u8 && s[pos + 5] == f as u8
}

/// The rule of token `k` accepts the `len` bytes of `s` that start at `pos`.
pub open spec fn accepts(k: Token, s: Seq<u8>, pos: int, len: int) -> bool {
    &&& 0 <= pos
    &&& 0 < len
    &&& pos + len <= s.len()
    &&& match k {
        // one or more digits
        Token::IntegerLiteral => digits(s, pos, pos + len),
        // digits, a dot, digits
        Token::FloatLiteral => exists|dot: int|
            pos < dot && dot + 1 < pos + len && #[trigger] digits(s, pos, dot) && s[dot] == '.' as u8
                && digits(s, dot + 1, pos + len),
        // a quote, bytes other than the quote, a quote
        Token::StringLiteral => len >= 2 && s[pos] == '"' as u8 && free_of(
            s,
            pos + 1,
            pos + len - 1,
            '"' as u8,
        ) && s[pos + len - 1] == '"' as u8,
        // an apostrophe, one code point other than the apostrophe, an apostrophe
        Token::CharLiteral => len == 2 + code_point_len(s, pos + 1) && s[pos] == '\'' as u8 && s[pos
            + 1] != '\'' as u8 && s[pos + len - 1] == '\'' as u8,
        // a letter or underscore, then letters, digits and underscores
        Token::Identifier => is_ident_start(s[pos]) && ident_tail(s, pos + 1, pos + len),
        // two slashes, then everything up to the end of the line
        Token::SingleLineComment => len >= 2 && s[pos] == '/' as u8 && s[pos + 1] == '/' as u8
            && free_of(s, pos + 2, pos + len, 10),
        // from `/*` to the first `*/` behind it
        Token::MultiLineComment => len >= 4 && s[pos] == '/' as u8 && s[pos + 1] == '*' as u8
            && unclosed(s, pos + 2, pos + len - 2) && closes_comment(s, pos + len - 2),
        // `#[`, bytes other than `]`, `]`
        Token::Attribute => len >= 3 && s[pos] == '#' as u8 && s[pos + 1] == '[' as u8 && free_of(
            s,
            pos + 2,
            pos + len - 1,
            ']' as u8,
        ) && s[pos + len - 1] == ']' as u8,
        Token::Var => lit3(s, pos, len, 'v', 'a', 'r'),
        Token::Mut => lit3(s, pos, len, 'm', 'u', 't'),
        Token::Fn => lit2(s, pos, len, 'f', 'n'),
        Token::Const => lit5(s, pos, len, 'c', 'o', 'n', 's', 't'),
        Token::Struct => lit6(s, pos, len, 's', 't', 'r', 'u', 'c', 't'),
        Token::Enum => lit4(s, pos, len, 'e', 'n', 'u', 'm'),
        Token::Union => lit5(s, pos, len, 'u', 'n', 'i', 'o', 'n'),
        Token::If => lit2(s, pos, len, 'i', 'f'),
        Token::Else => lit4(s, pos, len, 'e', 'l', 's', 'e'),
        Token::While => lit5(s, pos, len, 'w', 'h', 'i', 'l', 'e'),
        Token::For => lit3(s, pos, len, 'f', 'o', 'r'),
        Token::Loop => lit4(s, pos, len, 'l', 'o', 'o', 'p'),
        Token::Match => lit5(s, pos, len, 'm', 'a', 't', 'c', 'h'),
        Token::Mod => lit3(s, pos, len, 'm', 'o', 'd'),
        Token::Return => lit6(s, pos, len, 'r', 'e', 't', 'u', 'r', 'n'),
        Token::Panic => lit5(s, pos, len, 'p', 'a', 'n', 'i', 'c'),
        Token::I8 => lit2(s, pos, len, 'i', '8'),
        Token::I16 => lit3(s, pos, len, 'i', '1', '6'),
        Token::I32 => lit3(s, pos, len, 'i', '3', '2'),
        Token::I64 => lit3(s, pos, len, 'i', '6', '4'),
        Token::I128 => lit4(s, pos, len, 'i', '1', '2', '8'),
        Token::U8 => lit2(s, pos, len, 'u', '8'),
        Token::U16 => lit3(s, pos, len, 'u', '1', '6'),
        Token::U32 => lit3(s, pos, len, 'u', '3', '2'),
        Token::U64 => lit3(s, pos, len, 'u', '6', '4'),
        Token::U128 => lit4(s, pos, len, 'u', '1', '2', '8'),
        Token::F32 => lit3(s, pos, len, 'f', '3', '2'),
        Token::F64 => lit3(s, pos, len, 'f', '6', '4'),
        Token::Isize => lit5(s, pos, len, 'i', 's', 'i', 'z', 'e'),
        Token::Usize => lit5(s, pos, len, 'u', 's', 'i', 'z', 'e'),
        Token::Bool => lit4(s, pos, len, 'b', 'o', 'o', 'l'),
        Token::Char => lit4(s, pos, len, 'c', 'h', 'a', 'r'),
        Token::Str => lit3(s, pos, len, 's', 't', 'r'),
        Token::True => lit4(s, pos, len, 't', 'r', 'u', 'e'),
        Token::False => lit5(s, pos, len, 'f', 'a', 'l', 's', 'e'),
        Token::Plus => lit1(s, pos, len, '+'),
        Token::Minus => lit1(s, pos, len, '-'),
        Token::Star => lit1(s, pos, len, '*'),
        Token::Slash => lit1(s, pos, len, '/'),
        Token::Percent => lit1(s, pos, len, '%'),
        Token::Assign => lit1(s, pos, len, '='),
        Token::Eq => lit2(s, pos, len, '=', '='),
        Token::NotEq => lit2(s, pos, len, '!', '='),
        Token::Lt => lit1(s, pos, len, '<'),
        Token::LtEq => lit2(s, pos, len, '<', '='),
        Token::Gt => lit1(s, pos, len, '>'),
        Token::GtEq => lit2(s, pos, len, '>', '='),
        Token::And => lit2(s, pos, len, '&', '&'),
        Token::Or => lit2(s, pos, len, '|', '|'),
        Token::Not => lit1(s, pos, len, '!'),
        Token::BitAnd => lit1(s, pos, len, '&'),
        Token::BitOr => lit1(s, pos, len, '|'),
        Token::BitXor => lit1(s, pos, len, '^'),
        Token::BitNot => lit1(s, pos, len, '~'),
        Token::Shl => lit2(s, pos, len, '<', '<'),
        Token::Shr => lit2(s, pos, len, '>', '>'),
        Token::LParen => lit1(s, pos, len, '('),
        Token::RParen => lit1(s, pos, len, ')'),
        Token::LBrace => lit1(s, pos, len, '{'),
        Token::RBrace => lit1(s, pos, len, '}'),
        Token::LBracket => lit1(s, pos, len, '['),
        Token::RBracket => lit1(s, pos, len, ']'),
        Token::Semicolon => lit1(s, pos, len, ';'),
        Token::Colon => lit1(s, pos, len, ':'),
        Token::Comma => lit1(s, pos, len, ','),
        Token::Dot => lit1(s, pos, len, '.'),
        Token::Arrow => lit2(s, pos, len, '-', '>'),
        Token::MacroInvoke => lit1(s, pos, len, '@'),
    }
}

/// Tokens whose rule is one fixed text: keywords, type names, `true`,
/// `false`, operators and delimiters.
pub open spec fn is_exact(k: Token) -> bool {
    match k {
        Token::IntegerLiteral
        | Token::FloatLiteral
        | Token::StringLiteral
        | Token::CharLiteral
        | Token::Identifier
        | Token::SingleLineComment
        | Token::MultiLineComment
        | Token::Attribute => false,
        _ => true,
    }
}

/// Rank that settles a tie between two rules that accept the same bytes: a
/// fixed text goes before a pattern, so a keyword is never an identifier.
pub open spec fn priority(k: Token) -> int {
    if is_exact(k) {
        1
    } else {
        0
    }
}

/// A match of `k` over `len` bytes goes before a match of `k2` over `l2`
/// bytes: it is longer, or as long and of higher priority.
pub open spec fn outranks(k: Token, len: int, k2: Token, l2: int) -> bool {
    l2 < len || (l2 == len && (k2 == k || priority(k2) < priority(k)))
}

/// `k` over `len` bytes is the token at `pos`: its rule accepts these bytes,
/// and it goes before every other match at `pos`.
#[verifier::opaque]
pub open spec fn is_best(k: Token, s: Seq<u8>, pos: int, len: int) -> bool {
    &&& accepts(k, s, pos, len)
    &&& forall|k2: Token, l2: int| #[trigger] accepts(k2, s, pos, l2) ==> outranks(k, len, k2, l2)
}

/// No rule accepts any prefix of the input at `pos`.
#[verifier::opaque]
pub open spec fn no_match(s: Seq<u8>, pos: int) -> bool {
    forall|k: Token, len: int| !#[trigger] accepts(k, s, pos, len)
}

/// The whitespace skipped from `from` ends at `to`: only whitespace lies
/// between them, and `to` is the end of input or holds another byte.
pub open spec fn gap(s: Seq<u8>, from: int, to: int) -> bool {
    &&& 0 <= from <= to <= s.len()
    &&& spaces(s, from, to)
    &&& (to < s.len() ==> !is_space(s[to]))
}

/// A token is accepted by its rule, lies within the input and is not empty.
pub proof fn lemma_best_bounds(s: Seq<u8>, pos: int, k: Token, len: int)
    requires
        is_best(k, s, pos, len),
    ensures
        accepts(k, s, pos, len),
        0 <= pos < pos + len <= s.len(),
        !no_match(s, pos),
{
    reveal(is_best);
    reveal(no_match);
    assert(accepts(k, s, pos, len));
}

/// The token at a position is unique: two best matches agree in kind and length.
pub proof fn lemma_best_unique(s: Seq<u8>, pos: int, k1: Token, l1: int, k2: Token, l2: int)
    requires
        is_best(k1, s, pos, l1),
        is_best(k2, s, pos, l2),
    ensures
        k1 == k2,
        l1 == l2,
{
    reveal(is_best);
    assert(outranks(k1, l1, k2, l2));
    assert(outranks(k2, l2, k1, l1));
}

/// Whitespace starts no token.
pub proof fn lemma_space_starts_nothing(s: Seq<u8>, pos: int)
    requires
        0 <= pos < s.len(),
        is_space(s[pos]),
    ensures
        no_match(s, pos),
{
    reveal(no_match);
    assert forall|k: Token, len: int| !#[trigger] accepts(k, s, pos, len) by {
        if accepts(k, s, pos, len) {
            if k is FloatLiteral {
                let dot = choose|dot: int|
                    pos < dot && dot + 1 < pos + len && #[trigger] digits(s, pos, dot) && s[dot]
                        == '.' as u8 && digits(s, dot + 1, pos + len);
                assert(is_digit(s[pos]));
            }
            if k is IntegerLiteral {
                assert(is_digit(s[pos]));
            }
        }
    }
}

/// A string literal or an attribute that closes at `close` is the token at
/// `pos`.
pub proof fn lemma_delimited(s: Seq<u8>, pos: int, close: int, k: Token)
    requires
        0 <= pos < close < s.len(),
        k is StringLiteral || k is Attribute,
        k is StringLiteral ==> s[pos] == '"' as u8 && s[close] == '"' as u8 && free_of(
            s,
            pos + 1,
            close,
            '"' as u8,
        ),
        k is Attribute ==> pos + 1 < close && s[pos] == '#' as u8 && s[pos + 1] == '[' as u8
            && s[close] == ']' as u8 && free_of(s, pos + 2, close, ']' as u8),
    ensures
        is_best(k, s, pos, close + 1 - pos),
{
    reveal(is_best);
    assert forall|k2: Token, l2: int| #[trigger] accepts(k2, s, pos, l2) implies outranks(
        k,
        close + 1 - pos,
        k2,
        l2,
    ) by {
        lemma_first_byte(s, pos, k2, l2);
        if k2 == k {
            if pos + l2 - 1 < close {
                assert(s[pos + l2 - 1] != s[close]);
            }
            if pos + l2 - 1 > close {
                assert(s[close] != s[close]);
            }
        }
    }
}

/// Where a quote or a `#` at `pos` opens nothing that closes, no rule
/// accepts anything at `pos`.
pub proof fn lemma_undelimited(s: Seq<u8>, pos: int)
    requires
        0 <= pos < s.len(),
        s[pos] == '"' as u8 || s[pos] == '#' as u8,
        s[pos] == '"' as u8 ==> free_of(s, pos + 1, s.len() as int, '"' as u8),
        s[pos] == '#' as u8 ==> pos + 1 >= s.len() || s[pos + 1] != '[' as u8 || free_of(
            s,
            pos + 2,
            s.len() as int,
            ']' as u8,
        ),
    ensures
        no_match(s, pos),
{
    reveal(no_match);
    assert forall|k2: Token, l2: int| !#[trigger] accepts(k2, s, pos, l2) by {
        if accepts(k2, s, pos, l2) {
            lemma_first_byte(s, pos, k2, l2);
            assert(s[pos + l2 - 1] == s[pos + l2 - 1]);
        }
    }
}

/// At an apostrophe, the only rule that can accept is the character
/// literal, over the one length that the code point behind it gives.
pub proof fn lemma_char(s: Seq<u8>, pos: int)
    requires
        0 <= pos < s.len(),
        s[pos] == '\'' as u8,
    ensures
        accepts(Token::CharLiteral, s, pos, 2 + code_point_len(s, pos + 1)) ==> is_best(
            Token::CharLiteral,
            s,
            pos,
            2 + code_point_len(s, pos + 1),
        ),
        !accepts(Token::CharLiteral, s, pos, 2 + code_point_len(s, pos + 1)) ==> no_match(s, pos),
{
    reveal(is_best);
    reveal(no_match);
    assert forall|k2: Token, l2: int| #[trigger] accepts(k2, s, pos, l2) implies k2
        == Token::CharLiteral && l2 == 2 + code_point_len(s, pos + 1) by {
        lemma_first_byte(s, pos, k2, l2);
    }
}

/// A comment from `//` at `pos` to the end of the line at `end` is the
/// token at `pos`.
pub proof fn lemma_line_comment(s: Seq<u8>, pos: int, end: int)
    requires
        0 <= pos && pos + 2 <= end <= s.len(),
        s[pos] == '/' as u8,
        s[pos + 1] == '/' as u8,
        free_of(s, pos + 2, end, 10),
        end < s.len() ==> s[end] == 10,
    ensures
        is_best(Token::SingleLineComment, s, pos, end - pos),
{
    reveal(is_best);
    assert forall|k2: Token, l2: int| #[trigger] accepts(k2, s, pos, l2) implies outranks(
        Token::SingleLineComment,
        end - pos,
        k2,
        l2,
    ) by {
        lemma_first_byte(s, pos, k2, l2);
        if k2 is SingleLineComment && l2 > end - pos {
            assert(s[end] != 10);
        }
    }
}

/// A comment from `/*` at `pos` to the first `*/` behind it, at `close`, is
/// the token at `pos`.
pub proof fn lemma_block_comment(s: Seq<u8>, pos: int, close: int)
    requires
        0 <= pos && pos + 2 <= close,
        s[pos] == '/' as u8,
        s[pos + 1] == '*' as u8,
        unclosed(s, pos + 2, close),
        closes_comment(s, close),
    ensures
        is_best(Token::MultiLineComment, s, pos, close + 2 - pos),
{
    reveal(is_best);
    assert forall|k2: Token, l2: int| #[trigger] accepts(k2, s, pos, l2) implies outranks(
        Token::MultiLineComment,
        close + 2 - pos,
        k2,
        l2,
    ) by {
        lemma_first_byte(s, pos, k2, l2);
        if k2 is MultiLineComment {
            if pos + l2 - 2 < close {
                assert(!closes_comment(s, pos + l2 - 2));
            }
            if pos + l2 - 2 > close {
                assert(!closes_comment(s, close));
            }
        }
    }
}

/// A slash that opens no comment is the division operator.
pub proof fn lemma_slash(s: Seq<u8>, pos: int)
    requires
        0 <= pos < s.len(),
        s[pos] == '/' as u8,
        pos + 1 < s.len() ==> s[pos + 1] != '/' as u8,
        pos + 1 < s.len() && s[pos + 1] == '*' as u8 ==> unclosed(s, pos + 2, s.len() as int),
    ensures
        is_best(Token::Slash, s, pos, 1),
{
    reveal(is_best);
    assert forall|k2: Token, l2: int| #[trigger] accepts(k2, s, pos, l2) implies outranks(
        Token::Slash,
        1,
        k2,
        l2,
    ) by {
        lemma_first_byte(s, pos, k2, l2);
        if k2 is MultiLineComment {
            assert(!closes_comment(s, pos + l2 - 2));
        }
    }
}

/// What a rule that accepts at `pos` says of the first byte there.
pub proof fn lemma_first_byte(s: Seq<u8>, pos: int, k: Token, len: int)
    requires
        accepts(k, s, pos, len),
    ensures
        k is IntegerLiteral || k is FloatLiteral ==> is_digit(s[pos]),
        k is Identifier ==> is_ident_start(s[pos]),
{
    if k is FloatLiteral {
        let dot = choose|dot: int|
            pos < dot && dot + 1 < pos + len && #[trigger] digits(s, pos, dot) && s[dot] == '.' as u8
                && digits(s, dot + 1, pos + len);
        assert(is_digit(s[pos]));
    }
    if k is IntegerLiteral {
        assert(is_digit(s[pos]));
    }
}

/// Bytes that open a token with a closing delimiter or a comment.
pub open spec fn is_opener(b: u8) -> bool {
    b == '"' as u8 || b == '\'' as u8 || b == '#' as u8 || b == '/' as u8
}

/// Bytes at which only an operator or a delimiter can start.
pub open spec fn is_plain_symbol(b: u8) -> bool {
    !is_ident_continue(b) && !is_opener(b)
}

/// The two bytes spell one of the two-byte operators.
pub open spec fn is_operator_pair(a: u8, b: u8) -> bool {
    ||| (b == '=' as u8 && (a == '=' as u8 || a == '!' as u8 || a == '<' as u8 || a == '>' as u8))
    ||| (a == b && (a == '<' as u8 || a == '>' as u8 || a == '&' as u8 || a == '|' as u8))
    ||| (a == '-' as u8 && b == '>' as u8)
}

/// An operator is the token at `pos` unless a longer operator stands there.
pub proof fn lemma_operator(s: Seq<u8>, pos: int, k: Token, len: int)
    requires
        is_exact(k),
        accepts(k, s, pos, len),
        is_plain_symbol(s[pos]),
        len == 1 ==> !(pos + 1 < s.len() && is_operator_pair(s[pos], s[pos + 1])),
    ensures
        is_best(k, s, pos, len),
{
    reveal(is_best);
    assert forall|k2: Token, l2: int| #[trigger] accepts(k2, s, pos, l2) implies outranks(
        k,
        len,
        k2,
        l2,
    ) by {
        lemma_first_byte(s, pos, k2, l2);
    }
}

/// A byte that starts no operator and no other token starts nothing.
pub proof fn lemma_no_operator(s: Seq<u8>, pos: int)
    requires
        0 <= pos < s.len(),
        is_plain_symbol(s[pos]),
        !is_operator_start(s[pos]),
    ensures
        no_match(s, pos),
{
    reveal(no_match);
    assert forall|k2: Token, l2: int| !#[trigger] accepts(k2, s, pos, l2) by {
        if accepts(k2, s, pos, l2) {
            lemma_first_byte(s, pos, k2, l2);
        }
    }
}

/// Bytes with which an operator or a delimiter starts, the slash apart.
pub open spec fn is_operator_start(b: u8) -> bool {
    ||| b == '=' as u8
    ||| b == '!' as u8
    ||| b == '<' as u8
    ||| b == '>' as u8
    ||| b == '&' as u8
    ||| b == '|' as u8
    ||| b == '-' as u8
    ||| b == '+' as u8
    ||| b == '*' as u8
    ||| b == '%' as u8
    ||| b == '^' as u8
    ||| b == '~' as u8
    ||| b == '(' as u8
    ||| b == ')' as u8
    ||| b == '{' as u8
    ||| b == '}' as u8
    ||| b == '[' as u8
    ||| b == ']' as u8
    ||| b == ';' as u8
    ||| b == ':' as u8
    ||| b == ',' as u8
    ||| b == '.' as u8
    ||| b == '@' as u8
}

} // verus!
