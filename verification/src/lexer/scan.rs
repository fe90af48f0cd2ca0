//! Scanning: the executable side of the grammar.

use vstd::prelude::*;
use crate::lexer::Token;
use crate::lexer::rules::{
    accepts, closes_comment, code_point_len, digits, free_of, gap, ident_tail, is_best, is_digit,
    is_exact, is_ident_continue, is_ident_start, is_opener, is_operator_pair, is_plain_symbol,
    is_space, lemma_block_comment, lemma_char, lemma_delimited, lemma_line_comment,
    lemma_no_operator, lemma_operator, lemma_slash, lemma_undelimited, no_match, outranks,
    spaces, unclosed,
};

verus! {

pub fn is_space_byte(b: u8) -> (r: bool)
    ensures
        r == is_space(b),
{
    b == ' ' as u8 || b == 9 || b == 10 || b == 12
}

pub fn is_digit_byte(b: u8) -> (r: bool)
    ensures
        r == is_digit(b),
{
    '0' as u8 <= b && b <= '9' as u8
}

pub fn is_ident_start_byte(b: u8) -> (r: bool)
    ensures
        r == is_ident_start(b),
{
    ('a' as u8 <= b && b <= 'z' as u8) || ('A' as u8 <= b && b <= 'Z' as u8) || b == '_' as u8
}

/// End of the run of whitespace that starts at `from`.
pub fn skip_spaces(input: &[u8], from: usize) -> (end: usize)
    requires
        from <= input@.len(),
    ensures
        gap(input@, from as int, end as int),
{
    let mut i: usize = from;
    while i < input.len() && is_space_byte(input[i])
        invariant
            from <= i <= input@.len(),
            spaces(input@, from as int, i as int),
        decreases input@.len() - i,
    {
        i += 1;
    }
    i
}

/// End of the run of digits that starts at `from`.
fn scan_digits(input: &[u8], from: usize) -> (end: usize)
    requires
        from <= input@.len(),
    ensures
        from <= end <= input@.len(),
        digits(input@, from as int, end as int),
        end < input@.len() ==> !is_digit(input@[end as int]),
{
    let mut i: usize = from;
    while i < input.len() && is_digit_byte(input[i])
        invariant
            from <= i <= input@.len(),
            digits(input@, from as int, i as int),
        decreases input@.len() - i,
    {
        i += 1;
    }
    i
}

/// End of the run of identifier bytes that starts at `from`.
fn scan_ident_tail(input: &[u8], from: usize) -> (end: usize)
    requires
        from <= input@.len(),
    ensures
        from <= end <= input@.len(),
        ident_tail(input@, from as int, end as int),
        end < input@.len() ==> !is_ident_continue(input@[end as int]),
{
    let mut i: usize = from;
    while i < input.len() && (is_ident_start_byte(input[i]) || is_digit_byte(input[i]))
        invariant
            from <= i <= input@.len(),
            ident_tail(input@, from as int, i as int),
        decreases input@.len() - i,
    {
        i += 1;
    }
    i
}

/// Offset of the first `stop` at or behind `from`, or the end of input.
fn scan_until(input: &[u8], from: usize, stop: u8) -> (end: usize)
    requires
        from <= input@.len(),
    ensures
        from <= end <= input@.len(),
        free_of(input@, from as int, end as int, stop),
        end < input@.len() ==> input@[end as int] == stop,
{
    let mut i: usize = from;
    while i < input.len() && input[i] != stop
        invariant
            from <= i <= input@.len(),
            free_of(input@, from as int, i as int, stop),
        decreases input@.len() - i,
    {
        i += 1;
    }
    i
}

/// Offset of the first `*/` at or behind `from`, or the end of input.
fn scan_comment_close(input: &[u8], from: usize) -> (end: usize)
    requires
        from <= input@.len(),
    ensures
        from <= end <= input@.len(),
        unclosed(input@, from as int, end as int),
        end < input@.len() ==> closes_comment(input@, end as int),
{
    let n = input.len();
    let mut i: usize = from;
    while i < n
        invariant
            n == input@.len(),
            from <= i <= n,
            unclosed(input@, from as int, i as int),
        decreases n - i,
    {
        if input[i] == '*' as u8 && i + 1 < n && input[i + 1] == '/' as u8 {
            return i;
        }
        i += 1;
    }
    n
}

/// End of the code point that starts at `pos`.
fn code_point_end(input: &[u8], pos: usize) -> (end: usize)
    requires
        pos < input@.len(),
    ensures
        end == pos + code_point_len(input@, pos as int),
        pos < end <= input@.len(),
{
    let n = input.len();
    let mut end: usize = pos + 1;
    if end < n && 128 <= input[end] && input[end] < 192 {
        end += 1;
        if end < n && 128 <= input[end] && input[end] < 192 {
            end += 1;
            if end < n && 128 <= input[end] && input[end] < 192 {
                end += 1;
            }
        }
    }
    end
}

fn is2(input: &[u8], pos: usize, a: u8, b: u8) -> (r: bool)
    requires
        pos + 2 <= input@.len(),
    ensures
        r == (input@[pos as int] == a && input@[pos + 1] == b),
{
    input[pos] == a && input[pos + 1] == b
}

fn is3(input: &[u8], pos: usize, a: u8, b: u8, c: u8) -> (r: bool)
    requires
        pos + 3 <= input@.len(),
    ensures
        r == (input@[pos as int] == a && input@[pos + 1] == b && input@[pos + 2] == c),
{
    input[pos] == a && input[pos + 1] == b && input[pos + 2] == c
}

fn is4(input: &[u8], pos: usize, a: u8, b: u8, c: u8, d: u8) -> (r: bool)
    requires
        pos + 4 <= input@.len(),
    ensures
        r == (input@[pos as int] == a && input@[pos + 1] == b && input@[pos + 2] == c && input@[pos
            + 3] == d),
{
    input[pos] == a && input[pos + 1] == b && input[pos + 2] == c && input[pos + 3] == d
}

fn is5(input: &[u8], pos: usize, a: u8, b: u8, c: u8, d: u8, e: u8) -> (r: bool)
    requires
        pos + 5 <= input@.len(),
    ensures
        r == (input@[pos as int] == a && input@[pos + 1] == b && input@[pos + 2] == c && input@[pos
            + 3] == d && input@[pos + 4] == e),
{
    input[pos] == a && input[pos + 1] == b && input[pos + 2] == c && input[pos + 3] == d && input[pos
        + 4] == e
}

fn is6(input: &[u8], pos: usize, a: u8, b: u8, c: u8, d: u8, e: u8, f: u8) -> (r: bool)
    requires
        pos + 6 <= input@.len(),
    ensures
        r == (input@[pos as int] == a && input@[pos + 1] == b && input@[pos + 2] == c && input@[pos
            + 3] == d && input@[pos + 4] == e && input@[pos + 5] == f),
{
    input[pos] == a && input[pos + 1] == b && input[pos + 2] == c && input[pos + 3] == d && input[pos
        + 4] == e && input[pos + 5] == f
}

/// The keyword, type name or boolean literal spelled by `input[pos..end]`, if
/// it spells one.
fn keyword(input: &[u8], pos: usize, end: usize) -> (r: Option<Token>)
    requires
        pos < end <= input@.len(),
        is_ident_start(input@[pos as int]),
    ensures
        match r {
            Some(k) => is_exact(k) && accepts(k, input@, pos as int, end - pos),
            None => true,
        },
        forall|k2: Token|
            is_exact(k2) && #[trigger] accepts(k2, input@, pos as int, end - pos) ==> r == Some(k2),
{
    let n = end - pos;
    if n == 2 {
        if is2(input, pos, 'f' as u8, 'n' as u8) {
            Some(Token::Fn)
        } else if is2(input, pos, 'i' as u8, 'f' as u8) {
            Some(Token::If)
        } else if is2(input, pos, 'i' as u8, '8' as u8) {
            Some(Token::I8)
        } else if is2(input, pos, 'u' as u8, '8' as u8) {
            Some(Token::U8)
        } else {
            None
        }
    } else if n == 3 {
        if is3(input, pos, 'v' as u8, 'a' as u8, 'r' as u8) {
            Some(Token::Var)
        } else if is3(input, pos, 'm' as u8, 'u' as u8, 't' as u8) {
            Some(Token::Mut)
        } else if is3(input, pos, 'f' as u8, 'o' as u8, 'r' as u8) {
            Some(Token::For)
        } else if is3(input, pos, 'm' as u8, 'o' as u8, 'd' as u8) {
            Some(Token::Mod)
        } else if is3(input, pos, 'i' as u8, '1' as u8, '6' as u8) {
            Some(Token::I16)
        } else if is3(input, pos, 'i' as u8, '3' as u8, '2' as u8) {
            Some(Token::I32)
        } else if is3(input, pos, 'i' as u8, '6' as u8, '4' as u8) {
            Some(Token::I64)
        } else if is3(input, pos, 'u' as u8, '1' as u8, '6' as u8) {
            Some(Token::U16)
        } else if is3(input, pos, 'u' as u8, '3' as u8, '2' as u8) {
            Some(Token::U32)
        } else if is3(input, pos, 'u' as u8, '6' as u8, '4' as u8) {
            Some(Token::U64)
        } else if is3(input, pos, 'f' as u8, '3' as u8, '2' as u8) {
            Some(Token::F32)
        } else if is3(input, pos, 'f' as u8, '6' as u8, '4' as u8) {
            Some(Token::F64)
        } else if is3(input, pos, 's' as u8, 't' as u8, 'r' as u8) {
            Some(Token::Str)
        } else {
            None
        }
    } else if n == 4 {
        if is4(input, pos, 'e' as u8, 'n' as u8, 'u' as u8, 'm' as u8) {
            Some(Token::Enum)
        } else if is4(input, pos, 'e' as u8, 'l' as u8, 's' as u8, 'e' as u8) {
            Some(Token::Else)
        } else if is4(input, pos, 'l' as u8, 'o' as u8, 'o' as u8, 'p' as u8) {
            Some(Token::Loop)
        } else if is4(input, pos, 'i' as u8, '1' as u8, '2' as u8, '8' as u8) {
            Some(Token::I128)
        } else if is4(input, pos, 'u' as u8, '1' as u8, '2' as u8, '8' as u8) {
            Some(Token::U128)
        } else if is4(input, pos, 'b' as u8, 'o' as u8, 'o' as u8, 'l' as u8) {
            Some(Token::Bool)
        } else if is4(input, pos, 'c' as u8, 'h' as u8, 'a' as u8, 'r' as u8) {
            Some(Token::Char)
        } else if is4(input, pos, 't' as u8, 'r' as u8, 'u' as u8, 'e' as u8) {
            Some(Token::True)
        } else {
            None
        }
    } else if n == 5 {
        if is5(input, pos, 'c' as u8, 'o' as u8, 'n' as u8, 's' as u8, 't' as u8) {
            Some(Token::Const)
        } else if is5(input, pos, 'u' as u8, 'n' as u8, 'i' as u8, 'o' as u8, 'n' as u8) {
            Some(Token::Union)
        } else if is5(input, pos, 'w' as u8, 'h' as u8, 'i' as u8, 'l' as u8, 'e' as u8) {
            Some(Token::While)
        } else if is5(input, pos, 'm' as u8, 'a' as u8, 't' as u8, 'c' as u8, 'h' as u8) {
            Some(Token::Match)
        } else if is5(input, pos, 'p' as u8, 'a' as u8, 'n' as u8, 'i' as u8, 'c' as u8) {
            Some(Token::Panic)
        } else if is5(input, pos, 'i' as u8, 's' as u8, 'i' as u8, 'z' as u8, 'e' as u8) {
            Some(Token::Isize)
        } else if is5(input, pos, 'u' as u8, 's' as u8, 'i' as u8, 'z' as u8, 'e' as u8) {
            Some(Token::Usize)
        } else if is5(input, pos, 'f' as u8, 'a' as u8, 'l' as u8, 's' as u8, 'e' as u8) {
            Some(Token::False)
        } else {
            None
        }
    } else if n == 6 {
        if is6(input, pos, 's' as u8, 't' as u8, 'r' as u8, 'u' as u8, 'c' as u8, 't' as u8) {
            Some(Token::Struct)
        } else if is6(input, pos, 'r' as u8, 'e' as u8, 't' as u8, 'u' as u8, 'r' as u8, 'n' as u8) {
            Some(Token::Return)
        } else {
            None
        }
    } else {
        None
    }
}

/// The token that starts with the letter or underscore at `pos`.
fn scan_word(input: &[u8], pos: usize) -> (r: (Token, usize))
    requires
        pos < input@.len(),
        is_ident_start(input@[pos as int]),
    ensures
        pos < r.1 <= input@.len(),
        is_best(r.0, input@, pos as int, r.1 - pos),
{
    let n = input.len();
    let end = scan_ident_tail(input, pos + 1);
    proof {
        reveal(is_best);
    }
    let k = match keyword(input, pos, end) {
        Some(k) => k,
        None => Token::Identifier,
    };
    proof {
        let s = input@;
        assert forall|k2: Token, l2: int| #[trigger] accepts(k2, s, pos as int, l2) implies outranks(
            k,
            end - pos,
            k2,
            l2,
        ) by {
            if l2 > end - pos {
                assert(!is_ident_continue(s[end as int]));
                if k2 is IntegerLiteral {
                    assert(is_digit(s[pos as int]));
                }
                if k2 is FloatLiteral {
                    let dot = choose|dot: int|
                        pos < dot && dot + 1 < pos + l2 && #[trigger] digits(s, pos as int, dot)
                            && s[dot] == '.' as u8 && digits(s, dot + 1, pos + l2);
                    assert(is_digit(s[pos as int]));
                }
            } else if l2 < end - pos {
            } else {
                if k2 is IntegerLiteral {
                    assert(is_digit(s[pos as int]));
                }
                if k2 is FloatLiteral {
                    let dot = choose|dot: int|
                        pos < dot && dot + 1 < pos + l2 && #[trigger] digits(s, pos as int, dot)
                            && s[dot] == '.' as u8 && digits(s, dot + 1, pos + l2);
                    assert(is_digit(s[pos as int]));
                }
            }
        }
    }
    (k, end)
}

/// The integer or float literal that starts with the digit at `pos`.
fn scan_number(input: &[u8], pos: usize) -> (r: (Token, usize))
    requires
        pos < input@.len(),
        is_digit(input@[pos as int]),
    ensures
        pos < r.1 <= input@.len(),
        is_best(r.0, input@, pos as int, r.1 - pos),
{
    let n = input.len();
    let whole = scan_digits(input, pos);
    proof {
        reveal(is_best);
    }
    if whole < n && input[whole] == '.' as u8 && whole + 1 < n && is_digit_byte(input[whole + 1]) {
        let end = scan_digits(input, whole + 1);
        proof {
            let s = input@;
            assert(digits(s, pos as int, whole as int));
            assert(accepts(Token::FloatLiteral, s, pos as int, end - pos));
            assert forall|k2: Token, l2: int| #[trigger]
                accepts(k2, s, pos as int, l2) implies outranks(
                Token::FloatLiteral,
                end - pos,
                k2,
                l2,
            ) by {
                if k2 is IntegerLiteral {
                    if l2 > whole - pos {
                        assert(is_digit(s[whole as int]));
                    }
                }
                if k2 is FloatLiteral {
                    let dot = choose|dot: int|
                        pos < dot && dot + 1 < pos + l2 && #[trigger] digits(s, pos as int, dot)
                            && s[dot] == '.' as u8 && digits(s, dot + 1, pos + l2);
                    if dot < whole {
                        assert(is_digit(s[dot]));
                    }
                    if dot > whole {
                        assert(is_digit(s[whole as int]));
                    }
                    if l2 > end - pos {
                        assert(is_digit(s[end as int]));
                    }
                }
            }
        }
        (Token::FloatLiteral, end)
    } else {
        proof {
            let s = input@;
            assert forall|k2: Token, l2: int| #[trigger]
                accepts(k2, s, pos as int, l2) implies outranks(
                Token::IntegerLiteral,
                whole - pos,
                k2,
                l2,
            ) by {
                if k2 is IntegerLiteral {
                    if l2 > whole - pos {
                        assert(is_digit(s[whole as int]));
                    }
                }
                if k2 is FloatLiteral {
                    let dot = choose|dot: int|
                        pos < dot && dot + 1 < pos + l2 && #[trigger] digits(s, pos as int, dot)
                            && s[dot] == '.' as u8 && digits(s, dot + 1, pos + l2);
                    if dot < whole {
                        assert(is_digit(s[dot]));
                    }
                    if dot > whole {
                        assert(is_digit(s[whole as int]));
                    }
                    assert(is_digit(s[dot + 1]));
                }
            }
        }
        (Token::IntegerLiteral, whole)
    }
}

/// The operator or delimiter `k` over `len` bytes at `pos`, where no longer
/// operator stands there.
fn punct(input: &[u8], pos: usize, k: Token, len: usize) -> (r: (Option<Token>, usize))
    requires
        is_exact(k),
        accepts(k, input@, pos as int, len as int),
        is_plain_symbol(input@[pos as int]),
        len == 1 ==> !(pos + 1 < input@.len() && is_operator_pair(
            input@[pos as int],
            input@[pos + 1],
        )),
    ensures
        r == (Some(k), (pos + len) as usize),
        pos < r.1 <= input@.len(),
        is_best(k, input@, pos as int, r.1 - pos),
{
    let n = input.len();
    proof {
        lemma_operator(input@, pos as int, k, len as int);
    }
    (Some(k), pos + len)
}

/// The token that starts at `pos` with a quote, an apostrophe, a `#` or a
/// slash; `None` where no rule accepts anything there, with the end of the
/// code point to skip.
fn scan_delimited(input: &[u8], pos: usize) -> (r: (Option<Token>, usize))
    requires
        pos < input@.len(),
        is_opener(input@[pos as int]),
    ensures
        pos < r.1 <= input@.len(),
        match r.0 {
            Some(k) => is_best(k, input@, pos as int, r.1 - pos),
            None => no_match(input@, pos as int) && r.1 == pos + code_point_len(input@, pos as int),
        },
{
    let n = input.len();
    let c = input[pos];
    let more = pos + 1 < n;
    let d: u8 = if more {
        input[pos + 1]
    } else {
        0
    };
    if c == '"' as u8 {
        let close = scan_until(input, pos + 1, '"' as u8);
        if close < n {
            proof {
                lemma_delimited(input@, pos as int, close as int, Token::StringLiteral);
            }
            (Some(Token::StringLiteral), close + 1)
        } else {
            proof {
                lemma_undelimited(input@, pos as int);
            }
            (None, code_point_end(input, pos))
        }
    } else if c == '#' as u8 {
        if more && d == '[' as u8 {
            let close = scan_until(input, pos + 2, ']' as u8);
            if close < n {
                proof {
                    lemma_delimited(input@, pos as int, close as int, Token::Attribute);
                }
                return (Some(Token::Attribute), close + 1);
            }
        }
        proof {
            lemma_undelimited(input@, pos as int);
        }
        (None, code_point_end(input, pos))
    } else if c == '\'' as u8 {
        if more && d != '\'' as u8 {
            let close = code_point_end(input, pos + 1);
            if close < n && input[close] == '\'' as u8 {
                proof {
                    lemma_char(input@, pos as int);
                }
                return (Some(Token::CharLiteral), close + 1);
            }
        }
        proof {
            lemma_char(input@, pos as int);
        }
        (None, code_point_end(input, pos))
    } else {
        if more && d == '/' as u8 {
            let end = scan_until(input, pos + 2, 10);
            proof {
                lemma_line_comment(input@, pos as int, end as int);
            }
            (Some(Token::SingleLineComment), end)
        } else {
            if more && d == '*' as u8 {
                let close = scan_comment_close(input, pos + 2);
                if close < n {
                    proof {
                        lemma_block_comment(input@, pos as int, close as int);
                    }
                    return (Some(Token::MultiLineComment), close + 2);
                }
            }
            proof {
                lemma_slash(input@, pos as int);
            }
            (Some(Token::Slash), pos + 1)
        }
    }
}

/// The operator or delimiter that starts at `pos`; `None` where the byte
/// there starts none, with the end of the code point to skip.
fn scan_operator(input: &[u8], pos: usize) -> (r: (Option<Token>, usize))
    requires
        pos < input@.len(),
        is_plain_symbol(input@[pos as int]),
    ensures
        pos < r.1 <= input@.len(),
        match r.0 {
            Some(k) => is_best(k, input@, pos as int, r.1 - pos),
            None => no_match(input@, pos as int) && r.1 == pos + code_point_len(input@, pos as int),
        },
{
    let n = input.len();
    let c = input[pos];
    let more = pos + 1 < n;
    let d: u8 = if more {
        input[pos + 1]
    } else {
        0
    };
    if c == '=' as u8 {
        if more && d == '=' as u8 {
            punct(input, pos, Token::Eq, 2)
        } else {
            punct(input, pos, Token::Assign, 1)
        }
    } else if c == '!' as u8 {
        if more && d == '=' as u8 {
            punct(input, pos, Token::NotEq, 2)
        } else {
            punct(input, pos, Token::Not, 1)
        }
    } else if c == '<' as u8 {
        if more && d == '=' as u8 {
            punct(input, pos, Token::LtEq, 2)
        } else if more && d == '<' as u8 {
            punct(input, pos, Token::Shl, 2)
        } else {
            punct(input, pos, Token::Lt, 1)
        }
    } else if c == '>' as u8 {
        if more && d == '=' as u8 {
            punct(input, pos, Token::GtEq, 2)
        } else if more && d == '>' as u8 {
            punct(input, pos, Token::Shr, 2)
        } else {
            punct(input, pos, Token::Gt, 1)
        }
    } else if c == '&' as u8 {
        if more && d == '&' as u8 {
            punct(input, pos, Token::And, 2)
        } else {
            punct(input, pos, Token::BitAnd, 1)
        }
    } else if c == '|' as u8 {
        if more && d == '|' as u8 {
            punct(input, pos, Token::Or, 2)
        } else {
            punct(input, pos, Token::BitOr, 1)
        }
    } else if c == '-' as u8 {
        if more && d == '>' as u8 {
            punct(input, pos, Token::Arrow, 2)
        } else {
            punct(input, pos, Token::Minus, 1)
        }
    } else if c == '+' as u8 {
        punct(input, pos, Token::Plus, 1)
    } else if c == '*' as u8 {
        punct(input, pos, Token::Star, 1)
    } else if c == '%' as u8 {
        punct(input, pos, Token::Percent, 1)
    } else if c == '^' as u8 {
        punct(input, pos, Token::BitXor, 1)
    } else if c == '~' as u8 {
        punct(input, pos, Token::BitNot, 1)
    } else if c == '(' as u8 {
        punct(input, pos, Token::LParen, 1)
    } else if c == ')' as u8 {
        punct(input, pos, Token::RParen, 1)
    } else if c == '{' as u8 {
        punct(input, pos, Token::LBrace, 1)
    } else if c == '}' as u8 {
        punct(input, pos, Token::RBrace, 1)
    } else if c == '[' as u8 {
        punct(input, pos, Token::LBracket, 1)
    } else if c == ']' as u8 {
        punct(input, pos, Token::RBracket, 1)
    } else if c == ';' as u8 {
        punct(input, pos, Token::Semicolon, 1)
    } else if c == ':' as u8 {
        punct(input, pos, Token::Colon, 1)
    } else if c == ',' as u8 {
        punct(input, pos, Token::Comma, 1)
    } else if c == '.' as u8 {
        punct(input, pos, Token::Dot, 1)
    } else if c == '@' as u8 {
        punct(input, pos, Token::MacroInvoke, 1)
    } else {
        proof {
            lemma_no_operator(input@, pos as int);
        }
        (None, code_point_end(input, pos))
    }
}

/// The token at `pos`, with the offset at which it ends; `None` where no
/// rule accepts anything at `pos`, with the end of the code point to skip.
pub fn scan_token(input: &[u8], pos: usize) -> (r: (Option<Token>, usize))
    requires
        pos < input@.len(),
    ensures
        pos < r.1 <= input@.len(),
        match r.0 {
            Some(k) => is_best(k, input@, pos as int, r.1 - pos),
            None => no_match(input@, pos as int) && r.1 == pos + code_point_len(input@, pos as int),
        },
{
    let c = input[pos];
    if is_ident_start_byte(c) {
        let (k, end) = scan_word(input, pos);
        (Some(k), end)
    } else if is_digit_byte(c) {
        let (k, end) = scan_number(input, pos);
        (Some(k), end)
    } else if c == '"' as u8 || c == '\'' as u8 || c == '#' as u8 || c == '/' as u8 {
        scan_delimited(input, pos)
    } else {
        scan_operator(input, pos)
    }
}

} // verus!
