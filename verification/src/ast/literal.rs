//! Building number literals from their digits.

use vstd::prelude::*;
use crate::ast::expressions::Literal;
use crate::ast::types::Type;
use crate::lexer::rules::{digits, is_digit};
use crate::lexer::scan::is_digit_byte;

verus! {

/// Why a literal could not be built from its text.
#[derive(Debug, Clone, Copy, PartialEq, Eq, Hash, Structural)]
pub enum LiteralError {
    /// The text is empty or holds a byte that is no decimal digit.
    Malformed,
    /// The number is larger than an integer literal can hold.
    Overflow,
}

/// The largest magnitude of an integer literal.
pub open spec fn max_integer() -> nat {
    0x7fff_ffff_ffff_ffff_ffff_ffff_ffff_ffff
}

/// The number that the decimal digits of `s` spell.
pub open spec fn digits_value(s: Seq<u8>) -> nat
    decreases s.len(),
{
    if s.len() == 0 {
        0
    } else {
        digits_value(s.drop_last()) * 10 + (s.last() - '0' as u8) as nat
    }
}

/// More digits never spell a smaller number.
pub proof fn lemma_value_grows(s: Seq<u8>, i: int, j: int)
    requires
        0 <= i <= j <= s.len(),
        digits(s, 0, s.len() as int),
    ensures
        digits_value(s.take(i)) <= digits_value(s.take(j)),
    decreases j - i,
{
    if i < j {
        lemma_value_grows(s, i, j - 1);
        assert(s.take(j).drop_last() =~= s.take(j - 1));
        assert(is_digit(s[j - 1]));
    }
}

impl Literal {
    /// The integer literal that the decimal digits `text` spell, with the
    /// type that its suffix gave. The magnitude is kept as written: a number
    /// that does not fit is an error, never cut short.
    pub fn integer(text: &[u8], ty: Option<Type>) -> (r: Result<Literal, LiteralError>)
        ensures
            match r {
                Ok(l) => {
                    &&& text@.len() > 0
                    &&& digits(text@, 0, text@.len() as int)
                    &&& digits_value(text@) <= max_integer()
                    &&& l == Literal::Integer(digits_value(text@) as i128, ty)
                },
                Err(LiteralError::Malformed) => text@.len() == 0 || !digits(
                    text@,
                    0,
                    text@.len() as int,
                ),
                Err(LiteralError::Overflow) => {
                    &&& text@.len() > 0
                    &&& digits(text@, 0, text@.len() as int)
                    &&& digits_value(text@) > max_integer()
                },
            },
    {
        let n = text.len();
        if n == 0 {
            return Err(LiteralError::Malformed);
        }
        let mut k: usize = 0;
        while k < n
            invariant
                n == text@.len(),
                k <= n,
                digits(text@, 0, k as int),
            decreases n - k,
        {
            if !is_digit_byte(text[k]) {
                return Err(LiteralError::Malformed);
            }
            k += 1;
        }
        let mut value: i128 = 0;
        let mut i: usize = 0;
        while i < n
            invariant
                n == text@.len(),
                i <= n,
                digits(text@, 0, n as int),
                0 <= value,
                value == digits_value(text@.take(i as int)),
            decreases n - i,
        {
            assert(is_digit(text@[i as int]));
            let d: i128 = (text[i] - '0' as u8) as i128;
            proof {
                assert(text@.take(i + 1).drop_last() =~= text@.take(i as int));
                assert(digits_value(text@.take(i + 1)) == value * 10 + d);
            }
            if value > (i128::MAX - d) / 10 {
                proof {
                    lemma_value_grows(text@, i + 1, n as int);
                    assert(text@.take(n as int) =~= text@);
                }
                return Err(LiteralError::Overflow);
            }
            value = value * 10 + d;
            i += 1;
        }
        proof {
            assert(text@.take(n as int) =~= text@);
        }
        Ok(Literal::Integer(value, ty))
    }
}

} // verus!
