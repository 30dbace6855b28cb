//! Whole numbers as scalars: read from signed digits, divided toward zero.

use vstd::prelude::*;
use crate::digits::{digit_run, digits_value, lemma_pow10_positive, pow10, read_digits};
use crate::rational::{is_negative, sign_len};
use crate::scalar::{Quantity, Scalar};

verus! {

/// The whole number that the text `s` denotes.
///
/// The text is an optional sign and one or more digits. Text of another shape
/// denotes nothing, nor does text whose magnitude exceeds `i64::MAX`.
pub open spec fn integer_value(s: Seq<char>) -> Option<i64> {
    let start = sign_len(s);
    let magnitude = digits_value(s.subrange(start, s.len() as int));
    if start < s.len() && digit_run(s, start) == s.len() && magnitude <= i64::MAX {
        Some(
            if is_negative(s) {
                (-magnitude) as i64
            } else {
                magnitude as i64
            },
        )
    } else {
        None
    }
}

/// `x` divided by `d`, rounded toward zero.
pub open spec fn toward_zero(x: int, d: int) -> int {
    if x >= 0 && d > 0 {
        x / d
    } else if x < 0 && d < 0 {
        (-x) / (-d)
    } else if x < 0 {
        -((-x) / d)
    } else {
        -(x / (-d))
    }
}

impl Scalar for i64 {
    open spec fn parsed(text: Seq<char>) -> Option<i64> {
        integer_value(text)
    }

    fn parse(text: &str) -> (r: Option<i64>) {
        let n: usize = text.unicode_len();
        let signed: bool = n > 0 && (text.get_char(0) == '+' || text.get_char(0) == '-');
        let negative: bool = n > 0 && text.get_char(0) == '-';
        let start: usize = if signed { 1 } else { 0 };
        let (end, magnitude) = read_digits(text, start, 0);
        proof {
            lemma_pow10_positive((end - start) as nat);
            assert(0int * pow10((end - start) as nat) == 0) by (nonlinear_arith);
        }
        if end == start || end != n {
            return None;
        }
        match magnitude {
            Some(m) => Some(if negative { -m } else { m }),
            None => None,
        }
    }
}

impl Quantity for i64 {
    /// The quotient is rounded toward zero. There is none where the divisor is
    /// zero or where the quotient does not fit in an `i64`.
    open spec fn quotient(value: i64, divisor: i64) -> Option<i64> {
        if divisor != 0 && i64::MIN <= toward_zero(value as int, divisor as int) <= i64::MAX {
            Some(toward_zero(value as int, divisor as int) as i64)
        } else {
            None
        }
    }

    fn can_divide(&self, divisor: &i64) -> (r: bool) {
        self.checked_div(*divisor).is_some()
    }

    fn divide(self, divisor: &i64) -> (r: i64) {
        match self.checked_div(*divisor) {
            Some(q) => q,
            None => {
                proof {
                    assert(false);
                }
                0
            },
        }
    }
}

} // verus!
