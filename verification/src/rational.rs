//! Exact rational numbers, read from decimal text.

use vstd::prelude::*;
use crate::digits::{digit_run, digits_value, lemma_pow10_positive, pow10, read_digits};
use crate::scalar::{Quantity, Scalar};

verus! {

/// An exact fraction `numerator / denominator` with a positive denominator.
///
/// The fraction is kept as it was formed: `500 / 10` is not reduced to `50 / 1`.
#[derive(Clone, Copy, Debug, PartialEq, Eq)]
pub struct Rational {
    num: i64,
    den: i64,
}

/// The length of the sign that `s` starts with: one or none.
pub open spec fn sign_len(s: Seq<char>) -> int {
    if s.len() > 0 && (s[0] == '+' || s[0] == '-') {
        1
    } else {
        0
    }
}

/// Whether `s` starts with a minus sign.
pub open spec fn is_negative(s: Seq<char>) -> bool {
    s.len() > 0 && s[0] == '-'
}

/// The fraction with the sign of `s`, magnitude `magnitude` and denominator `den`,
/// where both fit in an `i64`.
pub open spec fn signed_fraction(s: Seq<char>, magnitude: int, den: int) -> Option<(int, int)> {
    if magnitude <= i64::MAX && den <= i64::MAX {
        Some((if is_negative(s) { -magnitude } else { magnitude }, den))
    } else {
        None
    }
}

/// The fraction that the decimal text `s` denotes.
///
/// The text is an optional sign, one or more digits and, optionally, a point
/// followed by one or more digits. With `k` digits behind the point the
/// denominator is ten to the power `k`, and the numerator is the number that
/// all the digits spell. Text of another shape denotes nothing, nor does text
/// whose numerator or denominator exceeds `i64::MAX`.
pub open spec fn decimal_value(s: Seq<char>) -> Option<(int, int)> {
    let start = sign_len(s);
    let point = digit_run(s, start);
    if point == start {
        None
    } else if point == s.len() {
        signed_fraction(s, digits_value(s.subrange(start, point)) as int, 1)
    } else if s[point] == '.' && point + 1 < s.len() && digit_run(s, point + 1) == s.len() {
        let k = (s.len() - point - 1) as nat;
        signed_fraction(
            s,
            (digits_value(s.subrange(start, point)) * pow10(k) + digits_value(
                s.subrange(point + 1, s.len() as int),
            )) as int,
            pow10(k) as int,
        )
    } else {
        None
    }
}

/// Ten to the power `k`, unless it exceeds `i64::MAX`.
fn power_of_ten(k: usize) -> (r: Option<i64>)
    ensures
        r == (if pow10(k as nat) <= i64::MAX {
            Some(pow10(k as nat) as i64)
        } else {
            None
        }),
{
    let mut i: usize = 0;
    let mut value: Option<i64> = Some(1);
    while i < k
        invariant
            i <= k,
            pow10(i as nat) >= 1,
            value == (if pow10(i as nat) <= i64::MAX {
                Some(pow10(i as nat) as i64)
            } else {
                None::<i64>
            }),
        decreases k - i,
    {
        assert(pow10((i + 1) as nat) == 10 * pow10(i as nat));
        value = match value {
            Some(v) => v.checked_mul(10),
            None => None,
        };
        i += 1;
    }
    value
}

impl View for Rational {
    type V = (int, int);

    /// Numerator and denominator.
    closed spec fn view(&self) -> (int, int) {
        (self.num as int, self.den as int)
    }
}

impl Rational {
    #[verifier::type_invariant]
    spec fn positive_denominator(self) -> bool {
        self.den > 0
    }

    /// The fraction `num / den`, where `den` is positive.
    pub fn new(num: i64, den: i64) -> (r: Option<Rational>)
        ensures
            r is Some <==> den > 0,
            r matches Some(q) ==> q@ == (num as int, den as int),
    {
        if den > 0 {
            Some(Rational { num, den })
        } else {
            None
        }
    }

    /// The whole number `n`.
    pub fn from_integer(n: i64) -> (r: Rational)
        ensures
            r@ == (n as int, 1int),
    {
        Rational { num: n, den: 1 }
    }

    /// The numerator.
    pub fn numerator(&self) -> (r: i64)
        ensures
            r == self@.0,
    {
        self.num
    }

    /// The denominator, which is positive.
    pub fn denominator(&self) -> (r: i64)
        ensures
            r == self@.1,
            r > 0,
    {
        proof {
            use_type_invariant(self);
        }
        self.den
    }
}

/// The numerator of `value / divisor`, formed without reducing.
pub open spec fn quotient_num(value: (int, int), divisor: (int, int)) -> int {
    if divisor.0 > 0 {
        value.0 * divisor.1
    } else {
        -(value.0 * divisor.1)
    }
}

/// The denominator of `value / divisor`, formed without reducing.
pub open spec fn quotient_den(value: (int, int), divisor: (int, int)) -> int {
    if divisor.0 > 0 {
        value.1 * divisor.0
    } else {
        value.1 * (-divisor.0)
    }
}

impl Scalar for Rational {
    open spec fn parsed(text: Seq<char>) -> Option<(int, int)> {
        decimal_value(text)
    }

    fn parse(text: &str) -> (r: Option<Rational>) {
        let n: usize = text.unicode_len();
        let signed: bool = n > 0 && (text.get_char(0) == '+' || text.get_char(0) == '-');
        let negative: bool = n > 0 && text.get_char(0) == '-';
        let start: usize = if signed { 1 } else { 0 };
        let (point, whole) = read_digits(text, start, 0);
        proof {
            lemma_pow10_positive((point - start) as nat);
            assert(0int * pow10((point - start) as nat) == 0) by (nonlinear_arith);
        }
        if point == start {
            return None;
        }
        let w: i64 = match whole {
            Some(w) => w,
            None => {
                proof {
                    if point < n {
                        let k = (n - point - 1) as nat;
                        lemma_pow10_positive(k);
                        let d = digits_value(text@.subrange(start as int, point as int)) as int;
                        assert(d * pow10(k) >= d) by (nonlinear_arith)
                            requires
                                d >= 0,
                                pow10(k) >= 1,
                        ;
                    }
                }
                return None;
            },
        };
        if point == n {
            return Some(Rational { num: if negative { -w } else { w }, den: 1 });
        }
        if text.get_char(point) != '.' || point + 1 >= n {
            return None;
        }
        let (end, mantissa) = read_digits(text, point + 1, w);
        if end != n {
            return None;
        }
        let den = power_of_ten(n - point - 1);
        proof {
            lemma_pow10_positive((n - point - 1) as nat);
        }
        match (mantissa, den) {
            (Some(m), Some(d)) => Some(Rational { num: if negative { -m } else { m }, den: d }),
            _ => None,
        }
    }
}

impl Quantity for Rational {
    /// The quotient is formed without reducing: the numerator is multiplied by the
    /// divisor's denominator, the denominator by the divisor's numerator, and the
    /// sign is carried by the numerator. There is none where the divisor is zero
    /// or where the magnitude of the new numerator, or the new denominator,
    /// exceeds `i64::MAX`.
    open spec fn quotient(value: (int, int), divisor: (int, int)) -> Option<(int, int)> {
        if divisor.0 != 0 && -i64::MAX <= quotient_num(value, divisor) <= i64::MAX && quotient_den(
            value,
            divisor,
        ) <= i64::MAX {
            Some((quotient_num(value, divisor), quotient_den(value, divisor)))
        } else {
            None
        }
    }

    fn can_divide(&self, divisor: &Rational) -> (r: bool) {
        proof {
            use_type_invariant(self);
            use_type_invariant(divisor);
        }
        if divisor.num == 0 {
            return false;
        }
        let num_fits: bool = match self.num.checked_mul(divisor.den) {
            Some(p) => p != i64::MIN,
            None => false,
        };
        if divisor.num == i64::MIN {
            proof {
                let a = self.den as int;
                let b = -(divisor.num as int);
                assert(a * b >= b) by (nonlinear_arith)
                    requires
                        a >= 1,
                        b >= 0,
                ;
            }
            return false;
        }
        let by: i64 = if divisor.num > 0 { divisor.num } else { -divisor.num };
        num_fits && self.den.checked_mul(by).is_some()
    }

    fn divide(self, divisor: &Rational) -> (r: Rational) {
        proof {
            use_type_invariant(self);
            use_type_invariant(divisor);
            let a = self.den as int;
            let b = if divisor.num > 0 { divisor.num as int } else { -(divisor.num as int) };
            assert(a * b >= b && a * b > 0) by (nonlinear_arith)
                requires
                    a >= 1,
                    b >= 1,
            ;
        }
        let p: i64 = self.num * divisor.den;
        if divisor.num > 0 {
            Rational { num: p, den: self.den * divisor.num }
        } else {
            Rational { num: -p, den: self.den * (-divisor.num) }
        }
    }
}

} // verus!
