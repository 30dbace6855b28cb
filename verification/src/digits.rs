//! Decimal digit strings and the numbers they denote.

use vstd::prelude::*;

verus! {

/// An ASCII decimal digit.
pub open spec fn is_digit(c: char) -> bool {
    '0' <= c && c <= '9'
}

/// The number a decimal digit stands for.
pub open spec fn digit_value(c: char) -> int {
    c as int - '0' as int
}

/// Ten to the power `k`.
pub open spec fn pow10(k: nat) -> nat
    decreases k,
{
    if k == 0 {
        1
    } else {
        10 * pow10((k - 1) as nat)
    }
}

/// The number that a string of decimal digits denotes, most significant digit first.
pub open spec fn digits_value(s: Seq<char>) -> nat
    decreases s.len(),
{
    if s.len() == 0 {
        0
    } else {
        (digits_value(s.drop_last()) * 10 + digit_value(s.last())) as nat
    }
}

/// The index just past the unbroken run of digits of `s` that starts at `from`.
pub open spec fn digit_run(s: Seq<char>, from: int) -> int
    decreases s.len() - from,
{
    if 0 <= from < s.len() && is_digit(s[from]) {
        digit_run(s, from + 1)
    } else {
        from
    }
}

/// Ten to any power is positive.
pub proof fn lemma_pow10_positive(k: nat)
    ensures
        pow10(k) >= 1,
    decreases k,
{
    if k > 0 {
        lemma_pow10_positive((k - 1) as nat);
    }
}

/// Whether `c` is an ASCII decimal digit.
pub fn char_is_digit(c: char) -> (r: bool)
    ensures
        r == is_digit(c),
{
    '0' <= c && c <= '9'
}

/// The number that the digit `c` stands for.
pub fn char_digit_value(c: char) -> (r: i64)
    requires
        is_digit(c),
    ensures
        r == digit_value(c),
        0 <= r <= 9,
{
    (c as u32 - '0' as u32) as i64
}

/// The magnitude reached when the digits `s[start..end]` are appended to `acc`.
pub open spec fn extended(acc: int, s: Seq<char>, start: int, end: int) -> int {
    acc * pow10((end - start) as nat) + digits_value(s.subrange(start, end))
}

/// Reads the run of digits of `s` that starts at `start` and appends it to the
/// magnitude `acc`. Returns where the run ends, and the new magnitude unless it
/// exceeds `i64::MAX`.
pub fn read_digits(s: &str, start: usize, acc: i64) -> (r: (usize, Option<i64>))
    requires
        start <= s@.len(),
        0 <= acc,
    ensures
        r.0 == digit_run(s@, start as int),
        start <= r.0 <= s@.len(),
        r.1 == (if extended(acc as int, s@, start as int, r.0 as int) <= i64::MAX {
            Some(extended(acc as int, s@, start as int, r.0 as int) as i64)
        } else {
            None
        }),
{
    let n: usize = s.unicode_len();
    let mut i: usize = start;
    let mut value: Option<i64> = Some(acc);
    proof {
        assert(s@.subrange(start as int, start as int) =~= Seq::<char>::empty());
        assert(pow10((start as int - start as int) as nat) == 1);
        assert((acc as int) * 1 == acc as int);
        assert(digits_value(s@.subrange(start as int, start as int)) == 0);
        assert(extended(acc as int, s@, start as int, start as int) == acc);
    }
    while i < n && char_is_digit(s.get_char(i))
        invariant
            n == s@.len(),
            start <= i <= n,
            0 <= acc,
            digit_run(s@, start as int) == digit_run(s@, i as int),
            extended(acc as int, s@, start as int, i as int) >= 0,
            value == (if extended(acc as int, s@, start as int, i as int) <= i64::MAX {
                Some(extended(acc as int, s@, start as int, i as int) as i64)
            } else {
                None::<i64>
            }),
        decreases n - i,
    {
        let d: i64 = char_digit_value(s.get_char(i));
        proof {
            let before = s@.subrange(start as int, i as int);
            let after = s@.subrange(start as int, i + 1);
            assert(after.drop_last() =~= before);
            assert(after.last() == s@[i as int]);
            let p = pow10((i - start) as nat) as int;
            assert(pow10((i + 1 - start) as nat) == 10 * p);
            assert((acc as int) * (10 * p) == 10 * ((acc as int) * p)) by (nonlinear_arith);
            assert(extended(acc as int, s@, start as int, i + 1) == 10 * extended(
                acc as int,
                s@,
                start as int,
                i as int,
            ) + d);
        }
        value = match value {
            Some(v) => match v.checked_mul(10) {
                Some(w) => w.checked_add(d),
                None => None,
            },
            None => None,
        };
        i += 1;
    }
    (i, value)
}

/// The character of the decimal digit `d`.
pub open spec fn digit_char(d: int) -> char {
    if d == 0 {
        '0'
    } else if d == 1 {
        '1'
    } else if d == 2 {
        '2'
    } else if d == 3 {
        '3'
    } else if d == 4 {
        '4'
    } else if d == 5 {
        '5'
    } else if d == 6 {
        '6'
    } else if d == 7 {
        '7'
    } else if d == 8 {
        '8'
    } else {
        '9'
    }
}

/// The text of the decimal digit `d`.
pub fn digit_text(d: u8) -> (r: &'static str)
    requires
        d < 10,
    ensures
        r@ == seq![digit_char(d as int)],
{
    proof {
        reveal_strlit("0");
        reveal_strlit("1");
        reveal_strlit("2");
        reveal_strlit("3");
        reveal_strlit("4");
        reveal_strlit("5");
        reveal_strlit("6");
        reveal_strlit("7");
        reveal_strlit("8");
        reveal_strlit("9");
    }
    let r = match d {
        0 => "0",
        1 => "1",
        2 => "2",
        3 => "3",
        4 => "4",
        5 => "5",
        6 => "6",
        7 => "7",
        8 => "8",
        _ => "9",
    };
    assert(r@ =~= seq![digit_char(d as int)]);
    r
}

} // verus!
