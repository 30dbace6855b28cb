//! Character classes and small text utilities shared by the decoders.

use vstd::prelude::*;

verus! {

/// The digit that fills a field which was not reported.
pub const FILLER: char = '9';

/// What `char::is_numeric` returns for a character `c` beyond ASCII: whether `c`
/// belongs to one of Unicode's general categories for numbers.
pub uninterp spec fn is_numeric_char(c: char) -> bool;

/// Whether `c` is a numeric character: among the ASCII characters the digits `0`
/// to `9`, beyond them what Unicode counts as a number.
pub open spec fn is_numeric(c: char) -> bool {
    if c <= '\x7f' {
        '0' <= c && c <= '9'
    } else {
        is_numeric_char(c)
    }
}

/// Calls `char::is_numeric`, which is not verified here. Of the ASCII characters
/// it is taken that the digits `0` to `9` are numeric and no other is. Beyond
/// ASCII its result is taken to depend on the character alone and is named
/// [`is_numeric_char`]; nothing more is claimed of it.
#[verifier::external_body]
fn char_is_numeric(c: char) -> (r: bool)
    ensures
        c <= '\x7f' ==> r == ('0' <= c && c <= '9'),
        c > '\x7f' ==> r == is_numeric_char(c),
{
    c.is_numeric()
}

/// A character that shows a field to hold data: numeric, and not the filler digit.
pub open spec fn is_significant(c: char) -> bool {
    is_numeric(c) && c != FILLER
}

/// Every numeric character of `s` is the filler digit.
pub open spec fn all_filler(s: Seq<char>) -> bool {
    forall|i: int| 0 <= i < s.len() ==> !is_significant(#[trigger] s[i])
}

/// Scans `s` and reports whether it holds no numeric character but the filler digit.
pub fn is_all_filler(s: &str) -> (r: bool)
    ensures
        r == all_filler(s@),
{
    let n: usize = s.unicode_len();
    let mut i: usize = 0;
    while i < n
        invariant
            n == s@.len(),
            i <= n,
            forall|j: int| 0 <= j < i ==> !is_significant(#[trigger] s@[j]),
        decreases n - i,
    {
        let c: char = s.get_char(i);
        if char_is_numeric(c) && c != FILLER {
            return false;
        }
        i += 1;
    }
    true
}

/// Whether `a` and `b` hold the same characters.
pub fn same_text(a: &str, b: &str) -> (r: bool)
    ensures
        r == (a@ == b@),
{
    let n: usize = a.unicode_len();
    if n != b.unicode_len() {
        return false;
    }
    let mut i: usize = 0;
    while i < n
        invariant
            n == a@.len(),
            n == b@.len(),
            i <= n,
            forall|j: int| 0 <= j < i ==> a@[j] == b@[j],
        decreases n - i,
    {
        if a.get_char(i) != b.get_char(i) {
            return false;
        }
        i += 1;
    }
    assert(a@ =~= b@);
    true
}

} // verus!
