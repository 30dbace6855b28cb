//! The comma-separated columns of a field group's segment.

use vstd::prelude::*;

verus! {

/// The character that parts the columns of a segment.
pub const SEPARATOR: char = ',';

/// The columns of the segment `s`, in order.
///
/// A segment always has a first column. Each separator closes the column before
/// it and opens a new, empty one; each other character extends the last column.
pub open spec fn columns(s: Seq<char>) -> Seq<Seq<char>>
    decreases s.len(),
{
    if s.len() == 0 {
        seq![Seq::<char>::empty()]
    } else if s.last() == SEPARATOR {
        columns(s.drop_last()).push(Seq::<char>::empty())
    } else {
        let before = columns(s.drop_last());
        before.drop_last().push(before.last().push(s.last()))
    }
}

/// The texts that a vector of strings holds.
pub open spec fn texts(v: Seq<String>) -> Seq<Seq<char>> {
    Seq::new(v.len(), |i: int| v[i]@)
}

/// Parts the segment `s` into its columns.
pub fn split_columns(s: &str) -> (r: Vec<String>)
    ensures
        texts(r@) == columns(s@),
{
    let n: usize = s.unicode_len();
    let mut done: Vec<String> = Vec::new();
    let mut start: usize = 0;
    let mut i: usize = 0;
    proof {
        assert(s@.take(0) =~= Seq::<char>::empty());
        assert(texts(done@).push(s@.subrange(0, 0)) =~= columns(s@.take(0)));
    }
    while i < n
        invariant
            n == s@.len(),
            start <= i <= n,
            columns(s@.take(i as int)) == texts(done@).push(s@.subrange(start as int, i as int)),
        decreases n - i,
    {
        let c: char = s.get_char(i);
        proof {
            let upto = s@.take(i + 1);
            assert(upto.drop_last() =~= s@.take(i as int));
            assert(upto.last() == c);
            let before = columns(upto.drop_last());
            assert(before.last() == s@.subrange(start as int, i as int));
            assert(before.drop_last() =~= texts(done@));
        }
        if c == SEPARATOR {
            let column: String = s.substring_char(start, i).to_owned();
            let ghost old_done = done@;
            done.push(column);
            start = i + 1;
            proof {
                assert(texts(done@) =~= texts(old_done).push(column@));
                assert(s@.subrange(start as int, i + 1) =~= Seq::<char>::empty());
            }
        } else {
            proof {
                assert(s@.subrange(start as int, i + 1) =~= s@.subrange(
                    start as int,
                    i as int,
                ).push(c));
            }
        }
        i += 1;
    }
    let column: String = s.substring_char(start, n).to_owned();
    let ghost old_done = done@;
    done.push(column);
    proof {
        assert(s@.take(n as int) =~= s@);
        assert(texts(done@) =~= texts(old_done).push(column@));
    }
    done
}

} // verus!
