//! Decoding of a field group's segment against the layout of its columns.

use vstd::prelude::*;
use crate::columns::{columns, split_columns, texts};
use crate::error::GroupFault;
use crate::layout::{decode_field, decoded_field, Column, Field, FieldView};
use crate::rational::Rational;
use crate::record_value::{Measured, RecordValue};

verus! {

/// The views of the fields in `fields`.
pub open spec fn field_views(fields: Seq<Field>) -> Seq<FieldView> {
    Seq::new(fields.len(), |i: int| fields[i]@)
}

/// What the first `n` columns decode to: their fields in order, or the fault of
/// the first column among them that cannot be read.
pub open spec fn decoded_prefix(layout: Seq<Column>, cols: Seq<Seq<char>>, n: int) -> Result<
    Seq<FieldView>,
    GroupFault,
>
    decreases n,
{
    if n <= 0 {
        Ok(Seq::empty())
    } else {
        match decoded_prefix(layout, cols, n - 1) {
            Err(fault) => Err(fault),
            Ok(fields) => match decoded_field(layout[n - 1].kind, cols[n - 1]) {
                Ok(field) => Ok(fields.push(field)),
                Err(cause) => Err(GroupFault::Column { column: (n - 1) as usize, cause }),
            },
        }
    }
}

/// What the segment `raw` of a group with the given layout decodes to.
///
/// The segment must have exactly the layout's columns. Each column is decoded
/// by its kind; the first that cannot be read fails the group.
pub open spec fn decoded_group(layout: Seq<Column>, raw: Seq<char>) -> Result<
    Seq<FieldView>,
    GroupFault,
> {
    let cols = columns(raw);
    if cols.len() != layout.len() {
        Err(GroupFault::Columns { expected: layout.len() as usize, found: cols.len() as usize })
    } else {
        decoded_prefix(layout, cols, layout.len() as int)
    }
}

/// A prefix that decodes holds one field for each of its columns, each the
/// decoding of its column.
pub proof fn lemma_decoded_prefix_fields(layout: Seq<Column>, cols: Seq<Seq<char>>, n: int)
    requires
        0 <= n,
        decoded_prefix(layout, cols, n) is Ok,
    ensures
        decoded_prefix(layout, cols, n)->Ok_0.len() == n,
        forall|i: int|
            0 <= i < n ==> decoded_field(layout[i].kind, cols[i]) == Ok::<
                FieldView,
                crate::error::ParseError,
            >(#[trigger] decoded_prefix(layout, cols, n)->Ok_0[i]),
    decreases n,
{
    if n > 0 {
        lemma_decoded_prefix_fields(layout, cols, n - 1);
    }
}

/// The views of what a group decoder returned.
pub open spec fn group_view(r: Result<Vec<Field>, GroupFault>) -> Result<
    Seq<FieldView>,
    GroupFault,
> {
    match r {
        Ok(fields) => Ok(field_views(fields@)),
        Err(fault) => Err(fault),
    }
}

/// Decodes the segment `raw` of a group with the given layout.
pub fn decode_group(layout: &Vec<Column>, raw: &str) -> (r: Result<Vec<Field>, GroupFault>)
    ensures
        group_view(r) == decoded_group(layout@, raw@),
{
    let cols = split_columns(raw);
    if cols.len() != layout.len() {
        return Err(GroupFault::Columns { expected: layout.len(), found: cols.len() });
    }
    let mut fields: Vec<Field> = Vec::new();
    let mut i: usize = 0;
    proof {
        assert(field_views(fields@) =~= Seq::<FieldView>::empty());
    }
    while i < layout.len()
        invariant
            texts(cols@) == columns(raw@),
            cols.len() == layout.len(),
            i <= layout.len(),
            decoded_prefix(layout@, columns(raw@), i as int) == Ok::<Seq<FieldView>, GroupFault>(
                field_views(fields@),
            ),
        decreases layout.len() - i,
    {
        assert(texts(cols@)[i as int] == cols@[i as int]@);
        match decode_field(layout[i].kind, cols[i].as_str()) {
            Ok(field) => {
                let ghost before = fields@;
                fields.push(field);
                proof {
                    assert(field_views(fields@) =~= field_views(before).push(field@));
                }
            },
            Err(cause) => {
                proof {
                    lemma_prefix_fault_stays(layout@, columns(raw@), i + 1, layout.len() as int);
                }
                return Err(GroupFault::Column { column: i, cause });
            },
        }
        i += 1;
    }
    Ok(fields)
}

/// A fault among the first `n` columns is the fault of every longer prefix.
pub proof fn lemma_prefix_fault_stays(layout: Seq<Column>, cols: Seq<Seq<char>>, n: int, m: int)
    requires
        0 <= n <= m,
        decoded_prefix(layout, cols, n) is Err,
    ensures
        decoded_prefix(layout, cols, m) == decoded_prefix(layout, cols, n),
    decreases m - n,
{
    if n < m {
        lemma_prefix_fault_stays(layout, cols, n, m - 1);
    }
}

/// What an optional quantity holds.
pub open spec fn quantity_view(q: Option<RecordValue<Rational>>) -> Option<Measured<(int, int)>> {
    match q {
        Some(v) => Some(v@),
        None => None,
    }
}

/// Takes the last field, which is a quantity, off `fields`.
pub(crate) fn take_scaled(fields: &mut Vec<Field>) -> (r: Option<RecordValue<Rational>>)
    requires
        old(fields).len() > 0,
        old(fields)@.last()@ is Scaled,
    ensures
        final(fields)@ == old(fields)@.drop_last(),
        old(fields)@.last()@ == FieldView::Scaled(quantity_view(r)),
{
    match fields.pop() {
        Some(Field::Scaled(q)) => q,
        _ => {
            proof {
                assert(false);
            }
            None
        },
    }
}

/// Takes the last field, which is a code, off `fields`.
pub(crate) fn take_code(fields: &mut Vec<Field>) -> (r: String)
    requires
        old(fields).len() > 0,
        old(fields)@.last()@ is Code,
    ensures
        final(fields)@ == old(fields)@.drop_last(),
        old(fields)@.last()@ == FieldView::Code(r@),
{
    match fields.pop() {
        Some(Field::Code(c)) => c,
        _ => {
            proof {
                assert(false);
            }
            String::new()
        },
    }
}

} // verus!
