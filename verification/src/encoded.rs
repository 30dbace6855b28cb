//! The form that a record is encoded to: named entries that hold scalars or
//! groups of named scalars.

use vstd::prelude::*;
use crate::layout::{Column, Field, FieldView};
use crate::names::Id;
use crate::rational::Rational;
use crate::record_value::RecordValue;
use crate::value::Value;

verus! {

/// An encoded scalar.
#[derive(Clone, Debug, PartialEq)]
pub enum Item {
    /// A value that was not reported.
    Null,
    /// A text.
    Text(String),
    /// A number.
    Number(Rational),
    /// A quantity with the label of its unit.
    Quantity { value: Rational, unit: String },
}

/// What an [`Item`] holds.
pub ghost enum ItemView {
    Null,
    Text(Seq<char>),
    Number((int, int)),
    Quantity { value: (int, int), unit: Seq<char> },
}

impl View for Item {
    type V = ItemView;

    open spec fn view(&self) -> ItemView {
        match self {
            Item::Null => ItemView::Null,
            Item::Text(t) => ItemView::Text(t@),
            Item::Number(n) => ItemView::Number(n@),
            Item::Quantity { value, unit } => ItemView::Quantity { value: value@, unit: unit@ },
        }
    }
}

/// One named scalar of an encoded group.
#[derive(Clone, Debug, PartialEq)]
pub struct Member {
    /// The lower-case name of the column.
    pub name: String,
    /// The encoded field.
    pub item: Item,
}

/// What a [`Member`] holds.
pub ghost struct MemberView {
    pub name: Seq<char>,
    pub item: ItemView,
}

impl View for Member {
    type V = MemberView;

    open spec fn view(&self) -> MemberView {
        MemberView { name: self.name@, item: self.item@ }
    }
}

/// What an encoded entry holds: a scalar, or the members of a group.
#[derive(Clone, Debug, PartialEq)]
pub enum Content {
    /// A scalar attribute.
    Item(Item),
    /// A field group.
    Group(Vec<Member>),
}

/// What a [`Content`] holds.
pub ghost enum ContentView {
    Item(ItemView),
    Group(Seq<MemberView>),
}

/// The views of the members in `members`.
pub open spec fn member_views(members: Seq<Member>) -> Seq<MemberView> {
    Seq::new(members.len(), |i: int| members[i]@)
}

impl View for Content {
    type V = ContentView;

    open spec fn view(&self) -> ContentView {
        match self {
            Content::Item(item) => ContentView::Item(item@),
            Content::Group(members) => ContentView::Group(member_views(members@)),
        }
    }
}

/// One entry of an encoded record.
#[derive(Clone, Debug, PartialEq)]
pub struct Entry {
    /// What the entry is.
    pub id: Id,
    /// The lower-case name of the entry.
    pub name: String,
    /// What the entry holds.
    pub content: Content,
}

/// What an [`Entry`] holds.
pub ghost struct EntryView {
    pub id: Id,
    pub name: Seq<char>,
    pub content: ContentView,
}

impl View for Entry {
    type V = EntryView;

    open spec fn view(&self) -> EntryView {
        EntryView { id: self.id, name: self.name@, content: self.content@ }
    }
}

/// The views of the entries in `entries`.
pub open spec fn entry_views(entries: Seq<Entry>) -> Seq<EntryView> {
    Seq::new(entries.len(), |i: int| entries[i]@)
}

/// What a field is encoded to. A value that is absent becomes a null; a code
/// becomes a text.
pub open spec fn encoded_field(f: FieldView) -> ItemView {
    match f {
        FieldView::Scaled(Some(q)) => ItemView::Quantity { value: q.value, unit: q.unit },
        FieldView::Scaled(None) => ItemView::Null,
        FieldView::Number(Some(n)) => ItemView::Number(n),
        FieldView::Number(None) => ItemView::Null,
        FieldView::Text(Some(t)) => ItemView::Text(t),
        FieldView::Text(None) => ItemView::Null,
        FieldView::Code(c) => ItemView::Text(c),
    }
}

/// What the fields of a group with the given columns are encoded to: one member
/// for each field, named as its column.
pub open spec fn encoded_members(layout: Seq<Column>, fields: Seq<FieldView>) -> Seq<MemberView> {
    Seq::new(
        fields.len(),
        |i: int| MemberView { name: layout[i].name@, item: encoded_field(fields[i]) },
    )
}

/// Encodes a quantity that may be absent.
pub fn encode_quantity(q: &Option<RecordValue<Rational>>) -> (r: Item)
    ensures
        r@ == encoded_field(FieldView::Scaled(crate::group::quantity_view(*q))),
{
    match q {
        Some(v) => Item::Quantity { value: *v.value(), unit: v.unit().to_owned() },
        None => Item::Null,
    }
}

/// Encodes a number that may be absent.
pub fn encode_number(n: &Value<Rational>) -> (r: Item)
    ensures
        r@ == encoded_field(FieldView::Number(n@)),
{
    match &n.0 {
        Some(v) => Item::Number(*v),
        None => Item::Null,
    }
}

/// Encodes a text that may be absent.
pub fn encode_text(t: &Value<String>) -> (r: Item)
    ensures
        r@ == encoded_field(FieldView::Text(t@)),
{
    match &t.0 {
        Some(v) => Item::Text(v.clone()),
        None => Item::Null,
    }
}

/// Encodes a code.
pub fn encode_code(c: &String) -> (r: Item)
    ensures
        r@ == encoded_field(FieldView::Code(c@)),
{
    Item::Text(c.clone())
}

/// Encodes a field.
pub fn encode_field(f: &Field) -> (r: Item)
    ensures
        r@ == encoded_field(f@),
{
    match f {
        Field::Scaled(q) => encode_quantity(q),
        Field::Number(n) => encode_number(n),
        Field::Text(t) => encode_text(t),
        Field::Code(c) => encode_code(c),
    }
}

/// Encodes the fields of a group with the given columns.
pub fn encode_members(layout: &Vec<Column>, fields: &Vec<Field>) -> (r: Vec<Member>)
    requires
        fields.len() == layout.len(),
    ensures
        member_views(r@) == encoded_members(layout@, crate::group::field_views(fields@)),
{
    let mut members: Vec<Member> = Vec::new();
    let mut i: usize = 0;
    while i < fields.len()
        invariant
            fields.len() == layout.len(),
            i <= fields.len(),
            members.len() == i,
            forall|j: int|
                0 <= j < i ==> (#[trigger] members@[j])@ == (MemberView {
                    name: layout@[j].name@,
                    item: encoded_field(fields@[j]@),
                }),
        decreases fields.len() - i,
    {
        let member = Member { name: layout[i].name.to_owned(), item: encode_field(&fields[i]) };
        members.push(member);
        i += 1;
    }
    assert(member_views(members@) =~= encoded_members(
        layout@,
        crate::group::field_views(fields@),
    ));
    members
}

} // verus!
