//! The complete observation record, and its decoding from tagged segments.

use vstd::prelude::*;
use crate::category::{Category, CATEGORY_COUNT};
use crate::encoded::{
    encode_code, encode_members, encode_number, encode_text, encoded_field, encoded_members,
    entry_views, member_views, Content, ContentView, Entry, EntryView, Item, ItemView, Member,
};
use crate::error::{DecodeError, Failure, Fault, GroupFault, ParseError};
use crate::group::{decode_group, decoded_group, field_views, lemma_decoded_prefix_fields};
use crate::layout::{sentinel, sentinel_text, Column, Field, FieldView};
use crate::mandatory::{Ceiling, SeaLevelPressure, Temperature, Visibility, Wind};
use crate::names::{code_of, find, lookup, Attribute, Id, Slot, Tagged};
use crate::rational::Rational;
use crate::scalar::Scalar;
use crate::timestamp::{formatted, parsed_timestamp, Moment, Timestamp};
use crate::value::{nullable, Value};

verus! {

/// The width of the station identifier.
pub const STATION_WIDTH: u8 = 11;

/// The width of the data source code.
pub const SOURCE_WIDTH: u8 = 1;

/// The width of the latitude.
pub const LATITUDE_WIDTH: u8 = 6;

/// The width of the longitude.
pub const LONGITUDE_WIDTH: u8 = 7;

/// The width of the report type code.
pub const REPORT_TYPE_WIDTH: u8 = 5;

/// The width of the call sign.
pub const CALL_SIGN_WIDTH: u8 = 5;

/// What becomes of additional data whose segment is malformed.
#[derive(Clone, Copy, Debug, PartialEq, Eq, Structural)]
pub enum Policy {
    /// The record fails, as it does for a malformed mandatory group.
    Fail,
    /// The slot is left out, as if the input had no segment for it.
    Omit,
}

/// The additional data that fills one slot of a record: one field for each column
/// of the slot's category.
#[derive(Debug, PartialEq)]
pub struct Group {
    slot: Slot,
    fields: Vec<Field>,
}

/// What a [`Group`] holds.
pub ghost struct GroupView {
    pub slot: Slot,
    pub fields: Seq<FieldView>,
}

impl View for Group {
    type V = GroupView;

    closed spec fn view(&self) -> GroupView {
        GroupView { slot: self.slot, fields: field_views(self.fields@) }
    }
}

impl GroupView {
    /// Whether the slot exists and has one field for each column of its category.
    pub open spec fn well_formed(self) -> bool {
        self.slot.valid() && self.fields.len() == self.slot.category.columns().len()
    }
}

impl Group {
    #[verifier::type_invariant]
    spec fn well_formed(self) -> bool {
        self@.well_formed()
    }

    /// The group that fills `slot` with `fields`, where the slot exists and has
    /// one field for each column of its category.
    pub fn new(slot: Slot, fields: Vec<Field>) -> (r: Option<Group>)
        ensures
            r is Some <==> (GroupView { slot, fields: field_views(fields@) }).well_formed(),
            r matches Some(group) ==> group@ == (GroupView {
                slot,
                fields: field_views(fields@),
            }),
    {
        let first: u8 = slot.category.first();
        let count: u8 = slot.category.count();
        let layout = slot.category.layout();
        if first <= slot.occurrence && slot.occurrence < first + count && fields.len()
            == layout.len() {
            Some(Group { slot, fields })
        } else {
            None
        }
    }

    /// The slot that the data fills.
    pub fn slot(&self) -> (r: Slot)
        ensures
            r == self@.slot,
            r.valid(),
    {
        proof {
            use_type_invariant(self);
        }
        self.slot
    }

    /// The fields of the data, in the order of the category's columns.
    pub fn fields(&self) -> (r: &Vec<Field>)
        ensures
            field_views(r@) == self@.fields,
            r.len() == self@.slot.category.columns().len(),
    {
        proof {
            use_type_invariant(self);
        }
        &self.fields
    }

    /// Encodes the group: the entry of its slot, with one member for each column.
    pub fn encode(&self) -> (r: Entry)
        ensures
            r@ == slot_entry(self@),
    {
        proof {
            use_type_invariant(self);
        }
        let layout = self.slot.category.layout();
        Entry {
            id: Id::Slot(self.slot),
            name: self.slot.text(),
            content: Content::Group(encode_members(&layout, &self.fields)),
        }
    }
}

/// The entry that a group of additional data is encoded to.
pub open spec fn slot_entry(group: GroupView) -> EntryView {
    EntryView {
        id: Id::Slot(group.slot),
        name: group.slot.name(),
        content: ContentView::Group(encoded_members(group.slot.category.columns(), group.fields)),
    }
}

/// The entry that a scalar attribute is encoded to.
pub open spec fn scalar_entry(a: Attribute, item: ItemView) -> EntryView {
    EntryView { id: Id::Attribute(a), name: a.name(), content: ContentView::Item(item) }
}

/// The entry that a mandatory group is encoded to.
pub open spec fn group_entry(a: Attribute, layout: Seq<Column>, fields: Seq<FieldView>) -> EntryView {
    EntryView {
        id: Id::Attribute(a),
        name: a.name(),
        content: ContentView::Group(encoded_members(layout, fields)),
    }
}

/// The number of entries that every encoded record starts with: one for each
/// attribute.
pub const ATTRIBUTE_COUNT: usize = 15;

/// The entries of the attributes that every record holds, in order.
pub open spec fn encoded_attributes(record: RecordView) -> Seq<EntryView> {
    seq![
        scalar_entry(Attribute::Station, encoded_field(FieldView::Text(record.station))),
        scalar_entry(Attribute::Date, ItemView::Text(formatted(record.date))),
        scalar_entry(Attribute::Source, encoded_field(FieldView::Text(record.source))),
        scalar_entry(Attribute::Latitude, encoded_field(FieldView::Number(record.latitude))),
        scalar_entry(Attribute::Longitude, encoded_field(FieldView::Number(record.longitude))),
        scalar_entry(Attribute::Elevation, ItemView::Number(record.elevation)),
        scalar_entry(Attribute::Name, ItemView::Text(record.name)),
        scalar_entry(Attribute::ReportType, encoded_field(FieldView::Text(record.report_type))),
        scalar_entry(Attribute::CallSign, encoded_field(FieldView::Text(record.call_sign))),
        scalar_entry(Attribute::QualityControl, ItemView::Text(record.quality_control)),
        group_entry(Attribute::Wnd, Wind::columns(), record.wnd),
        group_entry(Attribute::Cig, Ceiling::columns(), record.cig),
        group_entry(Attribute::Vis, Visibility::columns(), record.vis),
        group_entry(Attribute::Tmp, Temperature::columns(), record.tmp),
        group_entry(Attribute::Slp, SeaLevelPressure::columns(), record.slp),
    ]
}

/// What a record is encoded to: the entries of its attributes, then one entry for
/// each group of additional data that it holds, in order. A slot that the record
/// does not hold has no entry.
pub open spec fn encoded(record: RecordView) -> Seq<EntryView> {
    encoded_attributes(record) + Seq::new(
        record.optional.len(),
        |i: int| slot_entry(record.optional[i]),
    )
}

/// The entry of a scalar attribute.
fn attribute_entry(a: Attribute, item: Item) -> (r: Entry)
    ensures
        r@ == scalar_entry(a, item@),
{
    Entry { id: Id::Attribute(a), name: a.text().to_owned(), content: Content::Item(item) }
}

/// The entry of a mandatory group.
fn mandatory_entry(a: Attribute, members: Vec<Member>) -> (r: Entry)
    ensures
        r@ == (EntryView {
            id: Id::Attribute(a),
            name: a.name(),
            content: ContentView::Group(member_views(members@)),
        }),
{
    Entry { id: Id::Attribute(a), name: a.text().to_owned(), content: Content::Group(members) }
}

/// The views of the groups in `groups`.
pub open spec fn group_views(groups: Seq<Group>) -> Seq<GroupView> {
    Seq::new(groups.len(), |i: int| groups[i]@)
}

/// One observation of one station.
///
/// The station's attributes and the five mandatory groups are always there,
/// though a value in them may be absent. Of the slots for additional data the
/// record holds those that the input filled, in the canonical order of the slots.
#[derive(Debug, PartialEq)]
pub struct Record {
    pub station: Value<String>,
    pub date: Timestamp,
    pub source: Value<String>,
    pub latitude: Value<Rational>,
    pub longitude: Value<Rational>,
    pub elevation: Rational,
    pub name: String,
    pub report_type: Value<String>,
    pub call_sign: Value<String>,
    pub quality_control: String,
    pub wnd: Wind,
    pub cig: Ceiling,
    pub vis: Visibility,
    pub tmp: Temperature,
    pub slp: SeaLevelPressure,
    pub optional: Vec<Group>,
}

/// What a [`Record`] holds.
pub ghost struct RecordView {
    pub station: Option<Seq<char>>,
    pub date: Moment,
    pub source: Option<Seq<char>>,
    pub latitude: Option<(int, int)>,
    pub longitude: Option<(int, int)>,
    pub elevation: (int, int),
    pub name: Seq<char>,
    pub report_type: Option<Seq<char>>,
    pub call_sign: Option<Seq<char>>,
    pub quality_control: Seq<char>,
    pub wnd: Seq<FieldView>,
    pub cig: Seq<FieldView>,
    pub vis: Seq<FieldView>,
    pub tmp: Seq<FieldView>,
    pub slp: Seq<FieldView>,
    pub optional: Seq<GroupView>,
}

impl View for Record {
    type V = RecordView;

    open spec fn view(&self) -> RecordView {
        RecordView {
            station: self.station@,
            date: self.date@,
            source: self.source@,
            latitude: self.latitude@,
            longitude: self.longitude@,
            elevation: self.elevation@,
            name: self.name@,
            report_type: self.report_type@,
            call_sign: self.call_sign@,
            quality_control: self.quality_control@,
            wnd: self.wnd.fields(),
            cig: self.cig.fields(),
            vis: self.vis.fields(),
            tmp: self.tmp.fields(),
            slp: self.slp.fields(),
            optional: group_views(self.optional@),
        }
    }
}

/// The raw text of an attribute that every record holds.
pub open spec fn required(input: Seq<Tagged>, a: Attribute) -> Result<Seq<char>, Failure> {
    match lookup(input, code_of(a.name())) {
        Some(raw) => Ok(raw),
        None => Err(Failure { field: Id::Attribute(a), raw: Seq::empty(), fault: Fault::Missing }),
    }
}

/// What a text attribute with a sentinel of the given width decodes to.
pub open spec fn decoded_text(input: Seq<Tagged>, a: Attribute, width: nat) -> Result<
    Option<Seq<char>>,
    Failure,
> {
    match required(input, a) {
        Err(e) => Err(e),
        Ok(raw) => match nullable::<String>(raw, sentinel(width)) {
            Ok(v) => Ok(v),
            Err(cause) => Err(
                Failure { field: Id::Attribute(a), raw, fault: Fault::Scalar(cause) },
            ),
        },
    }
}

/// What a numeric attribute with a sentinel of the given width decodes to.
pub open spec fn decoded_number(input: Seq<Tagged>, a: Attribute, width: nat) -> Result<
    Option<(int, int)>,
    Failure,
> {
    match required(input, a) {
        Err(e) => Err(e),
        Ok(raw) => match nullable::<Rational>(raw, sentinel(width)) {
            Ok(v) => Ok(v),
            Err(cause) => Err(
                Failure { field: Id::Attribute(a), raw, fault: Fault::Scalar(cause) },
            ),
        },
    }
}

/// What a numeric attribute without a sentinel decodes to.
pub open spec fn decoded_plain_number(input: Seq<Tagged>, a: Attribute) -> Result<
    (int, int),
    Failure,
> {
    match required(input, a) {
        Err(e) => Err(e),
        Ok(raw) => match Rational::parsed(raw) {
            Some(v) => Ok(v),
            None => Err(
                Failure {
                    field: Id::Attribute(a),
                    raw,
                    fault: Fault::Scalar(ParseError::Syntax),
                },
            ),
        },
    }
}

/// What the observation time decodes to.
pub open spec fn decoded_date(input: Seq<Tagged>) -> Result<Moment, Failure> {
    match required(input, Attribute::Date) {
        Err(e) => Err(e),
        Ok(raw) => match parsed_timestamp(raw) {
            Some(m) => Ok(m),
            None => Err(
                Failure { field: Id::Attribute(Attribute::Date), raw, fault: Fault::Timestamp },
            ),
        },
    }
}

/// What a mandatory group with the given columns decodes to.
pub open spec fn decoded_mandatory(input: Seq<Tagged>, a: Attribute, layout: Seq<Column>) -> Result<
    Seq<FieldView>,
    Failure,
> {
    match required(input, a) {
        Err(e) => Err(e),
        Ok(raw) => match decoded_group(layout, raw) {
            Ok(fields) => Ok(fields),
            Err(fault) => Err(Failure { field: Id::Attribute(a), raw, fault: Fault::Group(fault) }),
        },
    }
}

/// What the slot `slot` decodes to: nothing where the input has no segment for it.
/// A segment that is malformed fails the slot or leaves it empty, as the policy
/// says.
pub open spec fn decoded_slot(input: Seq<Tagged>, slot: Slot, policy: Policy) -> Result<
    Option<GroupView>,
    Failure,
> {
    match lookup(input, code_of(slot.name())) {
        None => Ok(None),
        Some(raw) => match decoded_group(slot.category.columns(), raw) {
            Ok(fields) => Ok(Some(GroupView { slot, fields })),
            Err(fault) => match policy {
                Policy::Fail => Err(
                    Failure { field: Id::Slot(slot), raw, fault: Fault::Group(fault) },
                ),
                Policy::Omit => Ok(None),
            },
        },
    }
}

/// The `k`-th slot of a category, counted from zero.
pub open spec fn slot_of(category: Category, k: int) -> Slot {
    Slot { category, occurrence: (category.spec_first() + k) as u8 }
}

/// What the first `k` slots of a category decode to: the groups of those that
/// the input fills, in order, or the failure of the first that cannot be decoded.
pub open spec fn decoded_occurrences(
    input: Seq<Tagged>,
    category: Category,
    k: int,
    policy: Policy,
) -> Result<
    Seq<GroupView>,
    Failure,
>
    decreases k,
{
    if k <= 0 {
        Ok(Seq::empty())
    } else {
        match decoded_occurrences(input, category, k - 1, policy) {
            Err(e) => Err(e),
            Ok(groups) => match decoded_slot(input, slot_of(category, k - 1), policy) {
                Err(e) => Err(e),
                Ok(None) => Ok(groups),
                Ok(Some(group)) => Ok(groups.push(group)),
            },
        }
    }
}

/// What the slots of the first `n` categories decode to.
pub open spec fn decoded_optional(input: Seq<Tagged>, n: int, policy: Policy) -> Result<
    Seq<GroupView>,
    Failure,
>
    decreases n,
{
    if n <= 0 {
        Ok(Seq::empty())
    } else {
        match decoded_optional(input, n - 1, policy) {
            Err(e) => Err(e),
            Ok(groups) => {
                let category = Category::spec_at((n - 1) as usize);
                match decoded_occurrences(input, category, category.spec_count() as int, policy) {
                    Err(e) => Err(e),
                    Ok(more) => Ok(groups + more),
                }
            },
        }
    }
}

/// What the input decodes to: the record, or the failure of the first entry, in
/// the order of the record's entries, that is missing or malformed. Whether
/// malformed additional data counts is for the policy to say.
pub open spec fn decoded_record(input: Seq<Tagged>, policy: Policy) -> Result<RecordView, Failure> {
    let station = decoded_text(input, Attribute::Station, STATION_WIDTH as nat);
    let date = decoded_date(input);
    let source = decoded_text(input, Attribute::Source, SOURCE_WIDTH as nat);
    let latitude = decoded_number(input, Attribute::Latitude, LATITUDE_WIDTH as nat);
    let longitude = decoded_number(input, Attribute::Longitude, LONGITUDE_WIDTH as nat);
    let elevation = decoded_plain_number(input, Attribute::Elevation);
    let name = required(input, Attribute::Name);
    let report_type = decoded_text(input, Attribute::ReportType, REPORT_TYPE_WIDTH as nat);
    let call_sign = decoded_text(input, Attribute::CallSign, CALL_SIGN_WIDTH as nat);
    let quality_control = required(input, Attribute::QualityControl);
    let wnd = decoded_mandatory(input, Attribute::Wnd, Wind::columns());
    let cig = decoded_mandatory(input, Attribute::Cig, Ceiling::columns());
    let vis = decoded_mandatory(input, Attribute::Vis, Visibility::columns());
    let tmp = decoded_mandatory(input, Attribute::Tmp, Temperature::columns());
    let slp = decoded_mandatory(input, Attribute::Slp, SeaLevelPressure::columns());
    let optional = decoded_optional(input, CATEGORY_COUNT as int, policy);
    if station is Err {
        Err(station->Err_0)
    } else if date is Err {
        Err(date->Err_0)
    } else if source is Err {
        Err(source->Err_0)
    } else if latitude is Err {
        Err(latitude->Err_0)
    } else if longitude is Err {
        Err(longitude->Err_0)
    } else if elevation is Err {
        Err(elevation->Err_0)
    } else if name is Err {
        Err(name->Err_0)
    } else if report_type is Err {
        Err(report_type->Err_0)
    } else if call_sign is Err {
        Err(call_sign->Err_0)
    } else if quality_control is Err {
        Err(quality_control->Err_0)
    } else if wnd is Err {
        Err(wnd->Err_0)
    } else if cig is Err {
        Err(cig->Err_0)
    } else if vis is Err {
        Err(vis->Err_0)
    } else if tmp is Err {
        Err(tmp->Err_0)
    } else if slp is Err {
        Err(slp->Err_0)
    } else if optional is Err {
        Err(optional->Err_0)
    } else {
        Ok(
            RecordView {
                station: station->Ok_0,
                date: date->Ok_0,
                source: source->Ok_0,
                latitude: latitude->Ok_0,
                longitude: longitude->Ok_0,
                elevation: elevation->Ok_0,
                name: name->Ok_0,
                report_type: report_type->Ok_0,
                call_sign: call_sign->Ok_0,
                quality_control: quality_control->Ok_0,
                wnd: wnd->Ok_0,
                cig: cig->Ok_0,
                vis: vis->Ok_0,
                tmp: tmp->Ok_0,
                slp: slp->Ok_0,
                optional: optional->Ok_0,
            },
        )
    }
}

/// Finds the raw text of an attribute that every record holds.
fn require<'a>(input: &'a Vec<Tagged>, a: Attribute) -> (r: Result<&'a str, DecodeError>)
    ensures
        match r {
            Ok(raw) => required(input@, a) == Ok::<Seq<char>, Failure>(raw@),
            Err(e) => required(input@, a) == Err::<Seq<char>, Failure>(e@),
        },
{
    match find(input, a.text()) {
        Some(raw) => Ok(raw),
        None => Err(
            DecodeError { field: Id::Attribute(a), raw: String::new(), fault: Fault::Missing },
        ),
    }
}

/// Decodes a text attribute with a sentinel of the given width.
fn decode_text(input: &Vec<Tagged>, a: Attribute, width: u8) -> (r: Result<
    Value<String>,
    DecodeError,
>)
    ensures
        match r {
            Ok(v) => decoded_text(input@, a, width as nat) == Ok::<Option<Seq<char>>, Failure>(v@),
            Err(e) => decoded_text(input@, a, width as nat) == Err::<Option<Seq<char>>, Failure>(
                e@,
            ),
        },
{
    let raw = match require(input, a) {
        Ok(raw) => raw,
        Err(e) => {
            return Err(e);
        },
    };
    let missing = sentinel_text(width);
    match Value::<String>::from_str(raw, missing.as_str()) {
        Ok(v) => Ok(v),
        Err(cause) => Err(
            DecodeError { field: Id::Attribute(a), raw: raw.to_owned(), fault: Fault::Scalar(cause) },
        ),
    }
}

/// Decodes a numeric attribute with a sentinel of the given width.
fn decode_number(input: &Vec<Tagged>, a: Attribute, width: u8) -> (r: Result<
    Value<Rational>,
    DecodeError,
>)
    ensures
        match r {
            Ok(v) => decoded_number(input@, a, width as nat) == Ok::<Option<(int, int)>, Failure>(
                v@,
            ),
            Err(e) => decoded_number(input@, a, width as nat) == Err::<Option<(int, int)>, Failure>(
                e@,
            ),
        },
{
    let raw = match require(input, a) {
        Ok(raw) => raw,
        Err(e) => {
            return Err(e);
        },
    };
    let missing = sentinel_text(width);
    match Value::<Rational>::from_str(raw, missing.as_str()) {
        Ok(v) => Ok(v),
        Err(cause) => Err(
            DecodeError { field: Id::Attribute(a), raw: raw.to_owned(), fault: Fault::Scalar(cause) },
        ),
    }
}

/// Decodes a numeric attribute without a sentinel.
fn decode_plain_number(input: &Vec<Tagged>, a: Attribute) -> (r: Result<Rational, DecodeError>)
    ensures
        match r {
            Ok(v) => decoded_plain_number(input@, a) == Ok::<(int, int), Failure>(v@),
            Err(e) => decoded_plain_number(input@, a) == Err::<(int, int), Failure>(e@),
        },
{
    let raw = match require(input, a) {
        Ok(raw) => raw,
        Err(e) => {
            return Err(e);
        },
    };
    match Rational::parse(raw) {
        Some(v) => Ok(v),
        None => Err(
            DecodeError {
                field: Id::Attribute(a),
                raw: raw.to_owned(),
                fault: Fault::Scalar(ParseError::Syntax),
            },
        ),
    }
}

/// Decodes a text attribute without a sentinel.
fn decode_plain_text(input: &Vec<Tagged>, a: Attribute) -> (r: Result<String, DecodeError>)
    ensures
        match r {
            Ok(v) => required(input@, a) == Ok::<Seq<char>, Failure>(v@),
            Err(e) => required(input@, a) == Err::<Seq<char>, Failure>(e@),
        },
{
    match require(input, a) {
        Ok(raw) => Ok(raw.to_owned()),
        Err(e) => Err(e),
    }
}

/// Decodes the observation time.
fn decode_date(input: &Vec<Tagged>) -> (r: Result<Timestamp, DecodeError>)
    ensures
        match r {
            Ok(v) => decoded_date(input@) == Ok::<Moment, Failure>(v@),
            Err(e) => decoded_date(input@) == Err::<Moment, Failure>(e@),
        },
{
    let raw = match require(input, Attribute::Date) {
        Ok(raw) => raw,
        Err(e) => {
            return Err(e);
        },
    };
    match Timestamp::parse(raw) {
        Some(t) => Ok(t),
        None => Err(
            DecodeError {
                field: Id::Attribute(Attribute::Date),
                raw: raw.to_owned(),
                fault: Fault::Timestamp,
            },
        ),
    }
}

/// The failure of a group whose segment `raw` could not be decoded.
fn group_failure(field: Id, raw: &str, fault: GroupFault) -> (r: DecodeError)
    ensures
        r@ == (Failure { field, raw: raw@, fault: Fault::Group(fault) }),
{
    DecodeError { field, raw: raw.to_owned(), fault: Fault::Group(fault) }
}

/// The views of what the decoder of the optional groups returned.
pub open spec fn groups_view(r: Result<Vec<Group>, DecodeError>) -> Result<Seq<GroupView>, Failure> {
    match r {
        Ok(groups) => Ok(group_views(groups@)),
        Err(e) => Err(e@),
    }
}

/// A failure among the first `k` slots of a category is the failure of every
/// longer run of its slots.
pub proof fn lemma_occurrence_failure_stays(
    input: Seq<Tagged>,
    category: Category,
    k: int,
    m: int,
    policy: Policy,
)
    requires
        0 <= k <= m,
        decoded_occurrences(input, category, k, policy) is Err,
    ensures
        decoded_occurrences(input, category, m, policy) == decoded_occurrences(
            input,
            category,
            k,
            policy,
        ),
    decreases m - k,
{
    if k < m {
        lemma_occurrence_failure_stays(input, category, k, m - 1, policy);
    }
}

/// A failure among the first `n` categories is the failure of every longer run
/// of categories.
pub proof fn lemma_optional_failure_stays(input: Seq<Tagged>, n: int, m: int, policy: Policy)
    requires
        0 <= n <= m,
        decoded_optional(input, n, policy) is Err,
    ensures
        decoded_optional(input, m, policy) == decoded_optional(input, n, policy),
    decreases m - n,
{
    if n < m {
        lemma_optional_failure_stays(input, n, m - 1, policy);
    }
}

/// Decodes the slots for additional data that the input fills.
fn decode_optional(input: &Vec<Tagged>, policy: Policy) -> (r: Result<Vec<Group>, DecodeError>)
    ensures
        groups_view(r) == decoded_optional(input@, CATEGORY_COUNT as int, policy),
{
    let mut groups: Vec<Group> = Vec::new();
    let mut ordinal: usize = 0;
    proof {
        assert(group_views(groups@) =~= Seq::<GroupView>::empty());
    }
    while ordinal < CATEGORY_COUNT
        invariant
            ordinal <= CATEGORY_COUNT,
            decoded_optional(input@, ordinal as int, policy) == Ok::<Seq<GroupView>, Failure>(
                group_views(groups@),
            ),
        decreases CATEGORY_COUNT - ordinal,
    {
        let category = Category::at(ordinal);
        let layout = category.layout();
        let first: u8 = category.first();
        let count: u8 = category.count();
        let ghost before = group_views(groups@);
        let mut k: u8 = 0;
        proof {
            assert(before + Seq::<GroupView>::empty() =~= before);
        }
        while k < count
            invariant
                k <= count,
                first == category.spec_first(),
                count == category.spec_count(),
                first + count <= 10,
                layout@ == category.columns(),
                decoded_optional(input@, ordinal as int, policy) == Ok::<Seq<GroupView>, Failure>(before),
                category == Category::spec_at(ordinal),
                ordinal < CATEGORY_COUNT,
                decoded_occurrences(input@, category, k as int, policy) is Ok,
                group_views(groups@) == before + decoded_occurrences(
                    input@,
                    category,
                    k as int,
                    policy,
                )->Ok_0,
            decreases count - k,
        {
            let slot = Slot { category, occurrence: first + k };
            assert(slot == slot_of(category, k as int));
            let name = slot.text();
            match find(input, name.as_str()) {
                None => {},
                Some(raw) => match decode_group(&layout, raw) {
                    Ok(fields) => {
                        let ghost done = groups@;
                        proof {
                            lemma_decoded_prefix_fields(
                                layout@,
                                crate::columns::columns(raw@),
                                layout.len() as int,
                            );
                        }
                        let group = Group { slot, fields };
                        groups.push(group);
                        proof {
                            assert(group_views(groups@) =~= group_views(done).push(group@));
                            assert(group_views(groups@) =~= before + decoded_occurrences(
                                input@,
                                category,
                                k + 1,
                                policy,
                            )->Ok_0);
                        }
                    },
                    Err(fault) => match policy {
                        Policy::Fail => {
                            proof {
                                lemma_occurrence_failure_stays(
                                    input@,
                                    category,
                                    k + 1,
                                    count as int,
                                    policy,
                                );
                                lemma_optional_failure_stays(
                                    input@,
                                    ordinal + 1,
                                    CATEGORY_COUNT as int,
                                    policy,
                                );
                            }
                            return Err(group_failure(Id::Slot(slot), raw, fault));
                        },
                        Policy::Omit => {},
                    },
                },
            }
            k += 1;
        }
        ordinal += 1;
    }
    Ok(groups)
}

impl Record {
    /// Decodes a record from the tagged segments of one observation.
    ///
    /// Every attribute and mandatory group must be there and well formed. Of the
    /// slots for additional data, those without a segment in the input are left
    /// out; a segment that is there must be well formed, or the record fails.
    pub fn decode(input: &Vec<Tagged>) -> (r: Result<Record, DecodeError>)
        ensures
            match r {
                Ok(record) => decoded_record(input@, Policy::Fail) == Ok::<RecordView, Failure>(
                    record@,
                ),
                Err(e) => decoded_record(input@, Policy::Fail) == Err::<RecordView, Failure>(e@),
            },
    {
        Self::decode_with(input, Policy::Fail)
    }

    /// Decodes a record from the tagged segments of one observation, with the
    /// given policy for additional data whose segment is malformed.
    ///
    /// Every attribute and mandatory group must be there and well formed. Of the
    /// slots for additional data, those without a segment in the input are left
    /// out.
    pub fn decode_with(input: &Vec<Tagged>, policy: Policy) -> (r: Result<Record, DecodeError>)
        ensures
            match r {
                Ok(record) => decoded_record(input@, policy) == Ok::<RecordView, Failure>(record@),
                Err(e) => decoded_record(input@, policy) == Err::<RecordView, Failure>(e@),
            },
    {
        let station = match decode_text(input, Attribute::Station, STATION_WIDTH) {
            Ok(v) => v,
            Err(e) => {
                return Err(e);
            },
        };
        let date = match decode_date(input) {
            Ok(v) => v,
            Err(e) => {
                return Err(e);
            },
        };
        let source = match decode_text(input, Attribute::Source, SOURCE_WIDTH) {
            Ok(v) => v,
            Err(e) => {
                return Err(e);
            },
        };
        let latitude = match decode_number(input, Attribute::Latitude, LATITUDE_WIDTH) {
            Ok(v) => v,
            Err(e) => {
                return Err(e);
            },
        };
        let longitude = match decode_number(input, Attribute::Longitude, LONGITUDE_WIDTH) {
            Ok(v) => v,
            Err(e) => {
                return Err(e);
            },
        };
        let elevation = match decode_plain_number(input, Attribute::Elevation) {
            Ok(v) => v,
            Err(e) => {
                return Err(e);
            },
        };
        let name = match decode_plain_text(input, Attribute::Name) {
            Ok(v) => v,
            Err(e) => {
                return Err(e);
            },
        };
        let report_type = match decode_text(input, Attribute::ReportType, REPORT_TYPE_WIDTH) {
            Ok(v) => v,
            Err(e) => {
                return Err(e);
            },
        };
        let call_sign = match decode_text(input, Attribute::CallSign, CALL_SIGN_WIDTH) {
            Ok(v) => v,
            Err(e) => {
                return Err(e);
            },
        };
        let quality_control = match decode_plain_text(input, Attribute::QualityControl) {
            Ok(v) => v,
            Err(e) => {
                return Err(e);
            },
        };
        let wnd = match require(input, Attribute::Wnd) {
            Err(e) => {
                return Err(e);
            },
            Ok(raw) => match Wind::decode(raw) {
                Ok(group) => group,
                Err(fault) => {
                    return Err(group_failure(Id::Attribute(Attribute::Wnd), raw, fault));
                },
            },
        };
        let cig = match require(input, Attribute::Cig) {
            Err(e) => {
                return Err(e);
            },
            Ok(raw) => match Ceiling::decode(raw) {
                Ok(group) => group,
                Err(fault) => {
                    return Err(group_failure(Id::Attribute(Attribute::Cig), raw, fault));
                },
            },
        };
        let vis = match require(input, Attribute::Vis) {
            Err(e) => {
                return Err(e);
            },
            Ok(raw) => match Visibility::decode(raw) {
                Ok(group) => group,
                Err(fault) => {
                    return Err(group_failure(Id::Attribute(Attribute::Vis), raw, fault));
                },
            },
        };
        let tmp = match require(input, Attribute::Tmp) {
            Err(e) => {
                return Err(e);
            },
            Ok(raw) => match Temperature::decode(raw) {
                Ok(group) => group,
                Err(fault) => {
                    return Err(group_failure(Id::Attribute(Attribute::Tmp), raw, fault));
                },
            },
        };
        let slp = match require(input, Attribute::Slp) {
            Err(e) => {
                return Err(e);
            },
            Ok(raw) => match SeaLevelPressure::decode(raw) {
                Ok(group) => group,
                Err(fault) => {
                    return Err(group_failure(Id::Attribute(Attribute::Slp), raw, fault));
                },
            },
        };
        let optional = match decode_optional(input, policy) {
            Ok(v) => v,
            Err(e) => {
                return Err(e);
            },
        };
        Ok(
            Record {
                station,
                date,
                source,
                latitude,
                longitude,
                elevation,
                name,
                report_type,
                call_sign,
                quality_control,
                wnd,
                cig,
                vis,
                tmp,
                slp,
                optional,
            },
        )
    }

    /// Encodes the record: the entries of its attributes, named in lower case,
    /// then one entry for each group of additional data that it holds.
    pub fn encode(&self) -> (r: Vec<Entry>)
        ensures
            entry_views(r@) == encoded(self@),
    {
        let mut entries: Vec<Entry> = vec![
            attribute_entry(Attribute::Station, encode_text(&self.station)),
            attribute_entry(Attribute::Date, Item::Text(self.date.format())),
            attribute_entry(Attribute::Source, encode_text(&self.source)),
            attribute_entry(Attribute::Latitude, encode_number(&self.latitude)),
            attribute_entry(Attribute::Longitude, encode_number(&self.longitude)),
            attribute_entry(Attribute::Elevation, Item::Number(self.elevation)),
            attribute_entry(Attribute::Name, encode_code(&self.name)),
            attribute_entry(Attribute::ReportType, encode_text(&self.report_type)),
            attribute_entry(Attribute::CallSign, encode_text(&self.call_sign)),
            attribute_entry(Attribute::QualityControl, encode_code(&self.quality_control)),
            mandatory_entry(Attribute::Wnd, self.wnd.encode()),
            mandatory_entry(Attribute::Cig, self.cig.encode()),
            mandatory_entry(Attribute::Vis, self.vis.encode()),
            mandatory_entry(Attribute::Tmp, self.tmp.encode()),
            mandatory_entry(Attribute::Slp, self.slp.encode()),
        ];
        assert(entry_views(entries@) =~= encoded_attributes(self@));
        let mut i: usize = 0;
        while i < self.optional.len()
            invariant
                i <= self.optional.len(),
                entries.len() == ATTRIBUTE_COUNT + i,
                entry_views(entries@).subrange(0, ATTRIBUTE_COUNT as int) == encoded_attributes(
                    self@,
                ),
                forall|j: int|
                    0 <= j < i ==> (#[trigger] entries@[ATTRIBUTE_COUNT + j])@ == slot_entry(
                        self.optional@[j]@,
                    ),
            decreases self.optional.len() - i,
        {
            let ghost before = entry_views(entries@);
            let entry = self.optional[i].encode();
            entries.push(entry);
            proof {
                assert(entry_views(entries@).subrange(0, ATTRIBUTE_COUNT as int) =~= before.subrange(
                    0,
                    ATTRIBUTE_COUNT as int,
                ));
            }
            i += 1;
        }
        proof {
            let all = entry_views(entries@);
            let slots = Seq::new(self@.optional.len(), |i: int| slot_entry(self@.optional[i]));
            assert forall|j: int| 0 <= j < slots.len() implies all[ATTRIBUTE_COUNT + j]
                == slots[j] by {
                assert(entries@[ATTRIBUTE_COUNT + j]@ == slot_entry(self.optional@[j]@));
                assert(self@.optional[j] == self.optional@[j]@);
            }
            assert(all =~= all.subrange(0, ATTRIBUTE_COUNT as int) + Seq::new(
                self@.optional.len(),
                |i: int| slot_entry(self@.optional[i]),
            ));
        }
        entries
    }
}

} // verus!
