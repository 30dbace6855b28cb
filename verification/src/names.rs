//! How the attributes of a record are named: in upper case where a record is
//! decoded, in lower case where it is encoded.

use vstd::prelude::*;
use crate::category::Category;
use crate::digits::{digit_char, digit_text};

verus! {

/// The upper-case form of an ASCII letter; any other character stays as it is.
pub open spec fn upper(c: char) -> char {
    if 'a' <= c && c <= 'z' {
        ((c as int) - 32) as char
    } else {
        c
    }
}

/// The code under which the attribute of the lower-case name `name` is looked up
/// in the input: the name in upper case.
pub open spec fn code_of(name: Seq<char>) -> Seq<char> {
    Seq::new(name.len(), |i: int| upper(name[i]))
}

/// The upper-case form of an ASCII letter; any other character stays as it is.
pub fn to_upper(c: char) -> (r: char)
    ensures
        r == upper(c),
{
    if 'a' <= c && c <= 'z' {
        ((c as u8) - 32) as char
    } else {
        c
    }
}

/// Whether `tag` is the input code of the attribute named `name`.
pub fn is_code_of(tag: &str, name: &str) -> (r: bool)
    ensures
        r == (tag@ == code_of(name@)),
{
    let n: usize = name.unicode_len();
    if tag.unicode_len() != n {
        return false;
    }
    let mut i: usize = 0;
    while i < n
        invariant
            n == name@.len(),
            n == tag@.len(),
            i <= n,
            forall|j: int| 0 <= j < i ==> tag@[j] == upper(name@[j]),
        decreases n - i,
    {
        if tag.get_char(i) != to_upper(name.get_char(i)) {
            assert(code_of(name@)[i as int] == upper(name@[i as int]));
            return false;
        }
        i += 1;
    }
    assert(tag@ =~= code_of(name@));
    true
}

/// One tagged segment of the input: the code of an attribute and its raw text.
#[derive(Clone, Debug, PartialEq, Eq)]
pub struct Tagged {
    /// The upper-case code of the attribute.
    pub code: String,
    /// The raw text of the attribute.
    pub raw: String,
}

/// The index of the first segment at or after `from` that carries the code `code`.
pub open spec fn position_from(input: Seq<Tagged>, code: Seq<char>, from: int) -> Option<int>
    decreases input.len() - from,
{
    if from < 0 || from >= input.len() {
        None
    } else if input[from].code@ == code {
        Some(from)
    } else {
        position_from(input, code, from + 1)
    }
}

/// The raw text of the first segment that carries the code `code`.
pub open spec fn lookup(input: Seq<Tagged>, code: Seq<char>) -> Option<Seq<char>> {
    match position_from(input, code, 0) {
        Some(i) => Some(input[i].raw@),
        None => None,
    }
}

/// Finds the raw text of the attribute named `name` in the input.
pub fn find<'a>(input: &'a Vec<Tagged>, name: &str) -> (r: Option<&'a str>)
    ensures
        match r {
            Some(raw) => lookup(input@, code_of(name@)) == Some(raw@),
            None => lookup(input@, code_of(name@)) is None,
        },
{
    let mut i: usize = 0;
    while i < input.len()
        invariant
            i <= input.len(),
            position_from(input@, code_of(name@), 0) == position_from(
                input@,
                code_of(name@),
                i as int,
            ),
        decreases input.len() - i,
    {
        if is_code_of(input[i].code.as_str(), name) {
            return Some(input[i].raw.as_str());
        }
        i += 1;
    }
    None
}

/// An attribute that every record holds.
#[derive(Clone, Copy, Debug, PartialEq, Eq, Structural)]
pub enum Attribute {
    /// The identifier of the station.
    Station,
    /// The time of the observation.
    Date,
    /// The code of the data source.
    Source,
    /// The latitude of the station, negative south of the equator.
    Latitude,
    /// The longitude of the station, negative west of Greenwich.
    Longitude,
    /// The elevation of the station.
    Elevation,
    /// The name of the station.
    Name,
    /// The code of the type of report.
    ReportType,
    /// The call sign of the station.
    CallSign,
    /// The code of the quality-control process that the record went through.
    QualityControl,
    /// The wind observation.
    Wnd,
    /// The sky condition observation.
    Cig,
    /// The visibility observation.
    Vis,
    /// The air temperature observation.
    Tmp,
    /// The sea-level pressure observation.
    Slp,
}

impl Attribute {
    /// The lower-case name of the attribute.
    pub open spec fn name(self) -> Seq<char> {
        match self {
            Attribute::Station => "station"@,
            Attribute::Date => "date"@,
            Attribute::Source => "source"@,
            Attribute::Latitude => "latitude"@,
            Attribute::Longitude => "longitude"@,
            Attribute::Elevation => "elevation"@,
            Attribute::Name => "name"@,
            Attribute::ReportType => "report_type"@,
            Attribute::CallSign => "call_sign"@,
            Attribute::QualityControl => "quality_control"@,
            Attribute::Wnd => "wnd"@,
            Attribute::Cig => "cig"@,
            Attribute::Vis => "vis"@,
            Attribute::Tmp => "tmp"@,
            Attribute::Slp => "slp"@,
        }
    }

    /// The lower-case name of the attribute.
    pub fn text(self) -> (r: &'static str)
        ensures
            r@ == self.name(),
    {
        match self {
            Attribute::Station => "station",
            Attribute::Date => "date",
            Attribute::Source => "source",
            Attribute::Latitude => "latitude",
            Attribute::Longitude => "longitude",
            Attribute::Elevation => "elevation",
            Attribute::Name => "name",
            Attribute::ReportType => "report_type",
            Attribute::CallSign => "call_sign",
            Attribute::QualityControl => "quality_control",
            Attribute::Wnd => "wnd",
            Attribute::Cig => "cig",
            Attribute::Vis => "vis",
            Attribute::Tmp => "tmp",
            Attribute::Slp => "slp",
        }
    }
}

/// One of the numbered places of a record that a category of additional data can
/// fill.
#[derive(Clone, Copy, Debug, PartialEq, Eq, Structural)]
pub struct Slot {
    /// The category of the slot.
    pub category: Category,
    /// The number of the slot among those that start with the same letters.
    pub occurrence: u8,
}

impl Slot {
    /// Whether the category has a slot of this number.
    pub open spec fn valid(self) -> bool {
        self.category.spec_first() <= self.occurrence < self.category.spec_first()
            + self.category.spec_count()
    }

    /// The lower-case name of the slot: the letters of its category and its number.
    pub open spec fn name(self) -> Seq<char> {
        self.category.letters().push(digit_char(self.occurrence as int))
    }

    /// The lower-case name of the slot.
    pub fn text(self) -> (r: String)
        requires
            self.occurrence < 10,
        ensures
            r@ == self.name(),
    {
        let mut r = self.category.prefix().to_owned();
        r.append(digit_text(self.occurrence));
        assert(r@ =~= self.name());
        r
    }
}

/// What an entry of a record is identified by.
#[derive(Clone, Copy, Debug, PartialEq, Eq, Structural)]
pub enum Id {
    /// An attribute that every record holds.
    Attribute(Attribute),
    /// A slot that additional data may fill.
    Slot(Slot),
}

impl Id {
    /// The lower-case name under which the entry is encoded.
    pub open spec fn name(self) -> Seq<char> {
        match self {
            Id::Attribute(a) => a.name(),
            Id::Slot(s) => s.name(),
        }
    }

    /// The upper-case code under which the entry is looked up in the input.
    pub open spec fn code(self) -> Seq<char> {
        code_of(self.name())
    }
}

} // verus!
