//! How the columns of a field group are laid out: what each column is called, how it
//! is read, and in which unit it is reported.

use vstd::prelude::*;
use crate::error::ParseError;
use crate::rational::Rational;
use crate::record_value::{scaled, Measured, RecordValue};
use crate::text::FILLER;
use crate::value::{nullable, Value};

verus! {

/// The physical unit of a scaled column.
#[derive(Clone, Copy, Debug, PartialEq, Eq, Structural)]
pub enum Unit {
    /// Angular degrees.
    Degree,
    /// Metres per second.
    MetrePerSecond,
    /// Metres.
    Metre,
    /// Centimetres.
    Centimetre,
    /// Millimetres.
    Millimetre,
    /// Degrees Celsius.
    Celsius,
    /// Hectopascal.
    Hectopascal,
    /// Hours.
    Hour,
    /// Minutes.
    Minute,
    /// Days.
    Day,
    /// Percent.
    Percent,
    /// Watts per square metre.
    WattPerSquareMetre,
    /// Joules per square centimetre.
    JoulePerSquareCentimetre,
    /// Revolutions per second.
    RevolutionPerSecond,
    /// Volts.
    Volt,
    /// Kilometres.
    Kilometre,
    /// Inches.
    Inch,
    /// Statute miles.
    Mile,
    /// Cubic metres per second.
    CubicMetrePerSecond,
    /// Milliwatts per square metre.
    MilliwattPerSquareMetre,
    /// Watts.
    Watt,
    /// Hertz.
    Hertz,
    /// Ohms.
    Ohm,
    /// A plain number.
    Count,
}

impl Unit {
    /// The label that a value in this unit carries.
    pub open spec fn label(self) -> Seq<char> {
        match self {
            Unit::Degree => "deg"@,
            Unit::MetrePerSecond => "m/s"@,
            Unit::Metre => "m"@,
            Unit::Centimetre => "cm"@,
            Unit::Millimetre => "mm"@,
            Unit::Celsius => "degC"@,
            Unit::Hectopascal => "hPa"@,
            Unit::Hour => "h"@,
            Unit::Minute => "min"@,
            Unit::Day => "d"@,
            Unit::Percent => "%"@,
            Unit::WattPerSquareMetre => "W/m2"@,
            Unit::JoulePerSquareCentimetre => "J/cm2"@,
            Unit::RevolutionPerSecond => "1/s"@,
            Unit::Volt => "V"@,
            Unit::Kilometre => "km"@,
            Unit::Inch => "in"@,
            Unit::Mile => "mi"@,
            Unit::CubicMetrePerSecond => "m3/s"@,
            Unit::MilliwattPerSquareMetre => "mW/m2"@,
            Unit::Watt => "W"@,
            Unit::Hertz => "Hz"@,
            Unit::Ohm => "ohm"@,
            Unit::Count => "1"@,
        }
    }

    /// The label that a value in this unit carries.
    pub fn text(self) -> (r: &'static str)
        ensures
            r@ == self.label(),
    {
        match self {
            Unit::Degree => "deg",
            Unit::MetrePerSecond => "m/s",
            Unit::Metre => "m",
            Unit::Centimetre => "cm",
            Unit::Millimetre => "mm",
            Unit::Celsius => "degC",
            Unit::Hectopascal => "hPa",
            Unit::Hour => "h",
            Unit::Minute => "min",
            Unit::Day => "d",
            Unit::Percent => "%",
            Unit::WattPerSquareMetre => "W/m2",
            Unit::JoulePerSquareCentimetre => "J/cm2",
            Unit::RevolutionPerSecond => "1/s",
            Unit::Volt => "V",
            Unit::Kilometre => "km",
            Unit::Inch => "in",
            Unit::Mile => "mi",
            Unit::CubicMetrePerSecond => "m3/s",
            Unit::MilliwattPerSquareMetre => "mW/m2",
            Unit::Watt => "W",
            Unit::Hertz => "Hz",
            Unit::Ohm => "ohm",
            Unit::Count => "1",
        }
    }
}

/// How a column is read.
#[derive(Clone, Copy, Debug, PartialEq, Eq, Structural)]
pub enum Kind {
    /// A magnitude that is divided by `divisor` to reach `unit`; missing where the
    /// column holds no numeric character but the filler digit.
    Scaled { divisor: i64, unit: Unit },
    /// A plain number; missing where the column is the filler digit `width` times.
    Number { width: u8 },
    /// A plain text; missing where the column is the filler digit `width` times.
    Text { width: u8 },
    /// A code that is kept as it stands, such as a quality-control flag.
    Code,
}

/// One column of a field group.
#[derive(Clone, Copy, Debug, PartialEq, Eq)]
pub struct Column {
    /// The lower-case name under which the column is encoded.
    pub name: &'static str,
    /// How the column is read.
    pub kind: Kind,
}

/// What a column decodes to.
#[derive(Clone, Debug, PartialEq)]
pub enum Field {
    /// A quantity with its unit, or nothing.
    Scaled(Option<RecordValue<Rational>>),
    /// A number, or nothing.
    Number(Value<Rational>),
    /// A text, or nothing.
    Text(Value<String>),
    /// A code.
    Code(String),
}

/// What a [`Field`] holds.
pub ghost enum FieldView {
    Scaled(Option<Measured<(int, int)>>),
    Number(Option<(int, int)>),
    Text(Option<Seq<char>>),
    Code(Seq<char>),
}

impl View for Field {
    type V = FieldView;

    open spec fn view(&self) -> FieldView {
        match self {
            Field::Scaled(Some(v)) => FieldView::Scaled(Some(v@)),
            Field::Scaled(None) => FieldView::Scaled(None),
            Field::Number(v) => FieldView::Number(v@),
            Field::Text(v) => FieldView::Text(v@),
            Field::Code(c) => FieldView::Code(c@),
        }
    }
}

/// The sentinel of a plain column of the given width: the filler digit, `width`
/// times.
pub open spec fn sentinel(width: nat) -> Seq<char> {
    Seq::new(width, |i: int| FILLER)
}

/// What the text `s` of a column of the given kind decodes to.
pub open spec fn decoded_field(kind: Kind, s: Seq<char>) -> Result<FieldView, ParseError> {
    match kind {
        Kind::Scaled { divisor, unit } => match scaled::<Rational>(
            s,
            unit.label(),
            (divisor as int, 1int),
        ) {
            Ok(v) => Ok(FieldView::Scaled(v)),
            Err(e) => Err(e),
        },
        Kind::Number { width } => match nullable::<Rational>(s, sentinel(width as nat)) {
            Ok(v) => Ok(FieldView::Number(v)),
            Err(e) => Err(e),
        },
        Kind::Text { width } => match nullable::<String>(s, sentinel(width as nat)) {
            Ok(v) => Ok(FieldView::Text(v)),
            Err(e) => Err(e),
        },
        Kind::Code => Ok(FieldView::Code(s)),
    }
}

/// The views of what a column decoder returned.
pub open spec fn field_view(r: Result<Field, ParseError>) -> Result<FieldView, ParseError> {
    match r {
        Ok(f) => Ok(f@),
        Err(e) => Err(e),
    }
}

/// The sentinel of a plain column of the given width.
pub fn sentinel_text(width: u8) -> (r: String)
    ensures
        r@ == sentinel(width as nat),
{
    let mut text: String = String::new();
    let mut i: u8 = 0;
    proof {
        reveal_strlit("9");
    }
    while i < width
        invariant
            i <= width,
            text@ == sentinel(i as nat),
            "9"@ == seq![FILLER],
        decreases width - i,
    {
        text.append("9");
        i += 1;
        assert(text@ =~= sentinel(i as nat));
    }
    text
}

/// Decodes the text `s` of a column of the given kind.
pub fn decode_field(kind: Kind, s: &str) -> (r: Result<Field, ParseError>)
    ensures
        field_view(r) == decoded_field(kind, s@),
{
    match kind {
        Kind::Scaled { divisor, unit } => {
            match RecordValue::<Rational>::parse(s, unit.text(), Rational::from_integer(divisor)) {
                Ok(v) => Ok(Field::Scaled(v)),
                Err(e) => Err(e),
            }
        },
        Kind::Number { width } => {
            let missing = sentinel_text(width);
            match Value::<Rational>::from_str(s, missing.as_str()) {
                Ok(v) => Ok(Field::Number(v)),
                Err(e) => Err(e),
            }
        },
        Kind::Text { width } => {
            let missing = sentinel_text(width);
            match Value::<String>::from_str(s, missing.as_str()) {
                Ok(v) => Ok(Field::Text(v)),
                Err(e) => Err(e),
            }
        },
        Kind::Code => Ok(Field::Code(s.to_owned())),
    }
}

} // verus!
