//! The categories of additional data: which slots of a record each fills, and how
//! the columns of its segment are laid out.

use vstd::prelude::*;
use crate::layout::{Column, Kind, Unit};

verus! {

/// The number of categories.
pub const CATEGORY_COUNT: usize = 81;

/// A category of additional data. All the slots of a category share one layout.
#[derive(Clone, Copy, Debug, PartialEq, Eq, Structural)]
pub enum Category {
    /// Precipitation: liquid precipitation over a number of hours.
    AAX,
    /// Precipitation: liquid precipitation, total of the month.
    AB1,
    /// Precipitation: history of the precipitation observation.
    AC1,
    /// Precipitation: liquid precipitation, greatest amount in 24 hours of the month.
    AD1,
    /// Precipitation: liquid precipitation, number of days of the month with given amounts.
    AE1,
    /// Precipitation: estimated precipitation.
    AG1,
    /// Precipitation: liquid precipitation, greatest amount of the month in a short period.
    AHX,
    /// Precipitation: liquid precipitation, greatest amount of the month in a longer period.
    AIX,
    /// Precipitation: snow depth on the ground.
    AJ1,
    /// Precipitation: snow depth, greatest of the month.
    AK1,
    /// Precipitation: snow accumulation over a number of hours.
    ALX,
    /// Precipitation: snow accumulation, greatest amount in 24 hours of the month.
    AM1,
    /// Precipitation: snow accumulation of the month.
    AN1,
    /// Precipitation: liquid precipitation over a number of minutes.
    AOX,
    /// Weather occurrence: present weather, daily occurrence.
    ATX,
    /// Weather occurrence: present weather, by its components.
    AUX,
    /// Weather occurrence: present weather, reported by an automated sensor.
    AWX,
    /// Weather occurrence: past weather, summary of the day.
    AXX,
    /// Weather occurrence: past weather, observed manually.
    AYX,
    /// Weather occurrence: past weather, reported by an automated sensor.
    AZX,
    /// Weather occurrence: present weather, observed manually.
    MWX,
    /// Climate reference network: liquid precipitation of part of an hour, secondary sensor.
    CBX,
    /// Climate reference network: fan speed of the hour.
    CFX,
    /// Climate reference network: liquid precipitation of part of an hour, primary sensor.
    CGX,
    /// Climate reference network: temperature and relative humidity of part of an hour.
    CHX,
    /// Climate reference network: temperature and relative humidity of the hour.
    CI1,
    /// Climate reference network: battery voltage of the hour.
    CN1,
    /// Climate reference network: diagnostics of the hour.
    CN2,
    /// Climate reference network: secondary diagnostics of the hour: resistor and signature.
    CN3,
    /// Climate reference network: secondary diagnostics of the hour: heater, door and transmitter.
    CN4,
    /// Network metadata: climate division and offset from universal time.
    CO1,
    /// Network metadata: time offset of one element.
    COX,
    /// Network metadata: version of the datalogger.
    CR1,
    /// Network metadata: air temperature of part of an hour.
    CTX,
    /// Network metadata: air temperature of the hour.
    CUX,
    /// Network metadata: extremes of the air temperature of the hour.
    CVX,
    /// Network metadata: wetness of part of an hour.
    CW1,
    /// Network metadata: precipitation of the hour, by a vibrating-wire gauge.
    CXX,
    /// Runway visual range: visual range along a runway.
    ED1,
    /// Cloud and solar: one layer of the sky cover.
    GAX,
    /// Cloud and solar: sky cover, summed up to one layer.
    GDX,
    /// Cloud and solar: sky condition: convective cloud and the range of the base height.
    GE1,
    /// Cloud and solar: sky condition: coverage and the genus of the clouds.
    GF1,
    /// Cloud and solar: one cloud layer below the station.
    GGX,
    /// Cloud and solar: solar radiation of the hour.
    GH1,
    /// Cloud and solar: duration of sunshine.
    GJ1,
    /// Cloud and solar: sunshine, as a share of what was possible.
    GK1,
    /// Cloud and solar: duration of sunshine of the month.
    GL1,
    /// Cloud and solar: solar irradiance.
    GM1,
    /// Cloud and solar: solar and infrared radiation.
    GN1,
    /// Cloud and solar: net radiation.
    GO1,
    /// Cloud and solar: solar irradiance, as modelled.
    GP1,
    /// Cloud and solar: angles of the sun over the hour.
    GQ1,
    /// Cloud and solar: radiation above the atmosphere over the hour.
    GR1,
    /// Ground surface: state of the ground surface.
    IA1,
    /// Ground surface: lowest temperature of the ground surface.
    IA2,
    /// Ground surface: temperature of the ground surface over the hour.
    IB1,
    /// Ground surface: evaporation from a pan.
    IC1,
    /// Temperature: extreme of the air temperature over a period.
    KAX,
    /// Temperature: extreme of the air temperature of the month.
    KCX,
    /// Temperature: heating or cooling degree days.
    KDX,
    /// Temperature: number of days of the month on which the temperature passed given marks.
    KE1,
    /// Temperature: air temperature of the hour, as calculated.
    KF1,
    /// Temperature: average dew point or wet-bulb temperature.
    KGX,
    /// Pressure: atmospheric pressure: altimeter setting and pressure at the station.
    MA1,
    /// Pressure: change of the atmospheric pressure.
    MD1,
    /// Pressure: height of an isobaric level.
    ME1,
    /// Pressure: atmospheric pressure: averages of the day.
    MF1,
    /// Pressure: atmospheric pressure of the day: average and lowest.
    MG1,
    /// Pressure: atmospheric pressure: averages of the month.
    MH1,
    /// Pressure: atmospheric pressure: extremes of the month.
    MK1,
    /// Wind: supplementary wind observation.
    OAX,
    /// Wind: wind over the hour or part of it.
    OBX,
    /// Wind: wind gust.
    OC1,
    /// Wind: supplementary wind observation with direction.
    ODX,
    /// Wind: wind, summary of the day.
    OEX,
    /// Wind: relative humidity over a period.
    RHX,
    /// Sea surface temperature: temperature of the sea surface.
    SA1,
    /// Marine: ice on the water surface.
    WD1,
    /// Marine: ice on the water surface, as formerly reported.
    WG1,
    /// Marine: water level and ice.
    WJ1,
}

impl Category {
    /// The category at the given place of the canonical order.
    pub open spec fn spec_at(ordinal: usize) -> Category {
        match ordinal {
            0 => Category::AAX,
            1 => Category::AB1,
            2 => Category::AC1,
            3 => Category::AD1,
            4 => Category::AE1,
            5 => Category::AG1,
            6 => Category::AHX,
            7 => Category::AIX,
            8 => Category::AJ1,
            9 => Category::AK1,
            10 => Category::ALX,
            11 => Category::AM1,
            12 => Category::AN1,
            13 => Category::AOX,
            14 => Category::ATX,
            15 => Category::AUX,
            16 => Category::AWX,
            17 => Category::AXX,
            18 => Category::AYX,
            19 => Category::AZX,
            20 => Category::MWX,
            21 => Category::CBX,
            22 => Category::CFX,
            23 => Category::CGX,
            24 => Category::CHX,
            25 => Category::CI1,
            26 => Category::CN1,
            27 => Category::CN2,
            28 => Category::CN3,
            29 => Category::CN4,
            30 => Category::CO1,
            31 => Category::COX,
            32 => Category::CR1,
            33 => Category::CTX,
            34 => Category::CUX,
            35 => Category::CVX,
            36 => Category::CW1,
            37 => Category::CXX,
            38 => Category::ED1,
            39 => Category::GAX,
            40 => Category::GDX,
            41 => Category::GE1,
            42 => Category::GF1,
            43 => Category::GGX,
            44 => Category::GH1,
            45 => Category::GJ1,
            46 => Category::GK1,
            47 => Category::GL1,
            48 => Category::GM1,
            49 => Category::GN1,
            50 => Category::GO1,
            51 => Category::GP1,
            52 => Category::GQ1,
            53 => Category::GR1,
            54 => Category::IA1,
            55 => Category::IA2,
            56 => Category::IB1,
            57 => Category::IC1,
            58 => Category::KAX,
            59 => Category::KCX,
            60 => Category::KDX,
            61 => Category::KE1,
            62 => Category::KF1,
            63 => Category::KGX,
            64 => Category::MA1,
            65 => Category::MD1,
            66 => Category::ME1,
            67 => Category::MF1,
            68 => Category::MG1,
            69 => Category::MH1,
            70 => Category::MK1,
            71 => Category::OAX,
            72 => Category::OBX,
            73 => Category::OC1,
            74 => Category::ODX,
            75 => Category::OEX,
            76 => Category::RHX,
            77 => Category::SA1,
            78 => Category::WD1,
            79 => Category::WG1,
            _ => Category::WJ1,
        }
    }

    /// The category at the given place of the canonical order.
    #[verifier::when_used_as_spec(spec_at)]
    pub fn at(ordinal: usize) -> (r: Category)
        requires
            ordinal < CATEGORY_COUNT,
        ensures
            r == Self::spec_at(ordinal),
    {
        match ordinal {
            0 => Category::AAX,
            1 => Category::AB1,
            2 => Category::AC1,
            3 => Category::AD1,
            4 => Category::AE1,
            5 => Category::AG1,
            6 => Category::AHX,
            7 => Category::AIX,
            8 => Category::AJ1,
            9 => Category::AK1,
            10 => Category::ALX,
            11 => Category::AM1,
            12 => Category::AN1,
            13 => Category::AOX,
            14 => Category::ATX,
            15 => Category::AUX,
            16 => Category::AWX,
            17 => Category::AXX,
            18 => Category::AYX,
            19 => Category::AZX,
            20 => Category::MWX,
            21 => Category::CBX,
            22 => Category::CFX,
            23 => Category::CGX,
            24 => Category::CHX,
            25 => Category::CI1,
            26 => Category::CN1,
            27 => Category::CN2,
            28 => Category::CN3,
            29 => Category::CN4,
            30 => Category::CO1,
            31 => Category::COX,
            32 => Category::CR1,
            33 => Category::CTX,
            34 => Category::CUX,
            35 => Category::CVX,
            36 => Category::CW1,
            37 => Category::CXX,
            38 => Category::ED1,
            39 => Category::GAX,
            40 => Category::GDX,
            41 => Category::GE1,
            42 => Category::GF1,
            43 => Category::GGX,
            44 => Category::GH1,
            45 => Category::GJ1,
            46 => Category::GK1,
            47 => Category::GL1,
            48 => Category::GM1,
            49 => Category::GN1,
            50 => Category::GO1,
            51 => Category::GP1,
            52 => Category::GQ1,
            53 => Category::GR1,
            54 => Category::IA1,
            55 => Category::IA2,
            56 => Category::IB1,
            57 => Category::IC1,
            58 => Category::KAX,
            59 => Category::KCX,
            60 => Category::KDX,
            61 => Category::KE1,
            62 => Category::KF1,
            63 => Category::KGX,
            64 => Category::MA1,
            65 => Category::MD1,
            66 => Category::ME1,
            67 => Category::MF1,
            68 => Category::MG1,
            69 => Category::MH1,
            70 => Category::MK1,
            71 => Category::OAX,
            72 => Category::OBX,
            73 => Category::OC1,
            74 => Category::ODX,
            75 => Category::OEX,
            76 => Category::RHX,
            77 => Category::SA1,
            78 => Category::WD1,
            79 => Category::WG1,
            _ => Category::WJ1,
        }
    }

    /// The two lower-case letters that the names of the category's slots start with.
    pub open spec fn letters(self) -> Seq<char> {
        match self {
            Category::AAX => "aa"@,
            Category::AB1 => "ab"@,
            Category::AC1 => "ac"@,
            Category::AD1 => "ad"@,
            Category::AE1 => "ae"@,
            Category::AG1 => "ag"@,
            Category::AHX => "ah"@,
            Category::AIX => "ai"@,
            Category::AJ1 => "aj"@,
            Category::AK1 => "ak"@,
            Category::ALX => "al"@,
            Category::AM1 => "am"@,
            Category::AN1 => "an"@,
            Category::AOX => "ao"@,
            Category::ATX => "at"@,
            Category::AUX => "au"@,
            Category::AWX => "aw"@,
            Category::AXX => "ax"@,
            Category::AYX => "ay"@,
            Category::AZX => "az"@,
            Category::MWX => "mw"@,
            Category::CBX => "cb"@,
            Category::CFX => "cf"@,
            Category::CGX => "cg"@,
            Category::CHX => "ch"@,
            Category::CI1 => "ci"@,
            Category::CN1 => "cn"@,
            Category::CN2 => "cn"@,
            Category::CN3 => "cn"@,
            Category::CN4 => "cn"@,
            Category::CO1 => "co"@,
            Category::COX => "co"@,
            Category::CR1 => "cr"@,
            Category::CTX => "ct"@,
            Category::CUX => "cu"@,
            Category::CVX => "cv"@,
            Category::CW1 => "cw"@,
            Category::CXX => "cx"@,
            Category::ED1 => "ed"@,
            Category::GAX => "ga"@,
            Category::GDX => "gd"@,
            Category::GE1 => "ge"@,
            Category::GF1 => "gf"@,
            Category::GGX => "gg"@,
            Category::GH1 => "gh"@,
            Category::GJ1 => "gj"@,
            Category::GK1 => "gk"@,
            Category::GL1 => "gl"@,
            Category::GM1 => "gm"@,
            Category::GN1 => "gn"@,
            Category::GO1 => "go"@,
            Category::GP1 => "gp"@,
            Category::GQ1 => "gq"@,
            Category::GR1 => "gr"@,
            Category::IA1 => "ia"@,
            Category::IA2 => "ia"@,
            Category::IB1 => "ib"@,
            Category::IC1 => "ic"@,
            Category::KAX => "ka"@,
            Category::KCX => "kc"@,
            Category::KDX => "kd"@,
            Category::KE1 => "ke"@,
            Category::KF1 => "kf"@,
            Category::KGX => "kg"@,
            Category::MA1 => "ma"@,
            Category::MD1 => "md"@,
            Category::ME1 => "me"@,
            Category::MF1 => "mf"@,
            Category::MG1 => "mg"@,
            Category::MH1 => "mh"@,
            Category::MK1 => "mk"@,
            Category::OAX => "oa"@,
            Category::OBX => "ob"@,
            Category::OC1 => "oc"@,
            Category::ODX => "od"@,
            Category::OEX => "oe"@,
            Category::RHX => "rh"@,
            Category::SA1 => "sa"@,
            Category::WD1 => "wd"@,
            Category::WG1 => "wg"@,
            Category::WJ1 => "wj"@,
        }
    }

    /// The two lower-case letters that the names of the category's slots start with.
    pub fn prefix(self) -> (r: &'static str)
        ensures
            r@ == self.letters(),
    {
        match self {
            Category::AAX => "aa",
            Category::AB1 => "ab",
            Category::AC1 => "ac",
            Category::AD1 => "ad",
            Category::AE1 => "ae",
            Category::AG1 => "ag",
            Category::AHX => "ah",
            Category::AIX => "ai",
            Category::AJ1 => "aj",
            Category::AK1 => "ak",
            Category::ALX => "al",
            Category::AM1 => "am",
            Category::AN1 => "an",
            Category::AOX => "ao",
            Category::ATX => "at",
            Category::AUX => "au",
            Category::AWX => "aw",
            Category::AXX => "ax",
            Category::AYX => "ay",
            Category::AZX => "az",
            Category::MWX => "mw",
            Category::CBX => "cb",
            Category::CFX => "cf",
            Category::CGX => "cg",
            Category::CHX => "ch",
            Category::CI1 => "ci",
            Category::CN1 => "cn",
            Category::CN2 => "cn",
            Category::CN3 => "cn",
            Category::CN4 => "cn",
            Category::CO1 => "co",
            Category::COX => "co",
            Category::CR1 => "cr",
            Category::CTX => "ct",
            Category::CUX => "cu",
            Category::CVX => "cv",
            Category::CW1 => "cw",
            Category::CXX => "cx",
            Category::ED1 => "ed",
            Category::GAX => "ga",
            Category::GDX => "gd",
            Category::GE1 => "ge",
            Category::GF1 => "gf",
            Category::GGX => "gg",
            Category::GH1 => "gh",
            Category::GJ1 => "gj",
            Category::GK1 => "gk",
            Category::GL1 => "gl",
            Category::GM1 => "gm",
            Category::GN1 => "gn",
            Category::GO1 => "go",
            Category::GP1 => "gp",
            Category::GQ1 => "gq",
            Category::GR1 => "gr",
            Category::IA1 => "ia",
            Category::IA2 => "ia",
            Category::IB1 => "ib",
            Category::IC1 => "ic",
            Category::KAX => "ka",
            Category::KCX => "kc",
            Category::KDX => "kd",
            Category::KE1 => "ke",
            Category::KF1 => "kf",
            Category::KGX => "kg",
            Category::MA1 => "ma",
            Category::MD1 => "md",
            Category::ME1 => "me",
            Category::MF1 => "mf",
            Category::MG1 => "mg",
            Category::MH1 => "mh",
            Category::MK1 => "mk",
            Category::OAX => "oa",
            Category::OBX => "ob",
            Category::OC1 => "oc",
            Category::ODX => "od",
            Category::OEX => "oe",
            Category::RHX => "rh",
            Category::SA1 => "sa",
            Category::WD1 => "wd",
            Category::WG1 => "wg",
            Category::WJ1 => "wj",
        }
    }

    /// The number of the category's first slot.
    pub open spec fn spec_first(self) -> u8 {
        match self {
            Category::CN2 => 2,
            Category::CN3 => 3,
            Category::CN4 => 4,
            Category::COX => 2,
            Category::IA2 => 2,
            _ => 1,
        }
    }

    /// The number of the category's first slot.
    #[verifier::when_used_as_spec(spec_first)]
    pub fn first(self) -> (r: u8)
        ensures
            r == self.spec_first(),
    {
        match self {
            Category::CN2 => 2,
            Category::CN3 => 3,
            Category::CN4 => 4,
            Category::COX => 2,
            Category::IA2 => 2,
            _ => 1,
        }
    }

    /// The number of slots that the category has.
    pub open spec fn spec_count(self) -> u8 {
        match self {
            Category::AAX => 4,
            Category::AB1 => 1,
            Category::AC1 => 1,
            Category::AD1 => 1,
            Category::AE1 => 1,
            Category::AG1 => 1,
            Category::AHX => 6,
            Category::AIX => 6,
            Category::AJ1 => 1,
            Category::AK1 => 1,
            Category::ALX => 4,
            Category::AM1 => 1,
            Category::AN1 => 1,
            Category::AOX => 4,
            Category::ATX => 8,
            Category::AUX => 9,
            Category::AWX => 4,
            Category::AXX => 6,
            Category::AYX => 2,
            Category::AZX => 2,
            Category::MWX => 7,
            Category::CBX => 2,
            Category::CFX => 3,
            Category::CGX => 3,
            Category::CHX => 2,
            Category::CI1 => 1,
            Category::CN1 => 1,
            Category::CN2 => 1,
            Category::CN3 => 1,
            Category::CN4 => 1,
            Category::CO1 => 1,
            Category::COX => 8,
            Category::CR1 => 1,
            Category::CTX => 3,
            Category::CUX => 3,
            Category::CVX => 3,
            Category::CW1 => 1,
            Category::CXX => 3,
            Category::ED1 => 1,
            Category::GAX => 6,
            Category::GDX => 6,
            Category::GE1 => 1,
            Category::GF1 => 1,
            Category::GGX => 6,
            Category::GH1 => 1,
            Category::GJ1 => 1,
            Category::GK1 => 1,
            Category::GL1 => 1,
            Category::GM1 => 1,
            Category::GN1 => 1,
            Category::GO1 => 1,
            Category::GP1 => 1,
            Category::GQ1 => 1,
            Category::GR1 => 1,
            Category::IA1 => 1,
            Category::IA2 => 1,
            Category::IB1 => 1,
            Category::IC1 => 1,
            Category::KAX => 4,
            Category::KCX => 2,
            Category::KDX => 2,
            Category::KE1 => 1,
            Category::KF1 => 1,
            Category::KGX => 2,
            Category::MA1 => 1,
            Category::MD1 => 1,
            Category::ME1 => 1,
            Category::MF1 => 1,
            Category::MG1 => 1,
            Category::MH1 => 1,
            Category::MK1 => 1,
            Category::OAX => 5,
            Category::OBX => 2,
            Category::OC1 => 1,
            Category::ODX => 3,
            Category::OEX => 3,
            Category::RHX => 2,
            Category::SA1 => 1,
            Category::WD1 => 1,
            Category::WG1 => 1,
            Category::WJ1 => 1,
        }
    }

    /// The number of slots that the category has.
    #[verifier::when_used_as_spec(spec_count)]
    pub fn count(self) -> (r: u8)
        ensures
            r == self.spec_count(),
            1 <= self.spec_first(),
            1 <= r,
            self.spec_first() + r <= 10,
    {
        match self {
            Category::AAX => 4,
            Category::AB1 => 1,
            Category::AC1 => 1,
            Category::AD1 => 1,
            Category::AE1 => 1,
            Category::AG1 => 1,
            Category::AHX => 6,
            Category::AIX => 6,
            Category::AJ1 => 1,
            Category::AK1 => 1,
            Category::ALX => 4,
            Category::AM1 => 1,
            Category::AN1 => 1,
            Category::AOX => 4,
            Category::ATX => 8,
            Category::AUX => 9,
            Category::AWX => 4,
            Category::AXX => 6,
            Category::AYX => 2,
            Category::AZX => 2,
            Category::MWX => 7,
            Category::CBX => 2,
            Category::CFX => 3,
            Category::CGX => 3,
            Category::CHX => 2,
            Category::CI1 => 1,
            Category::CN1 => 1,
            Category::CN2 => 1,
            Category::CN3 => 1,
            Category::CN4 => 1,
            Category::CO1 => 1,
            Category::COX => 8,
            Category::CR1 => 1,
            Category::CTX => 3,
            Category::CUX => 3,
            Category::CVX => 3,
            Category::CW1 => 1,
            Category::CXX => 3,
            Category::ED1 => 1,
            Category::GAX => 6,
            Category::GDX => 6,
            Category::GE1 => 1,
            Category::GF1 => 1,
            Category::GGX => 6,
            Category::GH1 => 1,
            Category::GJ1 => 1,
            Category::GK1 => 1,
            Category::GL1 => 1,
            Category::GM1 => 1,
            Category::GN1 => 1,
            Category::GO1 => 1,
            Category::GP1 => 1,
            Category::GQ1 => 1,
            Category::GR1 => 1,
            Category::IA1 => 1,
            Category::IA2 => 1,
            Category::IB1 => 1,
            Category::IC1 => 1,
            Category::KAX => 4,
            Category::KCX => 2,
            Category::KDX => 2,
            Category::KE1 => 1,
            Category::KF1 => 1,
            Category::KGX => 2,
            Category::MA1 => 1,
            Category::MD1 => 1,
            Category::ME1 => 1,
            Category::MF1 => 1,
            Category::MG1 => 1,
            Category::MH1 => 1,
            Category::MK1 => 1,
            Category::OAX => 5,
            Category::OBX => 2,
            Category::OC1 => 1,
            Category::ODX => 3,
            Category::OEX => 3,
            Category::RHX => 2,
            Category::SA1 => 1,
            Category::WD1 => 1,
            Category::WG1 => 1,
            Category::WJ1 => 1,
        }
    }

    /// The columns of the category's segment, in order.
    pub open spec fn columns(self) -> Seq<Column> {
        match self {
            Category::AAX => seq![
                Column { name: "period", kind: Kind::Scaled { divisor: 1, unit: Unit::Hour } },
                Column { name: "depth", kind: Kind::Scaled { divisor: 10, unit: Unit::Millimetre } },
                Column { name: "condition", kind: Kind::Code },
                Column { name: "quality", kind: Kind::Code },
            ],
            Category::AB1 => seq![
                Column { name: "depth", kind: Kind::Scaled { divisor: 10, unit: Unit::Millimetre } },
                Column { name: "condition", kind: Kind::Code },
                Column { name: "quality", kind: Kind::Code },
            ],
            Category::AC1 => seq![
                Column { name: "duration", kind: Kind::Code },
                Column { name: "characteristic", kind: Kind::Code },
                Column { name: "quality", kind: Kind::Code },
            ],
            Category::AD1 => seq![
                Column { name: "depth", kind: Kind::Scaled { divisor: 10, unit: Unit::Millimetre } },
                Column { name: "condition", kind: Kind::Code },
                Column { name: "first_dates", kind: Kind::Text { width: 4 } },
                Column { name: "second_dates", kind: Kind::Text { width: 4 } },
                Column { name: "third_dates", kind: Kind::Text { width: 4 } },
                Column { name: "quality", kind: Kind::Code },
            ],
            Category::AE1 => seq![
                Column { name: "days_001", kind: Kind::Number { width: 2 } },
                Column { name: "days_001_quality", kind: Kind::Code },
                Column { name: "days_010", kind: Kind::Number { width: 2 } },
                Column { name: "days_010_quality", kind: Kind::Code },
                Column { name: "days_050", kind: Kind::Number { width: 2 } },
                Column { name: "days_050_quality", kind: Kind::Code },
                Column { name: "days_100", kind: Kind::Number { width: 2 } },
                Column { name: "days_100_quality", kind: Kind::Code },
            ],
            Category::AG1 => seq![
                Column { name: "discrepancy", kind: Kind::Code },
                Column { name: "depth", kind: Kind::Scaled { divisor: 1, unit: Unit::Millimetre } },
            ],
            Category::AHX => seq![
                Column { name: "period", kind: Kind::Scaled { divisor: 1, unit: Unit::Minute } },
                Column { name: "depth", kind: Kind::Scaled { divisor: 10, unit: Unit::Millimetre } },
                Column { name: "condition", kind: Kind::Code },
                Column { name: "ending", kind: Kind::Text { width: 6 } },
                Column { name: "quality", kind: Kind::Code },
            ],
            Category::AIX => seq![
                Column { name: "period", kind: Kind::Scaled { divisor: 1, unit: Unit::Minute } },
                Column { name: "depth", kind: Kind::Scaled { divisor: 10, unit: Unit::Millimetre } },
                Column { name: "condition", kind: Kind::Code },
                Column { name: "ending", kind: Kind::Text { width: 6 } },
                Column { name: "quality", kind: Kind::Code },
            ],
            Category::AJ1 => seq![
                Column { name: "depth", kind: Kind::Scaled { divisor: 1, unit: Unit::Centimetre } },
                Column { name: "condition", kind: Kind::Code },
                Column { name: "quality", kind: Kind::Code },
                Column { name: "water_depth", kind: Kind::Scaled { divisor: 10, unit: Unit::Millimetre } },
                Column { name: "water_condition", kind: Kind::Code },
                Column { name: "water_quality", kind: Kind::Code },
            ],
            Category::AK1 => seq![
                Column { name: "depth", kind: Kind::Scaled { divisor: 1, unit: Unit::Centimetre } },
                Column { name: "condition", kind: Kind::Code },
                Column { name: "dates", kind: Kind::Text { width: 6 } },
                Column { name: "quality", kind: Kind::Code },
            ],
            Category::ALX => seq![
                Column { name: "period", kind: Kind::Scaled { divisor: 1, unit: Unit::Hour } },
                Column { name: "depth", kind: Kind::Scaled { divisor: 1, unit: Unit::Centimetre } },
                Column { name: "condition", kind: Kind::Code },
                Column { name: "quality", kind: Kind::Code },
            ],
            Category::AM1 => seq![
                Column { name: "depth", kind: Kind::Scaled { divisor: 10, unit: Unit::Centimetre } },
                Column { name: "condition", kind: Kind::Code },
                Column { name: "first_dates", kind: Kind::Text { width: 4 } },
                Column { name: "second_dates", kind: Kind::Text { width: 4 } },
                Column { name: "third_dates", kind: Kind::Text { width: 4 } },
                Column { name: "quality", kind: Kind::Code },
            ],
            Category::AN1 => seq![
                Column { name: "period", kind: Kind::Scaled { divisor: 1, unit: Unit::Hour } },
                Column { name: "depth", kind: Kind::Scaled { divisor: 10, unit: Unit::Centimetre } },
                Column { name: "condition", kind: Kind::Code },
                Column { name: "quality", kind: Kind::Code },
            ],
            Category::AOX => seq![
                Column { name: "period", kind: Kind::Scaled { divisor: 1, unit: Unit::Minute } },
                Column { name: "depth", kind: Kind::Scaled { divisor: 10, unit: Unit::Millimetre } },
                Column { name: "condition", kind: Kind::Code },
                Column { name: "quality", kind: Kind::Code },
            ],
            Category::ATX => seq![
                Column { name: "source", kind: Kind::Code },
                Column { name: "weather_type", kind: Kind::Code },
                Column { name: "abbreviation", kind: Kind::Code },
                Column { name: "quality", kind: Kind::Code },
            ],
            Category::AUX => seq![
                Column { name: "intensity", kind: Kind::Code },
                Column { name: "descriptor", kind: Kind::Code },
                Column { name: "precipitation", kind: Kind::Code },
                Column { name: "obscuration", kind: Kind::Code },
                Column { name: "other", kind: Kind::Code },
                Column { name: "combination", kind: Kind::Code },
                Column { name: "quality", kind: Kind::Code },
            ],
            Category::AWX => seq![
                Column { name: "condition", kind: Kind::Code },
                Column { name: "quality", kind: Kind::Code },
            ],
            Category::AXX => seq![
                Column { name: "condition", kind: Kind::Code },
                Column { name: "quality", kind: Kind::Code },
                Column { name: "period", kind: Kind::Scaled { divisor: 1, unit: Unit::Hour } },
                Column { name: "period_quality", kind: Kind::Code },
            ],
            Category::AYX => seq![
                Column { name: "condition", kind: Kind::Code },
                Column { name: "quality", kind: Kind::Code },
                Column { name: "period", kind: Kind::Scaled { divisor: 1, unit: Unit::Hour } },
                Column { name: "period_quality", kind: Kind::Code },
            ],
            Category::AZX => seq![
                Column { name: "condition", kind: Kind::Code },
                Column { name: "quality", kind: Kind::Code },
                Column { name: "period", kind: Kind::Scaled { divisor: 1, unit: Unit::Hour } },
                Column { name: "period_quality", kind: Kind::Code },
            ],
            Category::MWX => seq![
                Column { name: "condition", kind: Kind::Code },
                Column { name: "quality", kind: Kind::Code },
            ],
            Category::CBX => seq![
                Column { name: "period", kind: Kind::Scaled { divisor: 1, unit: Unit::Minute } },
                Column { name: "depth", kind: Kind::Scaled { divisor: 10, unit: Unit::Millimetre } },
                Column { name: "depth_quality", kind: Kind::Code },
                Column { name: "depth_flag", kind: Kind::Code },
            ],
            Category::CFX => seq![
                Column { name: "speed", kind: Kind::Scaled { divisor: 10, unit: Unit::RevolutionPerSecond } },
                Column { name: "speed_quality", kind: Kind::Code },
                Column { name: "speed_flag", kind: Kind::Code },
            ],
            Category::CGX => seq![
                Column { name: "depth", kind: Kind::Scaled { divisor: 10, unit: Unit::Millimetre } },
                Column { name: "depth_quality", kind: Kind::Code },
                Column { name: "depth_flag", kind: Kind::Code },
            ],
            Category::CHX => seq![
                Column { name: "period", kind: Kind::Scaled { divisor: 1, unit: Unit::Minute } },
                Column { name: "temperature", kind: Kind::Scaled { divisor: 10, unit: Unit::Celsius } },
                Column { name: "temperature_quality", kind: Kind::Code },
                Column { name: "temperature_flag", kind: Kind::Code },
                Column { name: "humidity", kind: Kind::Scaled { divisor: 10, unit: Unit::Percent } },
                Column { name: "humidity_quality", kind: Kind::Code },
                Column { name: "humidity_flag", kind: Kind::Code },
            ],
            Category::CI1 => seq![
                Column { name: "minimum", kind: Kind::Scaled { divisor: 10, unit: Unit::Celsius } },
                Column { name: "minimum_quality", kind: Kind::Code },
                Column { name: "minimum_flag", kind: Kind::Code },
                Column { name: "maximum", kind: Kind::Scaled { divisor: 10, unit: Unit::Celsius } },
                Column { name: "maximum_quality", kind: Kind::Code },
                Column { name: "maximum_flag", kind: Kind::Code },
                Column { name: "temperature_deviation", kind: Kind::Scaled { divisor: 10, unit: Unit::Celsius } },
                Column { name: "temperature_deviation_quality", kind: Kind::Code },
                Column { name: "temperature_deviation_flag", kind: Kind::Code },
                Column { name: "humidity_deviation", kind: Kind::Scaled { divisor: 10, unit: Unit::Percent } },
                Column { name: "humidity_deviation_quality", kind: Kind::Code },
                Column { name: "humidity_deviation_flag", kind: Kind::Code },
            ],
            Category::CN1 => seq![
                Column { name: "full_load", kind: Kind::Scaled { divisor: 10, unit: Unit::Volt } },
                Column { name: "full_load_quality", kind: Kind::Code },
                Column { name: "full_load_flag", kind: Kind::Code },
                Column { name: "no_load", kind: Kind::Scaled { divisor: 10, unit: Unit::Volt } },
                Column { name: "no_load_quality", kind: Kind::Code },
                Column { name: "no_load_flag", kind: Kind::Code },
                Column { name: "datalogger", kind: Kind::Scaled { divisor: 10, unit: Unit::Volt } },
                Column { name: "datalogger_quality", kind: Kind::Code },
                Column { name: "datalogger_flag", kind: Kind::Code },
            ],
            Category::CN2 => seq![
                Column { name: "panel_temperature", kind: Kind::Scaled { divisor: 10, unit: Unit::Celsius } },
                Column { name: "panel_temperature_quality", kind: Kind::Code },
                Column { name: "panel_temperature_flag", kind: Kind::Code },
                Column { name: "inlet_temperature", kind: Kind::Scaled { divisor: 10, unit: Unit::Celsius } },
                Column { name: "inlet_temperature_quality", kind: Kind::Code },
                Column { name: "inlet_temperature_flag", kind: Kind::Code },
                Column { name: "door_open", kind: Kind::Scaled { divisor: 1, unit: Unit::Minute } },
                Column { name: "door_open_quality", kind: Kind::Code },
                Column { name: "door_open_flag", kind: Kind::Code },
            ],
            Category::CN3 => seq![
                Column { name: "resistor", kind: Kind::Scaled { divisor: 10, unit: Unit::Ohm } },
                Column { name: "resistor_quality", kind: Kind::Code },
                Column { name: "resistor_flag", kind: Kind::Code },
                Column { name: "signature", kind: Kind::Scaled { divisor: 10, unit: Unit::Count } },
                Column { name: "signature_quality", kind: Kind::Code },
                Column { name: "signature_flag", kind: Kind::Code },
            ],
            Category::CN4 => seq![
                Column { name: "heater", kind: Kind::Code },
                Column { name: "heater_quality", kind: Kind::Code },
                Column { name: "heater_flag", kind: Kind::Code },
                Column { name: "door", kind: Kind::Code },
                Column { name: "door_quality", kind: Kind::Code },
                Column { name: "door_flag", kind: Kind::Code },
                Column { name: "forward_power", kind: Kind::Scaled { divisor: 10, unit: Unit::Watt } },
                Column { name: "forward_power_quality", kind: Kind::Code },
                Column { name: "forward_power_flag", kind: Kind::Code },
                Column { name: "reflected_power", kind: Kind::Scaled { divisor: 10, unit: Unit::Watt } },
                Column { name: "reflected_power_quality", kind: Kind::Code },
                Column { name: "reflected_power_flag", kind: Kind::Code },
            ],
            Category::CO1 => seq![
                Column { name: "division", kind: Kind::Code },
                Column { name: "offset", kind: Kind::Scaled { divisor: 1, unit: Unit::Hour } },
            ],
            Category::COX => seq![
                Column { name: "element", kind: Kind::Code },
                Column { name: "offset", kind: Kind::Scaled { divisor: 10, unit: Unit::Hour } },
            ],
            Category::CR1 => seq![
                Column { name: "version", kind: Kind::Scaled { divisor: 1000, unit: Unit::Count } },
                Column { name: "version_quality", kind: Kind::Code },
                Column { name: "version_flag", kind: Kind::Code },
            ],
            Category::CTX => seq![
                Column { name: "temperature", kind: Kind::Scaled { divisor: 10, unit: Unit::Celsius } },
                Column { name: "temperature_quality", kind: Kind::Code },
                Column { name: "temperature_flag", kind: Kind::Code },
            ],
            Category::CUX => seq![
                Column { name: "temperature", kind: Kind::Scaled { divisor: 10, unit: Unit::Celsius } },
                Column { name: "temperature_quality", kind: Kind::Code },
                Column { name: "temperature_flag", kind: Kind::Code },
                Column { name: "deviation", kind: Kind::Scaled { divisor: 10, unit: Unit::Celsius } },
                Column { name: "deviation_quality", kind: Kind::Code },
                Column { name: "deviation_flag", kind: Kind::Code },
            ],
            Category::CVX => seq![
                Column { name: "minimum", kind: Kind::Scaled { divisor: 10, unit: Unit::Celsius } },
                Column { name: "minimum_quality", kind: Kind::Code },
                Column { name: "minimum_flag", kind: Kind::Code },
                Column { name: "minimum_time", kind: Kind::Text { width: 4 } },
                Column { name: "minimum_time_quality", kind: Kind::Code },
                Column { name: "minimum_time_flag", kind: Kind::Code },
                Column { name: "maximum", kind: Kind::Scaled { divisor: 10, unit: Unit::Celsius } },
                Column { name: "maximum_quality", kind: Kind::Code },
                Column { name: "maximum_flag", kind: Kind::Code },
                Column { name: "maximum_time", kind: Kind::Text { width: 4 } },
                Column { name: "maximum_time_quality", kind: Kind::Code },
                Column { name: "maximum_time_flag", kind: Kind::Code },
            ],
            Category::CW1 => seq![
                Column { name: "first", kind: Kind::Scaled { divisor: 10, unit: Unit::Count } },
                Column { name: "first_quality", kind: Kind::Code },
                Column { name: "first_flag", kind: Kind::Code },
                Column { name: "second", kind: Kind::Scaled { divisor: 10, unit: Unit::Count } },
                Column { name: "second_quality", kind: Kind::Code },
                Column { name: "second_flag", kind: Kind::Code },
            ],
            Category::CXX => seq![
                Column { name: "depth", kind: Kind::Scaled { divisor: 10, unit: Unit::Millimetre } },
                Column { name: "depth_quality", kind: Kind::Code },
                Column { name: "depth_flag", kind: Kind::Code },
                Column { name: "frequency", kind: Kind::Scaled { divisor: 1, unit: Unit::Hertz } },
                Column { name: "frequency_quality", kind: Kind::Code },
                Column { name: "frequency_flag", kind: Kind::Code },
                Column { name: "lowest_frequency", kind: Kind::Scaled { divisor: 1, unit: Unit::Hertz } },
                Column { name: "lowest_frequency_quality", kind: Kind::Code },
                Column { name: "lowest_frequency_flag", kind: Kind::Code },
                Column { name: "highest_frequency", kind: Kind::Scaled { divisor: 1, unit: Unit::Hertz } },
                Column { name: "highest_frequency_quality", kind: Kind::Code },
                Column { name: "highest_frequency_flag", kind: Kind::Code },
            ],
            Category::ED1 => seq![
                Column { name: "direction", kind: Kind::Number { width: 2 } },
                Column { name: "designator", kind: Kind::Code },
                Column { name: "visibility", kind: Kind::Scaled { divisor: 1, unit: Unit::Metre } },
                Column { name: "quality", kind: Kind::Code },
            ],
            Category::GAX => seq![
                Column { name: "coverage", kind: Kind::Code },
                Column { name: "coverage_quality", kind: Kind::Code },
                Column { name: "base_height", kind: Kind::Scaled { divisor: 1, unit: Unit::Metre } },
                Column { name: "base_height_quality", kind: Kind::Code },
                Column { name: "cloud_type", kind: Kind::Code },
                Column { name: "cloud_type_quality", kind: Kind::Code },
            ],
            Category::GDX => seq![
                Column { name: "coverage", kind: Kind::Code },
                Column { name: "coverage_oktas", kind: Kind::Code },
                Column { name: "coverage_quality", kind: Kind::Code },
                Column { name: "height", kind: Kind::Scaled { divisor: 1, unit: Unit::Metre } },
                Column { name: "height_quality", kind: Kind::Code },
                Column { name: "characteristic", kind: Kind::Code },
            ],
            Category::GE1 => seq![
                Column { name: "convective_cloud", kind: Kind::Code },
                Column { name: "vertical_datum", kind: Kind::Code },
                Column { name: "upper_base_height", kind: Kind::Scaled { divisor: 1, unit: Unit::Metre } },
                Column { name: "lower_base_height", kind: Kind::Scaled { divisor: 1, unit: Unit::Metre } },
            ],
            Category::GF1 => seq![
                Column { name: "coverage", kind: Kind::Code },
                Column { name: "opaque_coverage", kind: Kind::Code },
                Column { name: "coverage_quality", kind: Kind::Code },
                Column { name: "lowest_coverage", kind: Kind::Code },
                Column { name: "lowest_coverage_quality", kind: Kind::Code },
                Column { name: "low_genus", kind: Kind::Code },
                Column { name: "low_genus_quality", kind: Kind::Code },
                Column { name: "lowest_base_height", kind: Kind::Scaled { divisor: 1, unit: Unit::Metre } },
                Column { name: "lowest_base_height_quality", kind: Kind::Code },
                Column { name: "mid_genus", kind: Kind::Code },
                Column { name: "mid_genus_quality", kind: Kind::Code },
                Column { name: "high_genus", kind: Kind::Code },
                Column { name: "high_genus_quality", kind: Kind::Code },
            ],
            Category::GGX => seq![
                Column { name: "coverage", kind: Kind::Code },
                Column { name: "coverage_quality", kind: Kind::Code },
                Column { name: "top_height", kind: Kind::Scaled { divisor: 1, unit: Unit::Metre } },
                Column { name: "top_height_quality", kind: Kind::Code },
                Column { name: "cloud_type", kind: Kind::Code },
                Column { name: "cloud_type_quality", kind: Kind::Code },
                Column { name: "top", kind: Kind::Code },
                Column { name: "top_quality", kind: Kind::Code },
            ],
            Category::GH1 => seq![
                Column { name: "average", kind: Kind::Scaled { divisor: 10, unit: Unit::WattPerSquareMetre } },
                Column { name: "average_quality", kind: Kind::Code },
                Column { name: "average_flag", kind: Kind::Code },
                Column { name: "minimum", kind: Kind::Scaled { divisor: 10, unit: Unit::WattPerSquareMetre } },
                Column { name: "minimum_quality", kind: Kind::Code },
                Column { name: "minimum_flag", kind: Kind::Code },
                Column { name: "maximum", kind: Kind::Scaled { divisor: 10, unit: Unit::WattPerSquareMetre } },
                Column { name: "maximum_quality", kind: Kind::Code },
                Column { name: "maximum_flag", kind: Kind::Code },
                Column { name: "deviation", kind: Kind::Scaled { divisor: 10, unit: Unit::WattPerSquareMetre } },
                Column { name: "deviation_quality", kind: Kind::Code },
                Column { name: "deviation_flag", kind: Kind::Code },
            ],
            Category::GJ1 => seq![
                Column { name: "duration", kind: Kind::Scaled { divisor: 1, unit: Unit::Minute } },
                Column { name: "quality", kind: Kind::Code },
            ],
            Category::GK1 => seq![
                Column { name: "share", kind: Kind::Scaled { divisor: 1, unit: Unit::Percent } },
                Column { name: "quality", kind: Kind::Code },
            ],
            Category::GL1 => seq![
                Column { name: "duration", kind: Kind::Scaled { divisor: 1, unit: Unit::Minute } },
                Column { name: "quality", kind: Kind::Code },
            ],
            Category::GM1 => seq![
                Column { name: "period", kind: Kind::Scaled { divisor: 1, unit: Unit::Minute } },
                Column { name: "global", kind: Kind::Scaled { divisor: 1, unit: Unit::WattPerSquareMetre } },
                Column { name: "global_flag", kind: Kind::Code },
                Column { name: "global_quality", kind: Kind::Code },
                Column { name: "direct", kind: Kind::Scaled { divisor: 1, unit: Unit::WattPerSquareMetre } },
                Column { name: "direct_flag", kind: Kind::Code },
                Column { name: "direct_quality", kind: Kind::Code },
                Column { name: "diffuse", kind: Kind::Scaled { divisor: 1, unit: Unit::WattPerSquareMetre } },
                Column { name: "diffuse_flag", kind: Kind::Code },
                Column { name: "diffuse_quality", kind: Kind::Code },
                Column { name: "ultraviolet", kind: Kind::Scaled { divisor: 1, unit: Unit::MilliwattPerSquareMetre } },
                Column { name: "ultraviolet_quality", kind: Kind::Code },
            ],
            Category::GN1 => seq![
                Column { name: "period", kind: Kind::Scaled { divisor: 1, unit: Unit::Minute } },
                Column { name: "upwelling_solar", kind: Kind::Scaled { divisor: 1, unit: Unit::WattPerSquareMetre } },
                Column { name: "upwelling_solar_quality", kind: Kind::Code },
                Column { name: "downwelling_infrared", kind: Kind::Scaled { divisor: 1, unit: Unit::WattPerSquareMetre } },
                Column { name: "downwelling_infrared_quality", kind: Kind::Code },
                Column { name: "upwelling_infrared", kind: Kind::Scaled { divisor: 1, unit: Unit::WattPerSquareMetre } },
                Column { name: "upwelling_infrared_quality", kind: Kind::Code },
                Column { name: "photosynthetic", kind: Kind::Scaled { divisor: 1, unit: Unit::WattPerSquareMetre } },
                Column { name: "photosynthetic_quality", kind: Kind::Code },
                Column { name: "zenith_angle", kind: Kind::Scaled { divisor: 1, unit: Unit::Degree } },
                Column { name: "zenith_angle_quality", kind: Kind::Code },
            ],
            Category::GO1 => seq![
                Column { name: "period", kind: Kind::Scaled { divisor: 1, unit: Unit::Minute } },
                Column { name: "solar", kind: Kind::Scaled { divisor: 1, unit: Unit::WattPerSquareMetre } },
                Column { name: "solar_quality", kind: Kind::Code },
                Column { name: "infrared", kind: Kind::Scaled { divisor: 1, unit: Unit::WattPerSquareMetre } },
                Column { name: "infrared_quality", kind: Kind::Code },
                Column { name: "net", kind: Kind::Scaled { divisor: 1, unit: Unit::WattPerSquareMetre } },
                Column { name: "net_quality", kind: Kind::Code },
            ],
            Category::GP1 => seq![
                Column { name: "period", kind: Kind::Scaled { divisor: 1, unit: Unit::Minute } },
                Column { name: "global", kind: Kind::Scaled { divisor: 1, unit: Unit::WattPerSquareMetre } },
                Column { name: "global_source", kind: Kind::Code },
                Column { name: "global_uncertainty", kind: Kind::Scaled { divisor: 1, unit: Unit::Percent } },
                Column { name: "direct", kind: Kind::Scaled { divisor: 1, unit: Unit::WattPerSquareMetre } },
                Column { name: "direct_source", kind: Kind::Code },
                Column { name: "direct_uncertainty", kind: Kind::Scaled { divisor: 1, unit: Unit::Percent } },
                Column { name: "diffuse", kind: Kind::Scaled { divisor: 1, unit: Unit::WattPerSquareMetre } },
                Column { name: "diffuse_source", kind: Kind::Code },
                Column { name: "diffuse_uncertainty", kind: Kind::Scaled { divisor: 1, unit: Unit::Percent } },
            ],
            Category::GQ1 => seq![
                Column { name: "period", kind: Kind::Scaled { divisor: 1, unit: Unit::Minute } },
                Column { name: "zenith_angle", kind: Kind::Scaled { divisor: 10, unit: Unit::Degree } },
                Column { name: "zenith_angle_quality", kind: Kind::Code },
                Column { name: "azimuth_angle", kind: Kind::Scaled { divisor: 10, unit: Unit::Degree } },
                Column { name: "azimuth_angle_quality", kind: Kind::Code },
            ],
            Category::GR1 => seq![
                Column { name: "period", kind: Kind::Scaled { divisor: 1, unit: Unit::Minute } },
                Column { name: "horizontal", kind: Kind::Scaled { divisor: 1, unit: Unit::WattPerSquareMetre } },
                Column { name: "horizontal_quality", kind: Kind::Code },
                Column { name: "normal", kind: Kind::Scaled { divisor: 1, unit: Unit::WattPerSquareMetre } },
                Column { name: "normal_quality", kind: Kind::Code },
            ],
            Category::IA1 => seq![
                Column { name: "state", kind: Kind::Code },
                Column { name: "quality", kind: Kind::Code },
            ],
            Category::IA2 => seq![
                Column { name: "period", kind: Kind::Scaled { divisor: 10, unit: Unit::Hour } },
                Column { name: "temperature", kind: Kind::Scaled { divisor: 10, unit: Unit::Celsius } },
                Column { name: "quality", kind: Kind::Code },
            ],
            Category::IB1 => seq![
                Column { name: "temperature", kind: Kind::Scaled { divisor: 10, unit: Unit::Celsius } },
                Column { name: "temperature_quality", kind: Kind::Code },
                Column { name: "temperature_flag", kind: Kind::Code },
                Column { name: "minimum", kind: Kind::Scaled { divisor: 10, unit: Unit::Celsius } },
                Column { name: "minimum_quality", kind: Kind::Code },
                Column { name: "minimum_flag", kind: Kind::Code },
                Column { name: "maximum", kind: Kind::Scaled { divisor: 10, unit: Unit::Celsius } },
                Column { name: "maximum_quality", kind: Kind::Code },
                Column { name: "maximum_flag", kind: Kind::Code },
                Column { name: "deviation", kind: Kind::Scaled { divisor: 10, unit: Unit::Celsius } },
                Column { name: "deviation_quality", kind: Kind::Code },
                Column { name: "deviation_flag", kind: Kind::Code },
            ],
            Category::IC1 => seq![
                Column { name: "period", kind: Kind::Scaled { divisor: 1, unit: Unit::Hour } },
                Column { name: "wind_movement", kind: Kind::Scaled { divisor: 1, unit: Unit::Mile } },
                Column { name: "wind_movement_condition", kind: Kind::Code },
                Column { name: "wind_movement_quality", kind: Kind::Code },
                Column { name: "evaporation", kind: Kind::Scaled { divisor: 100, unit: Unit::Inch } },
                Column { name: "evaporation_condition", kind: Kind::Code },
                Column { name: "evaporation_quality", kind: Kind::Code },
                Column { name: "highest_water_temperature", kind: Kind::Scaled { divisor: 10, unit: Unit::Celsius } },
                Column { name: "highest_water_temperature_condition", kind: Kind::Code },
                Column { name: "highest_water_temperature_quality", kind: Kind::Code },
                Column { name: "lowest_water_temperature", kind: Kind::Scaled { divisor: 10, unit: Unit::Celsius } },
                Column { name: "lowest_water_temperature_condition", kind: Kind::Code },
                Column { name: "lowest_water_temperature_quality", kind: Kind::Code },
            ],
            Category::KAX => seq![
                Column { name: "period", kind: Kind::Scaled { divisor: 10, unit: Unit::Hour } },
                Column { name: "extreme", kind: Kind::Code },
                Column { name: "temperature", kind: Kind::Scaled { divisor: 10, unit: Unit::Celsius } },
                Column { name: "quality", kind: Kind::Code },
            ],
            Category::KCX => seq![
                Column { name: "extreme", kind: Kind::Code },
                Column { name: "condition", kind: Kind::Code },
                Column { name: "temperature", kind: Kind::Scaled { divisor: 10, unit: Unit::Celsius } },
                Column { name: "dates", kind: Kind::Text { width: 6 } },
                Column { name: "quality", kind: Kind::Code },
            ],
            Category::KDX => seq![
                Column { name: "period", kind: Kind::Scaled { divisor: 1, unit: Unit::Hour } },
                Column { name: "degree_day_type", kind: Kind::Code },
                Column { name: "value", kind: Kind::Scaled { divisor: 1, unit: Unit::Count } },
                Column { name: "quality", kind: Kind::Code },
            ],
            Category::KE1 => seq![
                Column { name: "warmest_below_freezing", kind: Kind::Number { width: 2 } },
                Column { name: "warmest_below_freezing_quality", kind: Kind::Code },
                Column { name: "warmest_above_ninety", kind: Kind::Number { width: 2 } },
                Column { name: "warmest_above_ninety_quality", kind: Kind::Code },
                Column { name: "coldest_below_freezing", kind: Kind::Number { width: 2 } },
                Column { name: "coldest_below_freezing_quality", kind: Kind::Code },
                Column { name: "coldest_below_zero", kind: Kind::Number { width: 2 } },
                Column { name: "coldest_below_zero_quality", kind: Kind::Code },
            ],
            Category::KF1 => seq![
                Column { name: "temperature", kind: Kind::Scaled { divisor: 10, unit: Unit::Celsius } },
                Column { name: "quality", kind: Kind::Code },
            ],
            Category::KGX => seq![
                Column { name: "period", kind: Kind::Scaled { divisor: 1, unit: Unit::Hour } },
                Column { name: "temperature_type", kind: Kind::Code },
                Column { name: "temperature", kind: Kind::Scaled { divisor: 100, unit: Unit::Celsius } },
                Column { name: "derivation", kind: Kind::Code },
                Column { name: "quality", kind: Kind::Code },
            ],
            Category::MA1 => seq![
                Column { name: "altimeter", kind: Kind::Scaled { divisor: 10, unit: Unit::Hectopascal } },
                Column { name: "altimeter_quality", kind: Kind::Code },
                Column { name: "station", kind: Kind::Scaled { divisor: 10, unit: Unit::Hectopascal } },
                Column { name: "station_quality", kind: Kind::Code },
            ],
            Category::MD1 => seq![
                Column { name: "tendency", kind: Kind::Code },
                Column { name: "tendency_quality", kind: Kind::Code },
                Column { name: "three_hours", kind: Kind::Scaled { divisor: 10, unit: Unit::Hectopascal } },
                Column { name: "three_hours_quality", kind: Kind::Code },
                Column { name: "day", kind: Kind::Scaled { divisor: 10, unit: Unit::Hectopascal } },
                Column { name: "day_quality", kind: Kind::Code },
            ],
            Category::ME1 => seq![
                Column { name: "level", kind: Kind::Code },
                Column { name: "height", kind: Kind::Scaled { divisor: 1, unit: Unit::Metre } },
                Column { name: "quality", kind: Kind::Code },
            ],
            Category::MF1 => seq![
                Column { name: "station", kind: Kind::Scaled { divisor: 10, unit: Unit::Hectopascal } },
                Column { name: "station_quality", kind: Kind::Code },
                Column { name: "sea_level", kind: Kind::Scaled { divisor: 10, unit: Unit::Hectopascal } },
                Column { name: "sea_level_quality", kind: Kind::Code },
            ],
            Category::MG1 => seq![
                Column { name: "station", kind: Kind::Scaled { divisor: 10, unit: Unit::Hectopascal } },
                Column { name: "station_quality", kind: Kind::Code },
                Column { name: "lowest_sea_level", kind: Kind::Scaled { divisor: 10, unit: Unit::Hectopascal } },
                Column { name: "lowest_sea_level_quality", kind: Kind::Code },
            ],
            Category::MH1 => seq![
                Column { name: "station", kind: Kind::Scaled { divisor: 10, unit: Unit::Hectopascal } },
                Column { name: "station_quality", kind: Kind::Code },
                Column { name: "sea_level", kind: Kind::Scaled { divisor: 10, unit: Unit::Hectopascal } },
                Column { name: "sea_level_quality", kind: Kind::Code },
            ],
            Category::MK1 => seq![
                Column { name: "highest", kind: Kind::Scaled { divisor: 10, unit: Unit::Hectopascal } },
                Column { name: "highest_time", kind: Kind::Text { width: 6 } },
                Column { name: "highest_quality", kind: Kind::Code },
                Column { name: "lowest", kind: Kind::Scaled { divisor: 10, unit: Unit::Hectopascal } },
                Column { name: "lowest_time", kind: Kind::Text { width: 6 } },
                Column { name: "lowest_quality", kind: Kind::Code },
            ],
            Category::OAX => seq![
                Column { name: "wind_type", kind: Kind::Code },
                Column { name: "period", kind: Kind::Scaled { divisor: 1, unit: Unit::Hour } },
                Column { name: "speed", kind: Kind::Scaled { divisor: 10, unit: Unit::MetrePerSecond } },
                Column { name: "quality", kind: Kind::Code },
            ],
            Category::OBX => seq![
                Column { name: "period", kind: Kind::Scaled { divisor: 1, unit: Unit::Minute } },
                Column { name: "gust", kind: Kind::Scaled { divisor: 10, unit: Unit::MetrePerSecond } },
                Column { name: "gust_quality", kind: Kind::Code },
                Column { name: "gust_flag", kind: Kind::Code },
                Column { name: "gust_direction", kind: Kind::Scaled { divisor: 1, unit: Unit::Degree } },
                Column { name: "gust_direction_quality", kind: Kind::Code },
                Column { name: "gust_direction_flag", kind: Kind::Code },
                Column { name: "speed_deviation", kind: Kind::Scaled { divisor: 100, unit: Unit::MetrePerSecond } },
                Column { name: "speed_deviation_quality", kind: Kind::Code },
                Column { name: "speed_deviation_flag", kind: Kind::Code },
                Column { name: "direction_deviation", kind: Kind::Scaled { divisor: 100, unit: Unit::Degree } },
                Column { name: "direction_deviation_quality", kind: Kind::Code },
                Column { name: "direction_deviation_flag", kind: Kind::Code },
            ],
            Category::OC1 => seq![
                Column { name: "speed", kind: Kind::Scaled { divisor: 10, unit: Unit::MetrePerSecond } },
                Column { name: "quality", kind: Kind::Code },
            ],
            Category::ODX => seq![
                Column { name: "wind_type", kind: Kind::Code },
                Column { name: "period", kind: Kind::Scaled { divisor: 1, unit: Unit::Hour } },
                Column { name: "direction", kind: Kind::Scaled { divisor: 1, unit: Unit::Degree } },
                Column { name: "speed", kind: Kind::Scaled { divisor: 10, unit: Unit::MetrePerSecond } },
                Column { name: "quality", kind: Kind::Code },
            ],
            Category::OEX => seq![
                Column { name: "wind_type", kind: Kind::Code },
                Column { name: "period", kind: Kind::Scaled { divisor: 1, unit: Unit::Hour } },
                Column { name: "speed", kind: Kind::Scaled { divisor: 100, unit: Unit::MetrePerSecond } },
                Column { name: "direction", kind: Kind::Scaled { divisor: 1, unit: Unit::Degree } },
                Column { name: "time", kind: Kind::Text { width: 4 } },
                Column { name: "quality", kind: Kind::Code },
            ],
            Category::RHX => seq![
                Column { name: "period", kind: Kind::Scaled { divisor: 1, unit: Unit::Hour } },
                Column { name: "humidity_type", kind: Kind::Code },
                Column { name: "humidity", kind: Kind::Scaled { divisor: 1, unit: Unit::Percent } },
                Column { name: "derivation", kind: Kind::Code },
                Column { name: "quality", kind: Kind::Code },
            ],
            Category::SA1 => seq![
                Column { name: "temperature", kind: Kind::Scaled { divisor: 10, unit: Unit::Celsius } },
                Column { name: "quality", kind: Kind::Code },
            ],
            Category::WD1 => seq![
                Column { name: "edge_bearing", kind: Kind::Code },
                Column { name: "concentration", kind: Kind::Scaled { divisor: 1, unit: Unit::Percent } },
                Column { name: "uneven_concentration", kind: Kind::Code },
                Column { name: "ship_position", kind: Kind::Code },
                Column { name: "penetrability", kind: Kind::Code },
                Column { name: "trend", kind: Kind::Code },
                Column { name: "development", kind: Kind::Code },
                Column { name: "growler_presence", kind: Kind::Code },
                Column { name: "growlers", kind: Kind::Number { width: 3 } },
                Column { name: "icebergs", kind: Kind::Number { width: 3 } },
                Column { name: "quality", kind: Kind::Code },
            ],
            Category::WG1 => seq![
                Column { name: "edge_bearing", kind: Kind::Code },
                Column { name: "edge_distance", kind: Kind::Scaled { divisor: 1, unit: Unit::Kilometre } },
                Column { name: "edge_orientation", kind: Kind::Code },
                Column { name: "formation", kind: Kind::Code },
                Column { name: "navigation_effect", kind: Kind::Code },
                Column { name: "quality", kind: Kind::Code },
            ],
            Category::WJ1 => seq![
                Column { name: "ice_thickness", kind: Kind::Scaled { divisor: 1, unit: Unit::Centimetre } },
                Column { name: "discharge", kind: Kind::Scaled { divisor: 1, unit: Unit::CubicMetrePerSecond } },
                Column { name: "primary_ice", kind: Kind::Code },
                Column { name: "secondary_ice", kind: Kind::Code },
                Column { name: "stage_height", kind: Kind::Scaled { divisor: 1, unit: Unit::Centimetre } },
                Column { name: "slush", kind: Kind::Code },
                Column { name: "water_level", kind: Kind::Code },
            ],
        }
    }

    /// The columns of the category's segment, in order.
    pub fn layout(self) -> (r: Vec<Column>)
        ensures
            r@ == self.columns(),
    {
        let r = match self {
            Category::AAX => vec![
                Column { name: "period", kind: Kind::Scaled { divisor: 1, unit: Unit::Hour } },
                Column { name: "depth", kind: Kind::Scaled { divisor: 10, unit: Unit::Millimetre } },
                Column { name: "condition", kind: Kind::Code },
                Column { name: "quality", kind: Kind::Code },
            ],
            Category::AB1 => vec![
                Column { name: "depth", kind: Kind::Scaled { divisor: 10, unit: Unit::Millimetre } },
                Column { name: "condition", kind: Kind::Code },
                Column { name: "quality", kind: Kind::Code },
            ],
            Category::AC1 => vec![
                Column { name: "duration", kind: Kind::Code },
                Column { name: "characteristic", kind: Kind::Code },
                Column { name: "quality", kind: Kind::Code },
            ],
            Category::AD1 => vec![
                Column { name: "depth", kind: Kind::Scaled { divisor: 10, unit: Unit::Millimetre } },
                Column { name: "condition", kind: Kind::Code },
                Column { name: "first_dates", kind: Kind::Text { width: 4 } },
                Column { name: "second_dates", kind: Kind::Text { width: 4 } },
                Column { name: "third_dates", kind: Kind::Text { width: 4 } },
                Column { name: "quality", kind: Kind::Code },
            ],
            Category::AE1 => vec![
                Column { name: "days_001", kind: Kind::Number { width: 2 } },
                Column { name: "days_001_quality", kind: Kind::Code },
                Column { name: "days_010", kind: Kind::Number { width: 2 } },
                Column { name: "days_010_quality", kind: Kind::Code },
                Column { name: "days_050", kind: Kind::Number { width: 2 } },
                Column { name: "days_050_quality", kind: Kind::Code },
                Column { name: "days_100", kind: Kind::Number { width: 2 } },
                Column { name: "days_100_quality", kind: Kind::Code },
            ],
            Category::AG1 => vec![
                Column { name: "discrepancy", kind: Kind::Code },
                Column { name: "depth", kind: Kind::Scaled { divisor: 1, unit: Unit::Millimetre } },
            ],
            Category::AHX => vec![
                Column { name: "period", kind: Kind::Scaled { divisor: 1, unit: Unit::Minute } },
                Column { name: "depth", kind: Kind::Scaled { divisor: 10, unit: Unit::Millimetre } },
                Column { name: "condition", kind: Kind::Code },
                Column { name: "ending", kind: Kind::Text { width: 6 } },
                Column { name: "quality", kind: Kind::Code },
            ],
            Category::AIX => vec![
                Column { name: "period", kind: Kind::Scaled { divisor: 1, unit: Unit::Minute } },
                Column { name: "depth", kind: Kind::Scaled { divisor: 10, unit: Unit::Millimetre } },
                Column { name: "condition", kind: Kind::Code },
                Column { name: "ending", kind: Kind::Text { width: 6 } },
                Column { name: "quality", kind: Kind::Code },
            ],
            Category::AJ1 => vec![
                Column { name: "depth", kind: Kind::Scaled { divisor: 1, unit: Unit::Centimetre } },
                Column { name: "condition", kind: Kind::Code },
                Column { name: "quality", kind: Kind::Code },
                Column { name: "water_depth", kind: Kind::Scaled { divisor: 10, unit: Unit::Millimetre } },
                Column { name: "water_condition", kind: Kind::Code },
                Column { name: "water_quality", kind: Kind::Code },
            ],
            Category::AK1 => vec![
                Column { name: "depth", kind: Kind::Scaled { divisor: 1, unit: Unit::Centimetre } },
                Column { name: "condition", kind: Kind::Code },
                Column { name: "dates", kind: Kind::Text { width: 6 } },
                Column { name: "quality", kind: Kind::Code },
            ],
            Category::ALX => vec![
                Column { name: "period", kind: Kind::Scaled { divisor: 1, unit: Unit::Hour } },
                Column { name: "depth", kind: Kind::Scaled { divisor: 1, unit: Unit::Centimetre } },
                Column { name: "condition", kind: Kind::Code },
                Column { name: "quality", kind: Kind::Code },
            ],
            Category::AM1 => vec![
                Column { name: "depth", kind: Kind::Scaled { divisor: 10, unit: Unit::Centimetre } },
                Column { name: "condition", kind: Kind::Code },
                Column { name: "first_dates", kind: Kind::Text { width: 4 } },
                Column { name: "second_dates", kind: Kind::Text { width: 4 } },
                Column { name: "third_dates", kind: Kind::Text { width: 4 } },
                Column { name: "quality", kind: Kind::Code },
            ],
            Category::AN1 => vec![
                Column { name: "period", kind: Kind::Scaled { divisor: 1, unit: Unit::Hour } },
                Column { name: "depth", kind: Kind::Scaled { divisor: 10, unit: Unit::Centimetre } },
                Column { name: "condition", kind: Kind::Code },
                Column { name: "quality", kind: Kind::Code },
            ],
            Category::AOX => vec![
                Column { name: "period", kind: Kind::Scaled { divisor: 1, unit: Unit::Minute } },
                Column { name: "depth", kind: Kind::Scaled { divisor: 10, unit: Unit::Millimetre } },
                Column { name: "condition", kind: Kind::Code },
                Column { name: "quality", kind: Kind::Code },
            ],
            Category::ATX => vec![
                Column { name: "source", kind: Kind::Code },
                Column { name: "weather_type", kind: Kind::Code },
                Column { name: "abbreviation", kind: Kind::Code },
                Column { name: "quality", kind: Kind::Code },
            ],
            Category::AUX => vec![
                Column { name: "intensity", kind: Kind::Code },
                Column { name: "descriptor", kind: Kind::Code },
                Column { name: "precipitation", kind: Kind::Code },
                Column { name: "obscuration", kind: Kind::Code },
                Column { name: "other", kind: Kind::Code },
                Column { name: "combination", kind: Kind::Code },
                Column { name: "quality", kind: Kind::Code },
            ],
            Category::AWX => vec![
                Column { name: "condition", kind: Kind::Code },
                Column { name: "quality", kind: Kind::Code },
            ],
            Category::AXX => vec![
                Column { name: "condition", kind: Kind::Code },
                Column { name: "quality", kind: Kind::Code },
                Column { name: "period", kind: Kind::Scaled { divisor: 1, unit: Unit::Hour } },
                Column { name: "period_quality", kind: Kind::Code },
            ],
            Category::AYX => vec![
                Column { name: "condition", kind: Kind::Code },
                Column { name: "quality", kind: Kind::Code },
                Column { name: "period", kind: Kind::Scaled { divisor: 1, unit: Unit::Hour } },
                Column { name: "period_quality", kind: Kind::Code },
            ],
            Category::AZX => vec![
                Column { name: "condition", kind: Kind::Code },
                Column { name: "quality", kind: Kind::Code },
                Column { name: "period", kind: Kind::Scaled { divisor: 1, unit: Unit::Hour } },
                Column { name: "period_quality", kind: Kind::Code },
            ],
            Category::MWX => vec![
                Column { name: "condition", kind: Kind::Code },
                Column { name: "quality", kind: Kind::Code },
            ],
            Category::CBX => vec![
                Column { name: "period", kind: Kind::Scaled { divisor: 1, unit: Unit::Minute } },
                Column { name: "depth", kind: Kind::Scaled { divisor: 10, unit: Unit::Millimetre } },
                Column { name: "depth_quality", kind: Kind::Code },
                Column { name: "depth_flag", kind: Kind::Code },
            ],
            Category::CFX => vec![
                Column { name: "speed", kind: Kind::Scaled { divisor: 10, unit: Unit::RevolutionPerSecond } },
                Column { name: "speed_quality", kind: Kind::Code },
                Column { name: "speed_flag", kind: Kind::Code },
            ],
            Category::CGX => vec![
                Column { name: "depth", kind: Kind::Scaled { divisor: 10, unit: Unit::Millimetre } },
                Column { name: "depth_quality", kind: Kind::Code },
                Column { name: "depth_flag", kind: Kind::Code },
            ],
            Category::CHX => vec![
                Column { name: "period", kind: Kind::Scaled { divisor: 1, unit: Unit::Minute } },
                Column { name: "temperature", kind: Kind::Scaled { divisor: 10, unit: Unit::Celsius } },
                Column { name: "temperature_quality", kind: Kind::Code },
                Column { name: "temperature_flag", kind: Kind::Code },
                Column { name: "humidity", kind: Kind::Scaled { divisor: 10, unit: Unit::Percent } },
                Column { name: "humidity_quality", kind: Kind::Code },
                Column { name: "humidity_flag", kind: Kind::Code },
            ],
            Category::CI1 => vec![
                Column { name: "minimum", kind: Kind::Scaled { divisor: 10, unit: Unit::Celsius } },
                Column { name: "minimum_quality", kind: Kind::Code },
                Column { name: "minimum_flag", kind: Kind::Code },
                Column { name: "maximum", kind: Kind::Scaled { divisor: 10, unit: Unit::Celsius } },
                Column { name: "maximum_quality", kind: Kind::Code },
                Column { name: "maximum_flag", kind: Kind::Code },
                Column { name: "temperature_deviation", kind: Kind::Scaled { divisor: 10, unit: Unit::Celsius } },
                Column { name: "temperature_deviation_quality", kind: Kind::Code },
                Column { name: "temperature_deviation_flag", kind: Kind::Code },
                Column { name: "humidity_deviation", kind: Kind::Scaled { divisor: 10, unit: Unit::Percent } },
                Column { name: "humidity_deviation_quality", kind: Kind::Code },
                Column { name: "humidity_deviation_flag", kind: Kind::Code },
            ],
            Category::CN1 => vec![
                Column { name: "full_load", kind: Kind::Scaled { divisor: 10, unit: Unit::Volt } },
                Column { name: "full_load_quality", kind: Kind::Code },
                Column { name: "full_load_flag", kind: Kind::Code },
                Column { name: "no_load", kind: Kind::Scaled { divisor: 10, unit: Unit::Volt } },
                Column { name: "no_load_quality", kind: Kind::Code },
                Column { name: "no_load_flag", kind: Kind::Code },
                Column { name: "datalogger", kind: Kind::Scaled { divisor: 10, unit: Unit::Volt } },
                Column { name: "datalogger_quality", kind: Kind::Code },
                Column { name: "datalogger_flag", kind: Kind::Code },
            ],
            Category::CN2 => vec![
                Column { name: "panel_temperature", kind: Kind::Scaled { divisor: 10, unit: Unit::Celsius } },
                Column { name: "panel_temperature_quality", kind: Kind::Code },
                Column { name: "panel_temperature_flag", kind: Kind::Code },
                Column { name: "inlet_temperature", kind: Kind::Scaled { divisor: 10, unit: Unit::Celsius } },
                Column { name: "inlet_temperature_quality", kind: Kind::Code },
                Column { name: "inlet_temperature_flag", kind: Kind::Code },
                Column { name: "door_open", kind: Kind::Scaled { divisor: 1, unit: Unit::Minute } },
                Column { name: "door_open_quality", kind: Kind::Code },
                Column { name: "door_open_flag", kind: Kind::Code },
            ],
            Category::CN3 => vec![
                Column { name: "resistor", kind: Kind::Scaled { divisor: 10, unit: Unit::Ohm } },
                Column { name: "resistor_quality", kind: Kind::Code },
                Column { name: "resistor_flag", kind: Kind::Code },
                Column { name: "signature", kind: Kind::Scaled { divisor: 10, unit: Unit::Count } },
                Column { name: "signature_quality", kind: Kind::Code },
                Column { name: "signature_flag", kind: Kind::Code },
            ],
            Category::CN4 => vec![
                Column { name: "heater", kind: Kind::Code },
                Column { name: "heater_quality", kind: Kind::Code },
                Column { name: "heater_flag", kind: Kind::Code },
                Column { name: "door", kind: Kind::Code },
                Column { name: "door_quality", kind: Kind::Code },
                Column { name: "door_flag", kind: Kind::Code },
                Column { name: "forward_power", kind: Kind::Scaled { divisor: 10, unit: Unit::Watt } },
                Column { name: "forward_power_quality", kind: Kind::Code },
                Column { name: "forward_power_flag", kind: Kind::Code },
                Column { name: "reflected_power", kind: Kind::Scaled { divisor: 10, unit: Unit::Watt } },
                Column { name: "reflected_power_quality", kind: Kind::Code },
                Column { name: "reflected_power_flag", kind: Kind::Code },
            ],
            Category::CO1 => vec![
                Column { name: "division", kind: Kind::Code },
                Column { name: "offset", kind: Kind::Scaled { divisor: 1, unit: Unit::Hour } },
            ],
            Category::COX => vec![
                Column { name: "element", kind: Kind::Code },
                Column { name: "offset", kind: Kind::Scaled { divisor: 10, unit: Unit::Hour } },
            ],
            Category::CR1 => vec![
                Column { name: "version", kind: Kind::Scaled { divisor: 1000, unit: Unit::Count } },
                Column { name: "version_quality", kind: Kind::Code },
                Column { name: "version_flag", kind: Kind::Code },
            ],
            Category::CTX => vec![
                Column { name: "temperature", kind: Kind::Scaled { divisor: 10, unit: Unit::Celsius } },
                Column { name: "temperature_quality", kind: Kind::Code },
                Column { name: "temperature_flag", kind: Kind::Code },
            ],
            Category::CUX => vec![
                Column { name: "temperature", kind: Kind::Scaled { divisor: 10, unit: Unit::Celsius } },
                Column { name: "temperature_quality", kind: Kind::Code },
                Column { name: "temperature_flag", kind: Kind::Code },
                Column { name: "deviation", kind: Kind::Scaled { divisor: 10, unit: Unit::Celsius } },
                Column { name: "deviation_quality", kind: Kind::Code },
                Column { name: "deviation_flag", kind: Kind::Code },
            ],
            Category::CVX => vec![
                Column { name: "minimum", kind: Kind::Scaled { divisor: 10, unit: Unit::Celsius } },
                Column { name: "minimum_quality", kind: Kind::Code },
                Column { name: "minimum_flag", kind: Kind::Code },
                Column { name: "minimum_time", kind: Kind::Text { width: 4 } },
                Column { name: "minimum_time_quality", kind: Kind::Code },
                Column { name: "minimum_time_flag", kind: Kind::Code },
                Column { name: "maximum", kind: Kind::Scaled { divisor: 10, unit: Unit::Celsius } },
                Column { name: "maximum_quality", kind: Kind::Code },
                Column { name: "maximum_flag", kind: Kind::Code },
                Column { name: "maximum_time", kind: Kind::Text { width: 4 } },
                Column { name: "maximum_time_quality", kind: Kind::Code },
                Column { name: "maximum_time_flag", kind: Kind::Code },
            ],
            Category::CW1 => vec![
                Column { name: "first", kind: Kind::Scaled { divisor: 10, unit: Unit::Count } },
                Column { name: "first_quality", kind: Kind::Code },
                Column { name: "first_flag", kind: Kind::Code },
                Column { name: "second", kind: Kind::Scaled { divisor: 10, unit: Unit::Count } },
                Column { name: "second_quality", kind: Kind::Code },
                Column { name: "second_flag", kind: Kind::Code },
            ],
            Category::CXX => vec![
                Column { name: "depth", kind: Kind::Scaled { divisor: 10, unit: Unit::Millimetre } },
                Column { name: "depth_quality", kind: Kind::Code },
                Column { name: "depth_flag", kind: Kind::Code },
                Column { name: "frequency", kind: Kind::Scaled { divisor: 1, unit: Unit::Hertz } },
                Column { name: "frequency_quality", kind: Kind::Code },
                Column { name: "frequency_flag", kind: Kind::Code },
                Column { name: "lowest_frequency", kind: Kind::Scaled { divisor: 1, unit: Unit::Hertz } },
                Column { name: "lowest_frequency_quality", kind: Kind::Code },
                Column { name: "lowest_frequency_flag", kind: Kind::Code },
                Column { name: "highest_frequency", kind: Kind::Scaled { divisor: 1, unit: Unit::Hertz } },
                Column { name: "highest_frequency_quality", kind: Kind::Code },
                Column { name: "highest_frequency_flag", kind: Kind::Code },
            ],
            Category::ED1 => vec![
                Column { name: "direction", kind: Kind::Number { width: 2 } },
                Column { name: "designator", kind: Kind::Code },
                Column { name: "visibility", kind: Kind::Scaled { divisor: 1, unit: Unit::Metre } },
                Column { name: "quality", kind: Kind::Code },
            ],
            Category::GAX => vec![
                Column { name: "coverage", kind: Kind::Code },
                Column { name: "coverage_quality", kind: Kind::Code },
                Column { name: "base_height", kind: Kind::Scaled { divisor: 1, unit: Unit::Metre } },
                Column { name: "base_height_quality", kind: Kind::Code },
                Column { name: "cloud_type", kind: Kind::Code },
                Column { name: "cloud_type_quality", kind: Kind::Code },
            ],
            Category::GDX => vec![
                Column { name: "coverage", kind: Kind::Code },
                Column { name: "coverage_oktas", kind: Kind::Code },
                Column { name: "coverage_quality", kind: Kind::Code },
                Column { name: "height", kind: Kind::Scaled { divisor: 1, unit: Unit::Metre } },
                Column { name: "height_quality", kind: Kind::Code },
                Column { name: "characteristic", kind: Kind::Code },
            ],
            Category::GE1 => vec![
                Column { name: "convective_cloud", kind: Kind::Code },
                Column { name: "vertical_datum", kind: Kind::Code },
                Column { name: "upper_base_height", kind: Kind::Scaled { divisor: 1, unit: Unit::Metre } },
                Column { name: "lower_base_height", kind: Kind::Scaled { divisor: 1, unit: Unit::Metre } },
            ],
            Category::GF1 => vec![
                Column { name: "coverage", kind: Kind::Code },
                Column { name: "opaque_coverage", kind: Kind::Code },
                Column { name: "coverage_quality", kind: Kind::Code },
                Column { name: "lowest_coverage", kind: Kind::Code },
                Column { name: "lowest_coverage_quality", kind: Kind::Code },
                Column { name: "low_genus", kind: Kind::Code },
                Column { name: "low_genus_quality", kind: Kind::Code },
                Column { name: "lowest_base_height", kind: Kind::Scaled { divisor: 1, unit: Unit::Metre } },
                Column { name: "lowest_base_height_quality", kind: Kind::Code },
                Column { name: "mid_genus", kind: Kind::Code },
                Column { name: "mid_genus_quality", kind: Kind::Code },
                Column { name: "high_genus", kind: Kind::Code },
                Column { name: "high_genus_quality", kind: Kind::Code },
            ],
            Category::GGX => vec![
                Column { name: "coverage", kind: Kind::Code },
                Column { name: "coverage_quality", kind: Kind::Code },
                Column { name: "top_height", kind: Kind::Scaled { divisor: 1, unit: Unit::Metre } },
                Column { name: "top_height_quality", kind: Kind::Code },
                Column { name: "cloud_type", kind: Kind::Code },
                Column { name: "cloud_type_quality", kind: Kind::Code },
                Column { name: "top", kind: Kind::Code },
                Column { name: "top_quality", kind: Kind::Code },
            ],
            Category::GH1 => vec![
                Column { name: "average", kind: Kind::Scaled { divisor: 10, unit: Unit::WattPerSquareMetre } },
                Column { name: "average_quality", kind: Kind::Code },
                Column { name: "average_flag", kind: Kind::Code },
                Column { name: "minimum", kind: Kind::Scaled { divisor: 10, unit: Unit::WattPerSquareMetre } },
                Column { name: "minimum_quality", kind: Kind::Code },
                Column { name: "minimum_flag", kind: Kind::Code },
                Column { name: "maximum", kind: Kind::Scaled { divisor: 10, unit: Unit::WattPerSquareMetre } },
                Column { name: "maximum_quality", kind: Kind::Code },
                Column { name: "maximum_flag", kind: Kind::Code },
                Column { name: "deviation", kind: Kind::Scaled { divisor: 10, unit: Unit::WattPerSquareMetre } },
                Column { name: "deviation_quality", kind: Kind::Code },
                Column { name: "deviation_flag", kind: Kind::Code },
            ],
            Category::GJ1 => vec![
                Column { name: "duration", kind: Kind::Scaled { divisor: 1, unit: Unit::Minute } },
                Column { name: "quality", kind: Kind::Code },
            ],
            Category::GK1 => vec![
                Column { name: "share", kind: Kind::Scaled { divisor: 1, unit: Unit::Percent } },
                Column { name: "quality", kind: Kind::Code },
            ],
            Category::GL1 => vec![
                Column { name: "duration", kind: Kind::Scaled { divisor: 1, unit: Unit::Minute } },
                Column { name: "quality", kind: Kind::Code },
            ],
            Category::GM1 => vec![
                Column { name: "period", kind: Kind::Scaled { divisor: 1, unit: Unit::Minute } },
                Column { name: "global", kind: Kind::Scaled { divisor: 1, unit: Unit::WattPerSquareMetre } },
                Column { name: "global_flag", kind: Kind::Code },
                Column { name: "global_quality", kind: Kind::Code },
                Column { name: "direct", kind: Kind::Scaled { divisor: 1, unit: Unit::WattPerSquareMetre } },
                Column { name: "direct_flag", kind: Kind::Code },
                Column { name: "direct_quality", kind: Kind::Code },
                Column { name: "diffuse", kind: Kind::Scaled { divisor: 1, unit: Unit::WattPerSquareMetre } },
                Column { name: "diffuse_flag", kind: Kind::Code },
                Column { name: "diffuse_quality", kind: Kind::Code },
                Column { name: "ultraviolet", kind: Kind::Scaled { divisor: 1, unit: Unit::MilliwattPerSquareMetre } },
                Column { name: "ultraviolet_quality", kind: Kind::Code },
            ],
            Category::GN1 => vec![
                Column { name: "period", kind: Kind::Scaled { divisor: 1, unit: Unit::Minute } },
                Column { name: "upwelling_solar", kind: Kind::Scaled { divisor: 1, unit: Unit::WattPerSquareMetre } },
                Column { name: "upwelling_solar_quality", kind: Kind::Code },
                Column { name: "downwelling_infrared", kind: Kind::Scaled { divisor: 1, unit: Unit::WattPerSquareMetre } },
                Column { name: "downwelling_infrared_quality", kind: Kind::Code },
                Column { name: "upwelling_infrared", kind: Kind::Scaled { divisor: 1, unit: Unit::WattPerSquareMetre } },
                Column { name: "upwelling_infrared_quality", kind: Kind::Code },
                Column { name: "photosynthetic", kind: Kind::Scaled { divisor: 1, unit: Unit::WattPerSquareMetre } },
                Column { name: "photosynthetic_quality", kind: Kind::Code },
                Column { name: "zenith_angle", kind: Kind::Scaled { divisor: 1, unit: Unit::Degree } },
                Column { name: "zenith_angle_quality", kind: Kind::Code },
            ],
            Category::GO1 => vec![
                Column { name: "period", kind: Kind::Scaled { divisor: 1, unit: Unit::Minute } },
                Column { name: "solar", kind: Kind::Scaled { divisor: 1, unit: Unit::WattPerSquareMetre } },
                Column { name: "solar_quality", kind: Kind::Code },
                Column { name: "infrared", kind: Kind::Scaled { divisor: 1, unit: Unit::WattPerSquareMetre } },
                Column { name: "infrared_quality", kind: Kind::Code },
                Column { name: "net", kind: Kind::Scaled { divisor: 1, unit: Unit::WattPerSquareMetre } },
                Column { name: "net_quality", kind: Kind::Code },
            ],
            Category::GP1 => vec![
                Column { name: "period", kind: Kind::Scaled { divisor: 1, unit: Unit::Minute } },
                Column { name: "global", kind: Kind::Scaled { divisor: 1, unit: Unit::WattPerSquareMetre } },
                Column { name: "global_source", kind: Kind::Code },
                Column { name: "global_uncertainty", kind: Kind::Scaled { divisor: 1, unit: Unit::Percent } },
                Column { name: "direct", kind: Kind::Scaled { divisor: 1, unit: Unit::WattPerSquareMetre } },
                Column { name: "direct_source", kind: Kind::Code },
                Column { name: "direct_uncertainty", kind: Kind::Scaled { divisor: 1, unit: Unit::Percent } },
                Column { name: "diffuse", kind: Kind::Scaled { divisor: 1, unit: Unit::WattPerSquareMetre } },
                Column { name: "diffuse_source", kind: Kind::Code },
                Column { name: "diffuse_uncertainty", kind: Kind::Scaled { divisor: 1, unit: Unit::Percent } },
            ],
            Category::GQ1 => vec![
                Column { name: "period", kind: Kind::Scaled { divisor: 1, unit: Unit::Minute } },
                Column { name: "zenith_angle", kind: Kind::Scaled { divisor: 10, unit: Unit::Degree } },
                Column { name: "zenith_angle_quality", kind: Kind::Code },
                Column { name: "azimuth_angle", kind: Kind::Scaled { divisor: 10, unit: Unit::Degree } },
                Column { name: "azimuth_angle_quality", kind: Kind::Code },
            ],
            Category::GR1 => vec![
                Column { name: "period", kind: Kind::Scaled { divisor: 1, unit: Unit::Minute } },
                Column { name: "horizontal", kind: Kind::Scaled { divisor: 1, unit: Unit::WattPerSquareMetre } },
                Column { name: "horizontal_quality", kind: Kind::Code },
                Column { name: "normal", kind: Kind::Scaled { divisor: 1, unit: Unit::WattPerSquareMetre } },
                Column { name: "normal_quality", kind: Kind::Code },
            ],
            Category::IA1 => vec![
                Column { name: "state", kind: Kind::Code },
                Column { name: "quality", kind: Kind::Code },
            ],
            Category::IA2 => vec![
                Column { name: "period", kind: Kind::Scaled { divisor: 10, unit: Unit::Hour } },
                Column { name: "temperature", kind: Kind::Scaled { divisor: 10, unit: Unit::Celsius } },
                Column { name: "quality", kind: Kind::Code },
            ],
            Category::IB1 => vec![
                Column { name: "temperature", kind: Kind::Scaled { divisor: 10, unit: Unit::Celsius } },
                Column { name: "temperature_quality", kind: Kind::Code },
                Column { name: "temperature_flag", kind: Kind::Code },
                Column { name: "minimum", kind: Kind::Scaled { divisor: 10, unit: Unit::Celsius } },
                Column { name: "minimum_quality", kind: Kind::Code },
                Column { name: "minimum_flag", kind: Kind::Code },
                Column { name: "maximum", kind: Kind::Scaled { divisor: 10, unit: Unit::Celsius } },
                Column { name: "maximum_quality", kind: Kind::Code },
                Column { name: "maximum_flag", kind: Kind::Code },
                Column { name: "deviation", kind: Kind::Scaled { divisor: 10, unit: Unit::Celsius } },
                Column { name: "deviation_quality", kind: Kind::Code },
                Column { name: "deviation_flag", kind: Kind::Code },
            ],
            Category::IC1 => vec![
                Column { name: "period", kind: Kind::Scaled { divisor: 1, unit: Unit::Hour } },
                Column { name: "wind_movement", kind: Kind::Scaled { divisor: 1, unit: Unit::Mile } },
                Column { name: "wind_movement_condition", kind: Kind::Code },
                Column { name: "wind_movement_quality", kind: Kind::Code },
                Column { name: "evaporation", kind: Kind::Scaled { divisor: 100, unit: Unit::Inch } },
                Column { name: "evaporation_condition", kind: Kind::Code },
                Column { name: "evaporation_quality", kind: Kind::Code },
                Column { name: "highest_water_temperature", kind: Kind::Scaled { divisor: 10, unit: Unit::Celsius } },
                Column { name: "highest_water_temperature_condition", kind: Kind::Code },
                Column { name: "highest_water_temperature_quality", kind: Kind::Code },
                Column { name: "lowest_water_temperature", kind: Kind::Scaled { divisor: 10, unit: Unit::Celsius } },
                Column { name: "lowest_water_temperature_condition", kind: Kind::Code },
                Column { name: "lowest_water_temperature_quality", kind: Kind::Code },
            ],
            Category::KAX => vec![
                Column { name: "period", kind: Kind::Scaled { divisor: 10, unit: Unit::Hour } },
                Column { name: "extreme", kind: Kind::Code },
                Column { name: "temperature", kind: Kind::Scaled { divisor: 10, unit: Unit::Celsius } },
                Column { name: "quality", kind: Kind::Code },
            ],
            Category::KCX => vec![
                Column { name: "extreme", kind: Kind::Code },
                Column { name: "condition", kind: Kind::Code },
                Column { name: "temperature", kind: Kind::Scaled { divisor: 10, unit: Unit::Celsius } },
                Column { name: "dates", kind: Kind::Text { width: 6 } },
                Column { name: "quality", kind: Kind::Code },
            ],
            Category::KDX => vec![
                Column { name: "period", kind: Kind::Scaled { divisor: 1, unit: Unit::Hour } },
                Column { name: "degree_day_type", kind: Kind::Code },
                Column { name: "value", kind: Kind::Scaled { divisor: 1, unit: Unit::Count } },
                Column { name: "quality", kind: Kind::Code },
            ],
            Category::KE1 => vec![
                Column { name: "warmest_below_freezing", kind: Kind::Number { width: 2 } },
                Column { name: "warmest_below_freezing_quality", kind: Kind::Code },
                Column { name: "warmest_above_ninety", kind: Kind::Number { width: 2 } },
                Column { name: "warmest_above_ninety_quality", kind: Kind::Code },
                Column { name: "coldest_below_freezing", kind: Kind::Number { width: 2 } },
                Column { name: "coldest_below_freezing_quality", kind: Kind::Code },
                Column { name: "coldest_below_zero", kind: Kind::Number { width: 2 } },
                Column { name: "coldest_below_zero_quality", kind: Kind::Code },
            ],
            Category::KF1 => vec![
                Column { name: "temperature", kind: Kind::Scaled { divisor: 10, unit: Unit::Celsius } },
                Column { name: "quality", kind: Kind::Code },
            ],
            Category::KGX => vec![
                Column { name: "period", kind: Kind::Scaled { divisor: 1, unit: Unit::Hour } },
                Column { name: "temperature_type", kind: Kind::Code },
                Column { name: "temperature", kind: Kind::Scaled { divisor: 100, unit: Unit::Celsius } },
                Column { name: "derivation", kind: Kind::Code },
                Column { name: "quality", kind: Kind::Code },
            ],
            Category::MA1 => vec![
                Column { name: "altimeter", kind: Kind::Scaled { divisor: 10, unit: Unit::Hectopascal } },
                Column { name: "altimeter_quality", kind: Kind::Code },
                Column { name: "station", kind: Kind::Scaled { divisor: 10, unit: Unit::Hectopascal } },
                Column { name: "station_quality", kind: Kind::Code },
            ],
            Category::MD1 => vec![
                Column { name: "tendency", kind: Kind::Code },
                Column { name: "tendency_quality", kind: Kind::Code },
                Column { name: "three_hours", kind: Kind::Scaled { divisor: 10, unit: Unit::Hectopascal } },
                Column { name: "three_hours_quality", kind: Kind::Code },
                Column { name: "day", kind: Kind::Scaled { divisor: 10, unit: Unit::Hectopascal } },
                Column { name: "day_quality", kind: Kind::Code },
            ],
            Category::ME1 => vec![
                Column { name: "level", kind: Kind::Code },
                Column { name: "height", kind: Kind::Scaled { divisor: 1, unit: Unit::Metre } },
                Column { name: "quality", kind: Kind::Code },
            ],
            Category::MF1 => vec![
                Column { name: "station", kind: Kind::Scaled { divisor: 10, unit: Unit::Hectopascal } },
                Column { name: "station_quality", kind: Kind::Code },
                Column { name: "sea_level", kind: Kind::Scaled { divisor: 10, unit: Unit::Hectopascal } },
                Column { name: "sea_level_quality", kind: Kind::Code },
            ],
            Category::MG1 => vec![
                Column { name: "station", kind: Kind::Scaled { divisor: 10, unit: Unit::Hectopascal } },
                Column { name: "station_quality", kind: Kind::Code },
                Column { name: "lowest_sea_level", kind: Kind::Scaled { divisor: 10, unit: Unit::Hectopascal } },
                Column { name: "lowest_sea_level_quality", kind: Kind::Code },
            ],
            Category::MH1 => vec![
                Column { name: "station", kind: Kind::Scaled { divisor: 10, unit: Unit::Hectopascal } },
                Column { name: "station_quality", kind: Kind::Code },
                Column { name: "sea_level", kind: Kind::Scaled { divisor: 10, unit: Unit::Hectopascal } },
                Column { name: "sea_level_quality", kind: Kind::Code },
            ],
            Category::MK1 => vec![
                Column { name: "highest", kind: Kind::Scaled { divisor: 10, unit: Unit::Hectopascal } },
                Column { name: "highest_time", kind: Kind::Text { width: 6 } },
                Column { name: "highest_quality", kind: Kind::Code },
                Column { name: "lowest", kind: Kind::Scaled { divisor: 10, unit: Unit::Hectopascal } },
                Column { name: "lowest_time", kind: Kind::Text { width: 6 } },
                Column { name: "lowest_quality", kind: Kind::Code },
            ],
            Category::OAX => vec![
                Column { name: "wind_type", kind: Kind::Code },
                Column { name: "period", kind: Kind::Scaled { divisor: 1, unit: Unit::Hour } },
                Column { name: "speed", kind: Kind::Scaled { divisor: 10, unit: Unit::MetrePerSecond } },
                Column { name: "quality", kind: Kind::Code },
            ],
            Category::OBX => vec![
                Column { name: "period", kind: Kind::Scaled { divisor: 1, unit: Unit::Minute } },
                Column { name: "gust", kind: Kind::Scaled { divisor: 10, unit: Unit::MetrePerSecond } },
                Column { name: "gust_quality", kind: Kind::Code },
                Column { name: "gust_flag", kind: Kind::Code },
                Column { name: "gust_direction", kind: Kind::Scaled { divisor: 1, unit: Unit::Degree } },
                Column { name: "gust_direction_quality", kind: Kind::Code },
                Column { name: "gust_direction_flag", kind: Kind::Code },
                Column { name: "speed_deviation", kind: Kind::Scaled { divisor: 100, unit: Unit::MetrePerSecond } },
                Column { name: "speed_deviation_quality", kind: Kind::Code },
                Column { name: "speed_deviation_flag", kind: Kind::Code },
                Column { name: "direction_deviation", kind: Kind::Scaled { divisor: 100, unit: Unit::Degree } },
                Column { name: "direction_deviation_quality", kind: Kind::Code },
                Column { name: "direction_deviation_flag", kind: Kind::Code },
            ],
            Category::OC1 => vec![
                Column { name: "speed", kind: Kind::Scaled { divisor: 10, unit: Unit::MetrePerSecond } },
                Column { name: "quality", kind: Kind::Code },
            ],
            Category::ODX => vec![
                Column { name: "wind_type", kind: Kind::Code },
                Column { name: "period", kind: Kind::Scaled { divisor: 1, unit: Unit::Hour } },
                Column { name: "direction", kind: Kind::Scaled { divisor: 1, unit: Unit::Degree } },
                Column { name: "speed", kind: Kind::Scaled { divisor: 10, unit: Unit::MetrePerSecond } },
                Column { name: "quality", kind: Kind::Code },
            ],
            Category::OEX => vec![
                Column { name: "wind_type", kind: Kind::Code },
                Column { name: "period", kind: Kind::Scaled { divisor: 1, unit: Unit::Hour } },
                Column { name: "speed", kind: Kind::Scaled { divisor: 100, unit: Unit::MetrePerSecond } },
                Column { name: "direction", kind: Kind::Scaled { divisor: 1, unit: Unit::Degree } },
                Column { name: "time", kind: Kind::Text { width: 4 } },
                Column { name: "quality", kind: Kind::Code },
            ],
            Category::RHX => vec![
                Column { name: "period", kind: Kind::Scaled { divisor: 1, unit: Unit::Hour } },
                Column { name: "humidity_type", kind: Kind::Code },
                Column { name: "humidity", kind: Kind::Scaled { divisor: 1, unit: Unit::Percent } },
                Column { name: "derivation", kind: Kind::Code },
                Column { name: "quality", kind: Kind::Code },
            ],
            Category::SA1 => vec![
                Column { name: "temperature", kind: Kind::Scaled { divisor: 10, unit: Unit::Celsius } },
                Column { name: "quality", kind: Kind::Code },
            ],
            Category::WD1 => vec![
                Column { name: "edge_bearing", kind: Kind::Code },
                Column { name: "concentration", kind: Kind::Scaled { divisor: 1, unit: Unit::Percent } },
                Column { name: "uneven_concentration", kind: Kind::Code },
                Column { name: "ship_position", kind: Kind::Code },
                Column { name: "penetrability", kind: Kind::Code },
                Column { name: "trend", kind: Kind::Code },
                Column { name: "development", kind: Kind::Code },
                Column { name: "growler_presence", kind: Kind::Code },
                Column { name: "growlers", kind: Kind::Number { width: 3 } },
                Column { name: "icebergs", kind: Kind::Number { width: 3 } },
                Column { name: "quality", kind: Kind::Code },
            ],
            Category::WG1 => vec![
                Column { name: "edge_bearing", kind: Kind::Code },
                Column { name: "edge_distance", kind: Kind::Scaled { divisor: 1, unit: Unit::Kilometre } },
                Column { name: "edge_orientation", kind: Kind::Code },
                Column { name: "formation", kind: Kind::Code },
                Column { name: "navigation_effect", kind: Kind::Code },
                Column { name: "quality", kind: Kind::Code },
            ],
            Category::WJ1 => vec![
                Column { name: "ice_thickness", kind: Kind::Scaled { divisor: 1, unit: Unit::Centimetre } },
                Column { name: "discharge", kind: Kind::Scaled { divisor: 1, unit: Unit::CubicMetrePerSecond } },
                Column { name: "primary_ice", kind: Kind::Code },
                Column { name: "secondary_ice", kind: Kind::Code },
                Column { name: "stage_height", kind: Kind::Scaled { divisor: 1, unit: Unit::Centimetre } },
                Column { name: "slush", kind: Kind::Code },
                Column { name: "water_level", kind: Kind::Code },
            ],
        };
        assert(r@ =~= self.columns());
        r
    }
}

} // verus!
