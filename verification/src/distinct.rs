//! No two entries of a record share a name.

use vstd::prelude::*;
use crate::category::Category;
use crate::digits::digit_char;
use crate::names::{Attribute, Id, Slot};

verus! {

/// The letters of a category are two, and the name of a slot is those two and the
/// digit of its number.
pub proof fn lemma_slot_name(slot: Slot)
    ensures
        slot.category.letters().len() == 2,
        slot.name().len() == 3,
        slot.name()[0] == slot.category.letters()[0],
        slot.name()[1] == slot.category.letters()[1],
        slot.name()[2] == digit_char(slot.occurrence as int),
        'a' <= slot.name()[0] <= 'z',
        'a' <= slot.name()[1] <= 'z',
{
    reveal_strlit("aa");
    reveal_strlit("ab");
    reveal_strlit("ac");
    reveal_strlit("ad");
    reveal_strlit("ae");
    reveal_strlit("ag");
    reveal_strlit("ah");
    reveal_strlit("ai");
    reveal_strlit("aj");
    reveal_strlit("ak");
    reveal_strlit("al");
    reveal_strlit("am");
    reveal_strlit("an");
    reveal_strlit("ao");
    reveal_strlit("at");
    reveal_strlit("au");
    reveal_strlit("aw");
    reveal_strlit("ax");
    reveal_strlit("ay");
    reveal_strlit("az");
    reveal_strlit("mw");
    reveal_strlit("cb");
    reveal_strlit("cf");
    reveal_strlit("cg");
    reveal_strlit("ch");
    reveal_strlit("ci");
    reveal_strlit("cn");
    reveal_strlit("co");
    reveal_strlit("cr");
    reveal_strlit("ct");
    reveal_strlit("cu");
    reveal_strlit("cv");
    reveal_strlit("cw");
    reveal_strlit("cx");
    reveal_strlit("ed");
    reveal_strlit("ga");
    reveal_strlit("gd");
    reveal_strlit("ge");
    reveal_strlit("gf");
    reveal_strlit("gg");
    reveal_strlit("gh");
    reveal_strlit("gj");
    reveal_strlit("gk");
    reveal_strlit("gl");
    reveal_strlit("gm");
    reveal_strlit("gn");
    reveal_strlit("go");
    reveal_strlit("gp");
    reveal_strlit("gq");
    reveal_strlit("gr");
    reveal_strlit("ia");
    reveal_strlit("ib");
    reveal_strlit("ic");
    reveal_strlit("ka");
    reveal_strlit("kc");
    reveal_strlit("kd");
    reveal_strlit("ke");
    reveal_strlit("kf");
    reveal_strlit("kg");
    reveal_strlit("ma");
    reveal_strlit("md");
    reveal_strlit("me");
    reveal_strlit("mf");
    reveal_strlit("mg");
    reveal_strlit("mh");
    reveal_strlit("mk");
    reveal_strlit("oa");
    reveal_strlit("ob");
    reveal_strlit("oc");
    reveal_strlit("od");
    reveal_strlit("oe");
    reveal_strlit("rh");
    reveal_strlit("sa");
    reveal_strlit("wd");
    reveal_strlit("wg");
    reveal_strlit("wj");
}

/// Two categories whose slots start with the same letters have no slot number in
/// common.
pub proof fn lemma_categories_share_no_slot(a: Slot, b: Slot)
    requires
        a.valid(),
        b.valid(),
        a.occurrence == b.occurrence,
        a.category.letters() == b.category.letters(),
    ensures
        a.category == b.category,
{
    reveal_strlit("aa");
    reveal_strlit("ab");
    reveal_strlit("ac");
    reveal_strlit("ad");
    reveal_strlit("ae");
    reveal_strlit("ag");
    reveal_strlit("ah");
    reveal_strlit("ai");
    reveal_strlit("aj");
    reveal_strlit("ak");
    reveal_strlit("al");
    reveal_strlit("am");
    reveal_strlit("an");
    reveal_strlit("ao");
    reveal_strlit("at");
    reveal_strlit("au");
    reveal_strlit("aw");
    reveal_strlit("ax");
    reveal_strlit("ay");
    reveal_strlit("az");
    reveal_strlit("mw");
    reveal_strlit("cb");
    reveal_strlit("cf");
    reveal_strlit("cg");
    reveal_strlit("ch");
    reveal_strlit("ci");
    reveal_strlit("cn");
    reveal_strlit("co");
    reveal_strlit("cr");
    reveal_strlit("ct");
    reveal_strlit("cu");
    reveal_strlit("cv");
    reveal_strlit("cw");
    reveal_strlit("cx");
    reveal_strlit("ed");
    reveal_strlit("ga");
    reveal_strlit("gd");
    reveal_strlit("ge");
    reveal_strlit("gf");
    reveal_strlit("gg");
    reveal_strlit("gh");
    reveal_strlit("gj");
    reveal_strlit("gk");
    reveal_strlit("gl");
    reveal_strlit("gm");
    reveal_strlit("gn");
    reveal_strlit("go");
    reveal_strlit("gp");
    reveal_strlit("gq");
    reveal_strlit("gr");
    reveal_strlit("ia");
    reveal_strlit("ib");
    reveal_strlit("ic");
    reveal_strlit("ka");
    reveal_strlit("kc");
    reveal_strlit("kd");
    reveal_strlit("ke");
    reveal_strlit("kf");
    reveal_strlit("kg");
    reveal_strlit("ma");
    reveal_strlit("md");
    reveal_strlit("me");
    reveal_strlit("mf");
    reveal_strlit("mg");
    reveal_strlit("mh");
    reveal_strlit("mk");
    reveal_strlit("oa");
    reveal_strlit("ob");
    reveal_strlit("oc");
    reveal_strlit("od");
    reveal_strlit("oe");
    reveal_strlit("rh");
    reveal_strlit("sa");
    reveal_strlit("wd");
    reveal_strlit("wg");
    reveal_strlit("wj");
    match a.category {
        Category::AAX => {
            assert(b.category.letters()[0] == 'a');
            assert(b.category.letters()[1] == 'a');
            assert(a.category == b.category);
        },
        Category::AB1 => {
            assert(b.category.letters()[0] == 'a');
            assert(b.category.letters()[1] == 'b');
            assert(a.category == b.category);
        },
        Category::AC1 => {
            assert(b.category.letters()[0] == 'a');
            assert(b.category.letters()[1] == 'c');
            assert(a.category == b.category);
        },
        Category::AD1 => {
            assert(b.category.letters()[0] == 'a');
            assert(b.category.letters()[1] == 'd');
            assert(a.category == b.category);
        },
        Category::AE1 => {
            assert(b.category.letters()[0] == 'a');
            assert(b.category.letters()[1] == 'e');
            assert(a.category == b.category);
        },
        Category::AG1 => {
            assert(b.category.letters()[0] == 'a');
            assert(b.category.letters()[1] == 'g');
            assert(a.category == b.category);
        },
        Category::AHX => {
            assert(b.category.letters()[0] == 'a');
            assert(b.category.letters()[1] == 'h');
            assert(a.category == b.category);
        },
        Category::AIX => {
            assert(b.category.letters()[0] == 'a');
            assert(b.category.letters()[1] == 'i');
            assert(a.category == b.category);
        },
        Category::AJ1 => {
            assert(b.category.letters()[0] == 'a');
            assert(b.category.letters()[1] == 'j');
            assert(a.category == b.category);
        },
        Category::AK1 => {
            assert(b.category.letters()[0] == 'a');
            assert(b.category.letters()[1] == 'k');
            assert(a.category == b.category);
        },
        Category::ALX => {
            assert(b.category.letters()[0] == 'a');
            assert(b.category.letters()[1] == 'l');
            assert(a.category == b.category);
        },
        Category::AM1 => {
            assert(b.category.letters()[0] == 'a');
            assert(b.category.letters()[1] == 'm');
            assert(a.category == b.category);
        },
        Category::AN1 => {
            assert(b.category.letters()[0] == 'a');
            assert(b.category.letters()[1] == 'n');
            assert(a.category == b.category);
        },
        Category::AOX => {
            assert(b.category.letters()[0] == 'a');
            assert(b.category.letters()[1] == 'o');
            assert(a.category == b.category);
        },
        Category::ATX => {
            assert(b.category.letters()[0] == 'a');
            assert(b.category.letters()[1] == 't');
            assert(a.category == b.category);
        },
        Category::AUX => {
            assert(b.category.letters()[0] == 'a');
            assert(b.category.letters()[1] == 'u');
            assert(a.category == b.category);
        },
        Category::AWX => {
            assert(b.category.letters()[0] == 'a');
            assert(b.category.letters()[1] == 'w');
            assert(a.category == b.category);
        },
        Category::AXX => {
            assert(b.category.letters()[0] == 'a');
            assert(b.category.letters()[1] == 'x');
            assert(a.category == b.category);
        },
        Category::AYX => {
            assert(b.category.letters()[0] == 'a');
            assert(b.category.letters()[1] == 'y');
            assert(a.category == b.category);
        },
        Category::AZX => {
            assert(b.category.letters()[0] == 'a');
            assert(b.category.letters()[1] == 'z');
            assert(a.category == b.category);
        },
        Category::MWX => {
            assert(b.category.letters()[0] == 'm');
            assert(b.category.letters()[1] == 'w');
            assert(a.category == b.category);
        },
        Category::CBX => {
            assert(b.category.letters()[0] == 'c');
            assert(b.category.letters()[1] == 'b');
            assert(a.category == b.category);
        },
        Category::CFX => {
            assert(b.category.letters()[0] == 'c');
            assert(b.category.letters()[1] == 'f');
            assert(a.category == b.category);
        },
        Category::CGX => {
            assert(b.category.letters()[0] == 'c');
            assert(b.category.letters()[1] == 'g');
            assert(a.category == b.category);
        },
        Category::CHX => {
            assert(b.category.letters()[0] == 'c');
            assert(b.category.letters()[1] == 'h');
            assert(a.category == b.category);
        },
        Category::CI1 => {
            assert(b.category.letters()[0] == 'c');
            assert(b.category.letters()[1] == 'i');
            assert(a.category == b.category);
        },
        Category::CN1 => {
            assert(b.category.letters()[0] == 'c');
            assert(b.category.letters()[1] == 'n');
            assert(a.category == b.category);
        },
        Category::CN2 => {
            assert(b.category.letters()[0] == 'c');
            assert(b.category.letters()[1] == 'n');
            assert(a.category == b.category);
        },
        Category::CN3 => {
            assert(b.category.letters()[0] == 'c');
            assert(b.category.letters()[1] == 'n');
            assert(a.category == b.category);
        },
        Category::CN4 => {
            assert(b.category.letters()[0] == 'c');
            assert(b.category.letters()[1] == 'n');
            assert(a.category == b.category);
        },
        Category::CO1 => {
            assert(b.category.letters()[0] == 'c');
            assert(b.category.letters()[1] == 'o');
            assert(a.category == b.category);
        },
        Category::COX => {
            assert(b.category.letters()[0] == 'c');
            assert(b.category.letters()[1] == 'o');
            assert(a.category == b.category);
        },
        Category::CR1 => {
            assert(b.category.letters()[0] == 'c');
            assert(b.category.letters()[1] == 'r');
            assert(a.category == b.category);
        },
        Category::CTX => {
            assert(b.category.letters()[0] == 'c');
            assert(b.category.letters()[1] == 't');
            assert(a.category == b.category);
        },
        Category::CUX => {
            assert(b.category.letters()[0] == 'c');
            assert(b.category.letters()[1] == 'u');
            assert(a.category == b.category);
        },
        Category::CVX => {
            assert(b.category.letters()[0] == 'c');
            assert(b.category.letters()[1] == 'v');
            assert(a.category == b.category);
        },
        Category::CW1 => {
            assert(b.category.letters()[0] == 'c');
            assert(b.category.letters()[1] == 'w');
            assert(a.category == b.category);
        },
        Category::CXX => {
            assert(b.category.letters()[0] == 'c');
            assert(b.category.letters()[1] == 'x');
            assert(a.category == b.category);
        },
        Category::ED1 => {
            assert(b.category.letters()[0] == 'e');
            assert(b.category.letters()[1] == 'd');
            assert(a.category == b.category);
        },
        Category::GAX => {
            assert(b.category.letters()[0] == 'g');
            assert(b.category.letters()[1] == 'a');
            assert(a.category == b.category);
        },
        Category::GDX => {
            assert(b.category.letters()[0] == 'g');
            assert(b.category.letters()[1] == 'd');
            assert(a.category == b.category);
        },
        Category::GE1 => {
            assert(b.category.letters()[0] == 'g');
            assert(b.category.letters()[1] == 'e');
            assert(a.category == b.category);
        },
        Category::GF1 => {
            assert(b.category.letters()[0] == 'g');
            assert(b.category.letters()[1] == 'f');
            assert(a.category == b.category);
        },
        Category::GGX => {
            assert(b.category.letters()[0] == 'g');
            assert(b.category.letters()[1] == 'g');
            assert(a.category == b.category);
        },
        Category::GH1 => {
            assert(b.category.letters()[0] == 'g');
            assert(b.category.letters()[1] == 'h');
            assert(a.category == b.category);
        },
        Category::GJ1 => {
            assert(b.category.letters()[0] == 'g');
            assert(b.category.letters()[1] == 'j');
            assert(a.category == b.category);
        },
        Category::GK1 => {
            assert(b.category.letters()[0] == 'g');
            assert(b.category.letters()[1] == 'k');
            assert(a.category == b.category);
        },
        Category::GL1 => {
            assert(b.category.letters()[0] == 'g');
            assert(b.category.letters()[1] == 'l');
            assert(a.category == b.category);
        },
        Category::GM1 => {
            assert(b.category.letters()[0] == 'g');
            assert(b.category.letters()[1] == 'm');
            assert(a.category == b.category);
        },
        Category::GN1 => {
            assert(b.category.letters()[0] == 'g');
            assert(b.category.letters()[1] == 'n');
            assert(a.category == b.category);
        },
        Category::GO1 => {
            assert(b.category.letters()[0] == 'g');
            assert(b.category.letters()[1] == 'o');
            assert(a.category == b.category);
        },
        Category::GP1 => {
            assert(b.category.letters()[0] == 'g');
            assert(b.category.letters()[1] == 'p');
            assert(a.category == b.category);
        },
        Category::GQ1 => {
            assert(b.category.letters()[0] == 'g');
            assert(b.category.letters()[1] == 'q');
            assert(a.category == b.category);
        },
        Category::GR1 => {
            assert(b.category.letters()[0] == 'g');
            assert(b.category.letters()[1] == 'r');
            assert(a.category == b.category);
        },
        Category::IA1 => {
            assert(b.category.letters()[0] == 'i');
            assert(b.category.letters()[1] == 'a');
            assert(a.category == b.category);
        },
        Category::IA2 => {
            assert(b.category.letters()[0] == 'i');
            assert(b.category.letters()[1] == 'a');
            assert(a.category == b.category);
        },
        Category::IB1 => {
            assert(b.category.letters()[0] == 'i');
            assert(b.category.letters()[1] == 'b');
            assert(a.category == b.category);
        },
        Category::IC1 => {
            assert(b.category.letters()[0] == 'i');
            assert(b.category.letters()[1] == 'c');
            assert(a.category == b.category);
        },
        Category::KAX => {
            assert(b.category.letters()[0] == 'k');
            assert(b.category.letters()[1] == 'a');
            assert(a.category == b.category);
        },
        Category::KCX => {
            assert(b.category.letters()[0] == 'k');
            assert(b.category.letters()[1] == 'c');
            assert(a.category == b.category);
        },
        Category::KDX => {
            assert(b.category.letters()[0] == 'k');
            assert(b.category.letters()[1] == 'd');
            assert(a.category == b.category);
        },
        Category::KE1 => {
            assert(b.category.letters()[0] == 'k');
            assert(b.category.letters()[1] == 'e');
            assert(a.category == b.category);
        },
        Category::KF1 => {
            assert(b.category.letters()[0] == 'k');
            assert(b.category.letters()[1] == 'f');
            assert(a.category == b.category);
        },
        Category::KGX => {
            assert(b.category.letters()[0] == 'k');
            assert(b.category.letters()[1] == 'g');
            assert(a.category == b.category);
        },
        Category::MA1 => {
            assert(b.category.letters()[0] == 'm');
            assert(b.category.letters()[1] == 'a');
            assert(a.category == b.category);
        },
        Category::MD1 => {
            assert(b.category.letters()[0] == 'm');
            assert(b.category.letters()[1] == 'd');
            assert(a.category == b.category);
        },
        Category::ME1 => {
            assert(b.category.letters()[0] == 'm');
            assert(b.category.letters()[1] == 'e');
            assert(a.category == b.category);
        },
        Category::MF1 => {
            assert(b.category.letters()[0] == 'm');
            assert(b.category.letters()[1] == 'f');
            assert(a.category == b.category);
        },
        Category::MG1 => {
            assert(b.category.letters()[0] == 'm');
            assert(b.category.letters()[1] == 'g');
            assert(a.category == b.category);
        },
        Category::MH1 => {
            assert(b.category.letters()[0] == 'm');
            assert(b.category.letters()[1] == 'h');
            assert(a.category == b.category);
        },
        Category::MK1 => {
            assert(b.category.letters()[0] == 'm');
            assert(b.category.letters()[1] == 'k');
            assert(a.category == b.category);
        },
        Category::OAX => {
            assert(b.category.letters()[0] == 'o');
            assert(b.category.letters()[1] == 'a');
            assert(a.category == b.category);
        },
        Category::OBX => {
            assert(b.category.letters()[0] == 'o');
            assert(b.category.letters()[1] == 'b');
            assert(a.category == b.category);
        },
        Category::OC1 => {
            assert(b.category.letters()[0] == 'o');
            assert(b.category.letters()[1] == 'c');
            assert(a.category == b.category);
        },
        Category::ODX => {
            assert(b.category.letters()[0] == 'o');
            assert(b.category.letters()[1] == 'd');
            assert(a.category == b.category);
        },
        Category::OEX => {
            assert(b.category.letters()[0] == 'o');
            assert(b.category.letters()[1] == 'e');
            assert(a.category == b.category);
        },
        Category::RHX => {
            assert(b.category.letters()[0] == 'r');
            assert(b.category.letters()[1] == 'h');
            assert(a.category == b.category);
        },
        Category::SA1 => {
            assert(b.category.letters()[0] == 's');
            assert(b.category.letters()[1] == 'a');
            assert(a.category == b.category);
        },
        Category::WD1 => {
            assert(b.category.letters()[0] == 'w');
            assert(b.category.letters()[1] == 'd');
            assert(a.category == b.category);
        },
        Category::WG1 => {
            assert(b.category.letters()[0] == 'w');
            assert(b.category.letters()[1] == 'g');
            assert(a.category == b.category);
        },
        Category::WJ1 => {
            assert(b.category.letters()[0] == 'w');
            assert(b.category.letters()[1] == 'j');
            assert(a.category == b.category);
        },
    }
}

/// The name of an attribute is not the name of a slot: it is longer, or ends
/// in a letter.
pub proof fn lemma_attribute_is_no_slot(a: Attribute, slot: Slot)
    ensures
        a.name() != slot.name(),
{
    lemma_slot_name(slot);
    reveal_strlit("station");
    reveal_strlit("date");
    reveal_strlit("source");
    reveal_strlit("latitude");
    reveal_strlit("longitude");
    reveal_strlit("elevation");
    reveal_strlit("name");
    reveal_strlit("report_type");
    reveal_strlit("call_sign");
    reveal_strlit("quality_control");
    reveal_strlit("wnd");
    reveal_strlit("cig");
    reveal_strlit("vis");
    reveal_strlit("tmp");
    reveal_strlit("slp");
}

/// Two attributes of the same name are the same attribute.
pub proof fn lemma_attributes_are_distinct(a: Attribute, b: Attribute)
    requires
        a.name() == b.name(),
    ensures
        a == b,
{
    reveal_strlit("station");
    reveal_strlit("date");
    reveal_strlit("source");
    reveal_strlit("latitude");
    reveal_strlit("longitude");
    reveal_strlit("elevation");
    reveal_strlit("name");
    reveal_strlit("report_type");
    reveal_strlit("call_sign");
    reveal_strlit("quality_control");
    reveal_strlit("wnd");
    reveal_strlit("cig");
    reveal_strlit("vis");
    reveal_strlit("tmp");
    reveal_strlit("slp");
    match a {
        Attribute::Station => {
            assert(b.name().len() == 7);
            assert(b.name()[0] == 's');
            assert(a == b);
        },
        Attribute::Date => {
            assert(b.name().len() == 4);
            assert(b.name()[0] == 'd');
            assert(a == b);
        },
        Attribute::Source => {
            assert(b.name().len() == 6);
            assert(b.name()[0] == 's');
            assert(a == b);
        },
        Attribute::Latitude => {
            assert(b.name().len() == 8);
            assert(b.name()[0] == 'l');
            assert(a == b);
        },
        Attribute::Longitude => {
            assert(b.name().len() == 9);
            assert(b.name()[0] == 'l');
            assert(a == b);
        },
        Attribute::Elevation => {
            assert(b.name().len() == 9);
            assert(b.name()[0] == 'e');
            assert(a == b);
        },
        Attribute::Name => {
            assert(b.name().len() == 4);
            assert(b.name()[0] == 'n');
            assert(a == b);
        },
        Attribute::ReportType => {
            assert(b.name().len() == 11);
            assert(b.name()[0] == 'r');
            assert(a == b);
        },
        Attribute::CallSign => {
            assert(b.name().len() == 9);
            assert(b.name()[0] == 'c');
            assert(a == b);
        },
        Attribute::QualityControl => {
            assert(b.name().len() == 15);
            assert(b.name()[0] == 'q');
            assert(a == b);
        },
        Attribute::Wnd => {
            assert(b.name().len() == 3);
            assert(b.name()[0] == 'w');
            assert(a == b);
        },
        Attribute::Cig => {
            assert(b.name().len() == 3);
            assert(b.name()[0] == 'c');
            assert(a == b);
        },
        Attribute::Vis => {
            assert(b.name().len() == 3);
            assert(b.name()[0] == 'v');
            assert(a == b);
        },
        Attribute::Tmp => {
            assert(b.name().len() == 3);
            assert(b.name()[0] == 't');
            assert(a == b);
        },
        Attribute::Slp => {
            assert(b.name().len() == 3);
            assert(b.name()[0] == 's');
            assert(a == b);
        },
    }
}

/// No two entries of a record share a name: what a record can hold, an attribute
/// or a slot that exists, is told by its lower-case name.
pub proof fn law_names_are_distinct(a: Id, b: Id)
    requires
        a matches Id::Slot(slot) ==> slot.valid(),
        b matches Id::Slot(slot) ==> slot.valid(),
        a.name() == b.name(),
    ensures
        a == b,
{
    match (a, b) {
        (Id::Attribute(x), Id::Attribute(y)) => {
            lemma_attributes_are_distinct(x, y);
        },
        (Id::Attribute(x), Id::Slot(s)) => {
            lemma_attribute_is_no_slot(x, s);
        },
        (Id::Slot(s), Id::Attribute(y)) => {
            lemma_attribute_is_no_slot(y, s);
        },
        (Id::Slot(s), Id::Slot(t)) => {
            lemma_slot_name(s);
            lemma_slot_name(t);
            assert(s.occurrence == t.occurrence);
            assert(s.category.letters() =~= t.category.letters());
            lemma_categories_share_no_slot(s, t);
        },
    }
}

} // verus!
