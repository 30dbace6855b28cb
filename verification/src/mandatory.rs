//! The five field groups that every record holds.

use vstd::prelude::*;
use crate::error::GroupFault;
use crate::group::{
    decode_group, decoded_group, decoded_prefix, lemma_decoded_prefix_fields, quantity_view, take_code,
    take_scaled,
};
use crate::columns::columns;
use crate::encoded::{encode_code, encode_quantity, encoded_members, member_views, Member};
use crate::layout::{Column, FieldView, Kind, Unit};
use crate::rational::Rational;
use crate::record_value::RecordValue;

verus! {

/// The wind observation: where the wind blows from and how fast.
#[derive(Clone, Debug, PartialEq)]
pub struct Wind {
    /// The angle, clockwise from true north, from which the wind blows.
    pub direction: Option<RecordValue<Rational>>,
    /// The quality-control code of the direction.
    pub direction_quality: String,
    /// The code of the kind of wind observation.
    pub observation_type: String,
    /// The rate of horizontal travel of the air.
    pub speed: Option<RecordValue<Rational>>,
    /// The quality-control code of the speed.
    pub speed_quality: String,
}

impl Wind {
    /// The columns of the group's segment, in order.
    pub open spec fn columns() -> Seq<Column> {
        seq![
            Column { name: "direction", kind: Kind::Scaled { divisor: 1, unit: Unit::Degree } },
            Column { name: "direction_quality", kind: Kind::Code },
            Column { name: "observation_type", kind: Kind::Code },
            Column { name: "speed", kind: Kind::Scaled { divisor: 10, unit: Unit::MetrePerSecond } },
            Column { name: "speed_quality", kind: Kind::Code },
        ]
    }

    /// The columns of the group's segment, in order.
    pub fn layout() -> (r: Vec<Column>)
        ensures
            r@ == Self::columns(),
    {
        let r = vec![
            Column { name: "direction", kind: Kind::Scaled { divisor: 1, unit: Unit::Degree } },
            Column { name: "direction_quality", kind: Kind::Code },
            Column { name: "observation_type", kind: Kind::Code },
            Column { name: "speed", kind: Kind::Scaled { divisor: 10, unit: Unit::MetrePerSecond } },
            Column { name: "speed_quality", kind: Kind::Code },
        ];
        assert(r@ =~= Self::columns());
        r
    }

    /// The group's fields, in the order of its columns.
    pub open spec fn fields(&self) -> Seq<FieldView> {
        seq![
            FieldView::Scaled(quantity_view(self.direction)),
            FieldView::Code(self.direction_quality@),
            FieldView::Code(self.observation_type@),
            FieldView::Scaled(quantity_view(self.speed)),
            FieldView::Code(self.speed_quality@),
        ]
    }

    /// Decodes the group's segment `raw`.
    pub fn decode(raw: &str) -> (r: Result<Wind, GroupFault>)
        ensures
            match r {
                Ok(group) => decoded_group(Self::columns(), raw@) == Ok::<Seq<FieldView>, GroupFault>(
                    group.fields(),
                ),
                Err(fault) => decoded_group(Self::columns(), raw@) == Err::<
                    Seq<FieldView>,
                    GroupFault,
                >(fault),
            },
    {
        let layout = Self::layout();
        match decode_group(&layout, raw) {
            Err(fault) => Err(fault),
            Ok(fields) => {
                let mut fields = fields;
                let ghost all = fields@;
                proof {
                    assert(Self::columns().len() == 5);
                    let decoded = crate::group::field_views(all);
                    assert(decoded_prefix(Self::columns(), columns(raw@), 5) == Ok::<
                        Seq<FieldView>,
                        GroupFault,
                    >(decoded));
                    lemma_decoded_prefix_fields(Self::columns(), columns(raw@), 5);
                    assert(decoded[0] == all[0]@);
                    assert(decoded[1] == all[1]@);
                    assert(decoded[2] == all[2]@);
                    assert(decoded[3] == all[3]@);
                    assert(decoded[4] == all[4]@);
                }
                assert(all[4]@ is Code);
                let speed_quality = take_code(&mut fields);
                assert(all[3]@ is Scaled);
                let speed = take_scaled(&mut fields);
                assert(all[2]@ is Code);
                let observation_type = take_code(&mut fields);
                assert(all[1]@ is Code);
                let direction_quality = take_code(&mut fields);
                assert(all[0]@ is Scaled);
                let direction = take_scaled(&mut fields);
                let group = Wind { direction, direction_quality, observation_type, speed, speed_quality };
                proof {
                    assert(crate::group::field_views(all) =~= group.fields());
                }
                Ok(group)
            },
        }
    }

    /// Encodes the group: one member for each column, in order.
    pub fn encode(&self) -> (r: Vec<Member>)
        ensures
            member_views(r@) == encoded_members(Self::columns(), self.fields()),
    {
        let r = vec![
            Member { name: "direction".to_owned(), item: encode_quantity(&self.direction) },
            Member { name: "direction_quality".to_owned(), item: encode_code(&self.direction_quality) },
            Member { name: "observation_type".to_owned(), item: encode_code(&self.observation_type) },
            Member { name: "speed".to_owned(), item: encode_quantity(&self.speed) },
            Member { name: "speed_quality".to_owned(), item: encode_code(&self.speed_quality) },
        ];
        assert(member_views(r@) =~= encoded_members(Self::columns(), self.fields()));
        r
    }
}

/// The sky condition: the height of the lowest cloud layer that covers the sky.
#[derive(Clone, Debug, PartialEq)]
pub struct Ceiling {
    /// The height above ground of the lowest ceiling.
    pub height: Option<RecordValue<Rational>>,
    /// The quality-control code of the height.
    pub quality: String,
    /// The code of the method by which the height was found.
    pub determination: String,
    /// The code that tells whether ceiling and visibility are unrestricted.
    pub cavok: String,
}

impl Ceiling {
    /// The columns of the group's segment, in order.
    pub open spec fn columns() -> Seq<Column> {
        seq![
            Column { name: "height", kind: Kind::Scaled { divisor: 1, unit: Unit::Metre } },
            Column { name: "quality", kind: Kind::Code },
            Column { name: "determination", kind: Kind::Code },
            Column { name: "cavok", kind: Kind::Code },
        ]
    }

    /// The columns of the group's segment, in order.
    pub fn layout() -> (r: Vec<Column>)
        ensures
            r@ == Self::columns(),
    {
        let r = vec![
            Column { name: "height", kind: Kind::Scaled { divisor: 1, unit: Unit::Metre } },
            Column { name: "quality", kind: Kind::Code },
            Column { name: "determination", kind: Kind::Code },
            Column { name: "cavok", kind: Kind::Code },
        ];
        assert(r@ =~= Self::columns());
        r
    }

    /// The group's fields, in the order of its columns.
    pub open spec fn fields(&self) -> Seq<FieldView> {
        seq![
            FieldView::Scaled(quantity_view(self.height)),
            FieldView::Code(self.quality@),
            FieldView::Code(self.determination@),
            FieldView::Code(self.cavok@),
        ]
    }

    /// Decodes the group's segment `raw`.
    pub fn decode(raw: &str) -> (r: Result<Ceiling, GroupFault>)
        ensures
            match r {
                Ok(group) => decoded_group(Self::columns(), raw@) == Ok::<Seq<FieldView>, GroupFault>(
                    group.fields(),
                ),
                Err(fault) => decoded_group(Self::columns(), raw@) == Err::<
                    Seq<FieldView>,
                    GroupFault,
                >(fault),
            },
    {
        let layout = Self::layout();
        match decode_group(&layout, raw) {
            Err(fault) => Err(fault),
            Ok(fields) => {
                let mut fields = fields;
                let ghost all = fields@;
                proof {
                    assert(Self::columns().len() == 4);
                    let decoded = crate::group::field_views(all);
                    assert(decoded_prefix(Self::columns(), columns(raw@), 4) == Ok::<
                        Seq<FieldView>,
                        GroupFault,
                    >(decoded));
                    lemma_decoded_prefix_fields(Self::columns(), columns(raw@), 4);
                    assert(decoded[0] == all[0]@);
                    assert(decoded[1] == all[1]@);
                    assert(decoded[2] == all[2]@);
                    assert(decoded[3] == all[3]@);
                }
                assert(all[3]@ is Code);
                let cavok = take_code(&mut fields);
                assert(all[2]@ is Code);
                let determination = take_code(&mut fields);
                assert(all[1]@ is Code);
                let quality = take_code(&mut fields);
                assert(all[0]@ is Scaled);
                let height = take_scaled(&mut fields);
                let group = Ceiling { height, quality, determination, cavok };
                proof {
                    assert(crate::group::field_views(all) =~= group.fields());
                }
                Ok(group)
            },
        }
    }

    /// Encodes the group: one member for each column, in order.
    pub fn encode(&self) -> (r: Vec<Member>)
        ensures
            member_views(r@) == encoded_members(Self::columns(), self.fields()),
    {
        let r = vec![
            Member { name: "height".to_owned(), item: encode_quantity(&self.height) },
            Member { name: "quality".to_owned(), item: encode_code(&self.quality) },
            Member { name: "determination".to_owned(), item: encode_code(&self.determination) },
            Member { name: "cavok".to_owned(), item: encode_code(&self.cavok) },
        ];
        assert(member_views(r@) =~= encoded_members(Self::columns(), self.fields()));
        r
    }
}

/// The horizontal distance at which an object can be seen.
#[derive(Clone, Debug, PartialEq)]
pub struct Visibility {
    /// The distance.
    pub distance: Option<RecordValue<Rational>>,
    /// The quality-control code of the distance.
    pub quality: String,
    /// The code that tells whether the distance varies.
    pub variability: String,
    /// The quality-control code of the variability.
    pub variability_quality: String,
}

impl Visibility {
    /// The columns of the group's segment, in order.
    pub open spec fn columns() -> Seq<Column> {
        seq![
            Column { name: "distance", kind: Kind::Scaled { divisor: 1, unit: Unit::Metre } },
            Column { name: "quality", kind: Kind::Code },
            Column { name: "variability", kind: Kind::Code },
            Column { name: "variability_quality", kind: Kind::Code },
        ]
    }

    /// The columns of the group's segment, in order.
    pub fn layout() -> (r: Vec<Column>)
        ensures
            r@ == Self::columns(),
    {
        let r = vec![
            Column { name: "distance", kind: Kind::Scaled { divisor: 1, unit: Unit::Metre } },
            Column { name: "quality", kind: Kind::Code },
            Column { name: "variability", kind: Kind::Code },
            Column { name: "variability_quality", kind: Kind::Code },
        ];
        assert(r@ =~= Self::columns());
        r
    }

    /// The group's fields, in the order of its columns.
    pub open spec fn fields(&self) -> Seq<FieldView> {
        seq![
            FieldView::Scaled(quantity_view(self.distance)),
            FieldView::Code(self.quality@),
            FieldView::Code(self.variability@),
            FieldView::Code(self.variability_quality@),
        ]
    }

    /// Decodes the group's segment `raw`.
    pub fn decode(raw: &str) -> (r: Result<Visibility, GroupFault>)
        ensures
            match r {
                Ok(group) => decoded_group(Self::columns(), raw@) == Ok::<Seq<FieldView>, GroupFault>(
                    group.fields(),
                ),
                Err(fault) => decoded_group(Self::columns(), raw@) == Err::<
                    Seq<FieldView>,
                    GroupFault,
                >(fault),
            },
    {
        let layout = Self::layout();
        match decode_group(&layout, raw) {
            Err(fault) => Err(fault),
            Ok(fields) => {
                let mut fields = fields;
                let ghost all = fields@;
                proof {
                    assert(Self::columns().len() == 4);
                    let decoded = crate::group::field_views(all);
                    assert(decoded_prefix(Self::columns(), columns(raw@), 4) == Ok::<
                        Seq<FieldView>,
                        GroupFault,
                    >(decoded));
                    lemma_decoded_prefix_fields(Self::columns(), columns(raw@), 4);
                    assert(decoded[0] == all[0]@);
                    assert(decoded[1] == all[1]@);
                    assert(decoded[2] == all[2]@);
                    assert(decoded[3] == all[3]@);
                }
                assert(all[3]@ is Code);
                let variability_quality = take_code(&mut fields);
                assert(all[2]@ is Code);
                let variability = take_code(&mut fields);
                assert(all[1]@ is Code);
                let quality = take_code(&mut fields);
                assert(all[0]@ is Scaled);
                let distance = take_scaled(&mut fields);
                let group = Visibility { distance, quality, variability, variability_quality };
                proof {
                    assert(crate::group::field_views(all) =~= group.fields());
                }
                Ok(group)
            },
        }
    }

    /// Encodes the group: one member for each column, in order.
    pub fn encode(&self) -> (r: Vec<Member>)
        ensures
            member_views(r@) == encoded_members(Self::columns(), self.fields()),
    {
        let r = vec![
            Member { name: "distance".to_owned(), item: encode_quantity(&self.distance) },
            Member { name: "quality".to_owned(), item: encode_code(&self.quality) },
            Member { name: "variability".to_owned(), item: encode_code(&self.variability) },
            Member { name: "variability_quality".to_owned(), item: encode_code(&self.variability_quality) },
        ];
        assert(member_views(r@) =~= encoded_members(Self::columns(), self.fields()));
        r
    }
}

/// The temperature of the air.
#[derive(Clone, Debug, PartialEq)]
pub struct Temperature {
    /// The temperature.
    pub value: Option<RecordValue<Rational>>,
    /// The quality-control code of the temperature.
    pub quality: String,
}

impl Temperature {
    /// The columns of the group's segment, in order.
    pub open spec fn columns() -> Seq<Column> {
        seq![
            Column { name: "value", kind: Kind::Scaled { divisor: 10, unit: Unit::Celsius } },
            Column { name: "quality", kind: Kind::Code },
        ]
    }

    /// The columns of the group's segment, in order.
    pub fn layout() -> (r: Vec<Column>)
        ensures
            r@ == Self::columns(),
    {
        let r = vec![
            Column { name: "value", kind: Kind::Scaled { divisor: 10, unit: Unit::Celsius } },
            Column { name: "quality", kind: Kind::Code },
        ];
        assert(r@ =~= Self::columns());
        r
    }

    /// The group's fields, in the order of its columns.
    pub open spec fn fields(&self) -> Seq<FieldView> {
        seq![
            FieldView::Scaled(quantity_view(self.value)),
            FieldView::Code(self.quality@),
        ]
    }

    /// Decodes the group's segment `raw`.
    pub fn decode(raw: &str) -> (r: Result<Temperature, GroupFault>)
        ensures
            match r {
                Ok(group) => decoded_group(Self::columns(), raw@) == Ok::<Seq<FieldView>, GroupFault>(
                    group.fields(),
                ),
                Err(fault) => decoded_group(Self::columns(), raw@) == Err::<
                    Seq<FieldView>,
                    GroupFault,
                >(fault),
            },
    {
        let layout = Self::layout();
        match decode_group(&layout, raw) {
            Err(fault) => Err(fault),
            Ok(fields) => {
                let mut fields = fields;
                let ghost all = fields@;
                proof {
                    assert(Self::columns().len() == 2);
                    let decoded = crate::group::field_views(all);
                    assert(decoded_prefix(Self::columns(), columns(raw@), 2) == Ok::<
                        Seq<FieldView>,
                        GroupFault,
                    >(decoded));
                    lemma_decoded_prefix_fields(Self::columns(), columns(raw@), 2);
                    assert(decoded[0] == all[0]@);
                    assert(decoded[1] == all[1]@);
                }
                assert(all[1]@ is Code);
                let quality = take_code(&mut fields);
                assert(all[0]@ is Scaled);
                let value = take_scaled(&mut fields);
                let group = Temperature { value, quality };
                proof {
                    assert(crate::group::field_views(all) =~= group.fields());
                }
                Ok(group)
            },
        }
    }

    /// Encodes the group: one member for each column, in order.
    pub fn encode(&self) -> (r: Vec<Member>)
        ensures
            member_views(r@) == encoded_members(Self::columns(), self.fields()),
    {
        let r = vec![
            Member { name: "value".to_owned(), item: encode_quantity(&self.value) },
            Member { name: "quality".to_owned(), item: encode_code(&self.quality) },
        ];
        assert(member_views(r@) =~= encoded_members(Self::columns(), self.fields()));
        r
    }
}

/// The air pressure, reduced to mean sea level.
#[derive(Clone, Debug, PartialEq)]
pub struct SeaLevelPressure {
    /// The pressure.
    pub value: Option<RecordValue<Rational>>,
    /// The quality-control code of the pressure.
    pub quality: String,
}

impl SeaLevelPressure {
    /// The columns of the group's segment, in order.
    pub open spec fn columns() -> Seq<Column> {
        seq![
            Column { name: "value", kind: Kind::Scaled { divisor: 10, unit: Unit::Hectopascal } },
            Column { name: "quality", kind: Kind::Code },
        ]
    }

    /// The columns of the group's segment, in order.
    pub fn layout() -> (r: Vec<Column>)
        ensures
            r@ == Self::columns(),
    {
        let r = vec![
            Column { name: "value", kind: Kind::Scaled { divisor: 10, unit: Unit::Hectopascal } },
            Column { name: "quality", kind: Kind::Code },
        ];
        assert(r@ =~= Self::columns());
        r
    }

    /// The group's fields, in the order of its columns.
    pub open spec fn fields(&self) -> Seq<FieldView> {
        seq![
            FieldView::Scaled(quantity_view(self.value)),
            FieldView::Code(self.quality@),
        ]
    }

    /// Decodes the group's segment `raw`.
    pub fn decode(raw: &str) -> (r: Result<SeaLevelPressure, GroupFault>)
        ensures
            match r {
                Ok(group) => decoded_group(Self::columns(), raw@) == Ok::<Seq<FieldView>, GroupFault>(
                    group.fields(),
                ),
                Err(fault) => decoded_group(Self::columns(), raw@) == Err::<
                    Seq<FieldView>,
                    GroupFault,
                >(fault),
            },
    {
        let layout = Self::layout();
        match decode_group(&layout, raw) {
            Err(fault) => Err(fault),
            Ok(fields) => {
                let mut fields = fields;
                let ghost all = fields@;
                proof {
                    assert(Self::columns().len() == 2);
                    let decoded = crate::group::field_views(all);
                    assert(decoded_prefix(Self::columns(), columns(raw@), 2) == Ok::<
                        Seq<FieldView>,
                        GroupFault,
                    >(decoded));
                    lemma_decoded_prefix_fields(Self::columns(), columns(raw@), 2);
                    assert(decoded[0] == all[0]@);
                    assert(decoded[1] == all[1]@);
                }
                assert(all[1]@ is Code);
                let quality = take_code(&mut fields);
                assert(all[0]@ is Scaled);
                let value = take_scaled(&mut fields);
                let group = SeaLevelPressure { value, quality };
                proof {
                    assert(crate::group::field_views(all) =~= group.fields());
                }
                Ok(group)
            },
        }
    }

    /// Encodes the group: one member for each column, in order.
    pub fn encode(&self) -> (r: Vec<Member>)
        ensures
            member_views(r@) == encoded_members(Self::columns(), self.fields()),
    {
        let r = vec![
            Member { name: "value".to_owned(), item: encode_quantity(&self.value) },
            Member { name: "quality".to_owned(), item: encode_code(&self.quality) },
        ];
        assert(member_views(r@) =~= encoded_members(Self::columns(), self.fields()));
        r
    }
}

} // verus!
