//! What holds of every decoding and encoding.

use vstd::prelude::*;
use crate::category::{Category, CATEGORY_COUNT};
use crate::distinct::law_names_are_distinct;
use crate::error::Failure;
use crate::group::decoded_group;
use crate::layout::Kind;
use crate::names::{code_of, lookup, Id, Slot, Tagged};
use crate::record::{
    decoded_occurrences, decoded_optional, decoded_record, decoded_slot, encoded,
    encoded_attributes, slot_entry, slot_of, GroupView, Policy, RecordView, ATTRIBUTE_COUNT,
};
use crate::record_value::{scaled, Measured};
use crate::scalar::{Quantity, Scalar};
use crate::text::{all_filler, is_numeric, FILLER};
use crate::value::nullable;

verus! {

/// The sentinel of a field decodes to an absent value and never to an error,
/// whatever the type of the field's scalar and whatever the sentinel is.
pub proof fn law_sentinel_is_absent<T: Scalar>(sentinel: Seq<char>)
    ensures
        nullable::<T>(sentinel, sentinel) == Ok::<Option<T::V>, crate::error::ParseError>(None),
{
}

/// Text of any length that holds nothing but the filler digit decodes to a
/// missing value, whatever the scalar's type, the unit and the divisor are.
pub proof fn law_filler_is_missing<T: Quantity>(s: Seq<char>, unit: Seq<char>, divisor: T::V)
    requires
        forall|i: int| 0 <= i < s.len() ==> s[i] == FILLER,
    ensures
        scaled::<T>(s, unit, divisor) == Ok::<Option<Measured<T::V>>, crate::error::ParseError>(
            None,
        ),
{
}

/// Text without any numeric character decodes to a missing value.
pub proof fn law_text_without_numbers_is_missing<T: Quantity>(
    s: Seq<char>,
    unit: Seq<char>,
    divisor: T::V,
)
    requires
        forall|i: int| 0 <= i < s.len() ==> !is_numeric(s[i]),
    ensures
        scaled::<T>(s, unit, divisor) == Ok::<Option<Measured<T::V>>, crate::error::ParseError>(
            None,
        ),
{
}

/// Text that holds a numeric character other than the filler digit, and that is
/// a magnitude which the divisor divides, decodes to a present value: the
/// magnitude divided by the divisor, in the declared unit.
pub proof fn law_significant_is_present<T: Quantity>(
    s: Seq<char>,
    unit: Seq<char>,
    divisor: T::V,
    at: int,
)
    requires
        0 <= at < s.len(),
        is_numeric(s[at]),
        s[at] != FILLER,
        T::parsed(s) is Some,
        T::quotient(T::parsed(s)->Some_0, divisor) is Some,
    ensures
        scaled::<T>(s, unit, divisor) == Ok::<Option<Measured<T::V>>, crate::error::ParseError>(
            Some(Measured { value: T::quotient(T::parsed(s)->Some_0, divisor)->Some_0, unit }),
        ),
{
    assert(!all_filler(s)) by {
        if all_filler(s) {
            assert(!crate::text::is_significant(s[at]));
        }
    }
}

/// The divisor of every scaled column of every category is positive: no table
/// asks for a division by zero.
pub proof fn law_divisors_are_positive(category: Category, i: int)
    requires
        0 <= i < category.columns().len(),
    ensures
        category.columns()[i].kind matches Kind::Scaled { divisor, .. } ==> divisor >= 1,
{
}

/// Each group among the first `k` slots of a category is the decoding of a
/// slot, one of those `k`, that the input fills.
pub proof fn lemma_occurrences_are_filled(
    input: Seq<Tagged>,
    category: Category,
    k: int,
    policy: Policy,
)
    requires
        0 <= k,
        decoded_occurrences(input, category, k, policy) is Ok,
    ensures
        forall|i: int|
            0 <= i < decoded_occurrences(input, category, k, policy)->Ok_0.len() ==> {
                let group = #[trigger] decoded_occurrences(input, category, k, policy)->Ok_0[i];
                &&& decoded_slot(input, group.slot, policy) == Ok::<Option<GroupView>, Failure>(
                    Some(group),
                )
                &&& exists|j: int| 0 <= j < k && group.slot == slot_of(category, j)
            },
    decreases k,
{
    if k > 0 {
        lemma_occurrences_are_filled(input, category, k - 1, policy);
        let before = decoded_occurrences(input, category, k - 1, policy)->Ok_0;
        let all = decoded_occurrences(input, category, k, policy)->Ok_0;
        assert forall|i: int| 0 <= i < all.len() implies {
            let group = #[trigger] all[i];
            &&& decoded_slot(input, group.slot, policy) == Ok::<Option<GroupView>, Failure>(Some(group))
            &&& exists|j: int| 0 <= j < k && group.slot == slot_of(category, j)
        } by {
            if i < before.len() {
                assert(all[i] == before[i]);
                let j = choose|j: int| 0 <= j < k - 1 && before[i].slot == slot_of(category, j);
                assert(0 <= j < k && all[i].slot == slot_of(category, j));
            } else {
                assert(all[i].slot == slot_of(category, k - 1));
            }
        }
    }
}

/// Each of the first `k` slots of a category that the input fills with a
/// well-formed segment has its group among the decoded ones.
pub proof fn lemma_filled_occurrence_is_decoded(
    input: Seq<Tagged>,
    category: Category,
    k: int,
    j: int,
    policy: Policy,
)
    requires
        0 <= j < k,
        decoded_occurrences(input, category, k, policy) is Ok,
        lookup(input, code_of(slot_of(category, j).name())) is Some,
        policy == Policy::Omit ==> decoded_group(
            category.columns(),
            lookup(input, code_of(slot_of(category, j).name()))->Some_0,
        ) is Ok,
    ensures
        decoded_slot(input, slot_of(category, j), policy) is Ok,
        decoded_slot(input, slot_of(category, j), policy)->Ok_0 is Some,
        exists|i: int|
            0 <= i < decoded_occurrences(input, category, k, policy)->Ok_0.len() && decoded_occurrences(input, category, k, policy)->Ok_0[i] == decoded_slot(input, slot_of(category, j), policy)->Ok_0->Some_0,
    decreases k,
{
    let all = decoded_occurrences(input, category, k, policy)->Ok_0;
    if j == k - 1 {
        assert(all[all.len() - 1] == decoded_slot(input, slot_of(category, j), policy)->Ok_0->Some_0);
    } else {
        lemma_filled_occurrence_is_decoded(input, category, k - 1, j, policy);
        let before = decoded_occurrences(input, category, k - 1, policy)->Ok_0;
        let i = choose|i: int|
            0 <= i < before.len() && before[i] == decoded_slot(input, slot_of(category, j), policy)->Ok_0->Some_0;
        assert(all[i] == before[i]);
    }
}

/// Each decoded group is the decoding of a slot that exists and that the input
/// fills.
pub proof fn lemma_groups_are_filled(input: Seq<Tagged>, n: int, policy: Policy)
    requires
        0 <= n <= CATEGORY_COUNT,
        decoded_optional(input, n, policy) is Ok,
    ensures
        forall|i: int|
            0 <= i < decoded_optional(input, n, policy)->Ok_0.len() ==> {
                let group = #[trigger] decoded_optional(input, n, policy)->Ok_0[i];
                &&& decoded_slot(input, group.slot, policy) == Ok::<Option<GroupView>, Failure>(
                    Some(group),
                )
                &&& group.slot.valid()
            },
    decreases n,
{
    if n > 0 {
        lemma_groups_are_filled(input, n - 1, policy);
        let category = Category::spec_at((n - 1) as usize);
        let count = category.spec_count() as int;
        lemma_occurrences_are_filled(input, category, count, policy);
        let before = decoded_optional(input, n - 1, policy)->Ok_0;
        let more = decoded_occurrences(input, category, count, policy)->Ok_0;
        let all = decoded_optional(input, n, policy)->Ok_0;
        assert(all == before + more);
        assert forall|i: int| 0 <= i < all.len() implies {
            let group = #[trigger] all[i];
            &&& decoded_slot(input, group.slot, policy) == Ok::<Option<GroupView>, Failure>(Some(group))
            &&& group.slot.valid()
        } by {
            if i < before.len() {
                assert(all[i] == before[i]);
            } else {
                assert(all[i] == more[i - before.len()]);
                let j = choose|j: int|
                    0 <= j < count && more[i - before.len()].slot == slot_of(category, j);
                assert(all[i].slot == slot_of(category, j));
            }
        }
    }
}

/// Each slot that the input fills with a well-formed segment has its group
/// among the decoded ones.
pub proof fn lemma_filled_slot_is_decoded(
    input: Seq<Tagged>,
    n: int,
    ordinal: int,
    j: int,
    policy: Policy,
)
    requires
        0 <= ordinal < n <= CATEGORY_COUNT,
        0 <= j < Category::spec_at(ordinal as usize).spec_count(),
        decoded_optional(input, n, policy) is Ok,
        lookup(input, code_of(slot_of(Category::spec_at(ordinal as usize), j).name())) is Some,
        policy == Policy::Omit ==> decoded_group(
            Category::spec_at(ordinal as usize).columns(),
            lookup(input, code_of(slot_of(Category::spec_at(ordinal as usize), j).name()))->Some_0,
        ) is Ok,
    ensures
        decoded_slot(input, slot_of(Category::spec_at(ordinal as usize), j), policy) is Ok,
        decoded_slot(input, slot_of(Category::spec_at(ordinal as usize), j), policy)->Ok_0 is Some,
        exists|i: int|
            0 <= i < decoded_optional(input, n, policy)->Ok_0.len() && decoded_optional(input, n, policy)->Ok_0[i] == decoded_slot(input, slot_of(Category::spec_at(ordinal as usize), j), policy)->Ok_0->Some_0,
    decreases n,
{
    let slot = slot_of(Category::spec_at(ordinal as usize), j);
    let last = Category::spec_at((n - 1) as usize);
    let before = decoded_optional(input, n - 1, policy)->Ok_0;
    let more = decoded_occurrences(input, last, last.spec_count() as int, policy)->Ok_0;
    let all = decoded_optional(input, n, policy)->Ok_0;
    assert(all == before + more);
    if ordinal == n - 1 {
        lemma_filled_occurrence_is_decoded(input, last, last.spec_count() as int, j, policy);
        let i = choose|i: int|
            0 <= i < more.len() && more[i] == decoded_slot(input, slot, policy)->Ok_0->Some_0;
        assert(all[before.len() + i] == more[i]);
    } else {
        lemma_filled_slot_is_decoded(input, n - 1, ordinal, j, policy);
        let i = choose|i: int|
            0 <= i < before.len() && before[i] == decoded_slot(input, slot, policy)->Ok_0->Some_0;
        assert(all[i] == before[i]);
    }
}

/// Encoding emits no entry for a slot that the record does not hold: an absent
/// slot is left out, and no null stands in its place.
pub proof fn law_absent_slot_has_no_entry(record: RecordView, slot: Slot)
    requires
        forall|i: int| 0 <= i < record.optional.len() ==> record.optional[i].slot != slot,
    ensures
        forall|j: int|
            0 <= j < encoded(record).len() ==> (#[trigger] encoded(record)[j]).id != Id::Slot(
                slot,
            ),
{
    assert forall|j: int| 0 <= j < encoded(record).len() implies (#[trigger] encoded(
        record,
    )[j]).id != Id::Slot(slot) by {
        if j < ATTRIBUTE_COUNT {
            assert(encoded(record)[j] == encoded_attributes(record)[j]);
        } else {
            assert(encoded(record)[j] == slot_entry(record.optional[j - ATTRIBUTE_COUNT]));
        }
    }
}

/// Every entry of an encoded record carries the lower-case name of what it is,
/// and the input code of an entry is that name in upper case.
pub proof fn law_entries_are_named_in_lower_case(record: RecordView, j: int)
    requires
        0 <= j < encoded(record).len(),
    ensures
        encoded(record)[j].name == encoded(record)[j].id.name(),
        encoded(record)[j].id.code() == code_of(encoded(record)[j].name),
{
    if j < ATTRIBUTE_COUNT {
        assert(encoded(record)[j] == encoded_attributes(record)[j]);
    } else {
        assert(encoded(record)[j] == slot_entry(record.optional[j - ATTRIBUTE_COUNT]));
    }
}

/// Where the input has no segment for a slot, the record that it decodes to is
/// encoded without an entry for that slot.
pub proof fn law_unfilled_slot_is_not_encoded(input: Seq<Tagged>, slot: Slot, policy: Policy)
    requires
        decoded_record(input, policy) is Ok,
        lookup(input, code_of(slot.name())) is None,
    ensures
        forall|j: int|
            0 <= j < encoded(decoded_record(input, policy)->Ok_0).len() ==> (#[trigger] encoded(
                decoded_record(input, policy)->Ok_0,
            )[j]).id != Id::Slot(slot),
{
    let record = decoded_record(input, policy)->Ok_0;
    lemma_decoded_groups(input, policy);
    lemma_groups_are_filled(input, CATEGORY_COUNT as int, policy);
    assert forall|i: int| 0 <= i < record.optional.len() implies record.optional[i].slot
        != slot by {
        let group = record.optional[i];
        assert(decoded_slot(input, group.slot, policy) == Ok::<Option<GroupView>, Failure>(Some(group)));
    }
    law_absent_slot_has_no_entry(record, slot);
}

/// What an entry of an encoded record is: one of the attributes, or the slot of
/// one of the record's groups.
pub proof fn lemma_entry_ids(record: RecordView, j: int)
    requires
        0 <= j < encoded(record).len(),
    ensures
        j < ATTRIBUTE_COUNT ==> encoded(record)[j].id is Attribute,
        j >= ATTRIBUTE_COUNT ==> encoded(record)[j].id == Id::Slot(
            record.optional[j - ATTRIBUTE_COUNT].slot,
        ),
        encoded(record).len() == ATTRIBUTE_COUNT + record.optional.len(),
{
    if j < ATTRIBUTE_COUNT {
        assert(encoded(record)[j] == encoded_attributes(record)[j]);
    } else {
        assert(encoded(record)[j] == slot_entry(record.optional[j - ATTRIBUTE_COUNT]));
    }
}

/// The groups of a decoded record are the decoded slots.
pub proof fn lemma_decoded_groups(input: Seq<Tagged>, policy: Policy)
    requires
        decoded_record(input, policy) is Ok,
    ensures
        decoded_optional(input, CATEGORY_COUNT as int, policy) == Ok::<Seq<GroupView>, Failure>(
            decoded_record(input, policy)->Ok_0.optional,
        ),
{
}

/// Where the input has no segment for a slot, the record that it decodes to is
/// encoded without an entry of the slot's name.
pub proof fn law_unfilled_slot_has_no_key(input: Seq<Tagged>, slot: Slot, policy: Policy)
    requires
        decoded_record(input, policy) is Ok,
        slot.valid(),
        lookup(input, code_of(slot.name())) is None,
    ensures
        forall|j: int|
            0 <= j < encoded(decoded_record(input, policy)->Ok_0).len() ==> (#[trigger] encoded(
                decoded_record(input, policy)->Ok_0,
            )[j]).name != slot.name(),
{
    let record = decoded_record(input, policy)->Ok_0;
    lemma_decoded_groups(input, policy);
    lemma_groups_are_filled(input, CATEGORY_COUNT as int, policy);
    law_unfilled_slot_is_not_encoded(input, slot, policy);
    assert forall|j: int| 0 <= j < encoded(record).len() implies (#[trigger] encoded(
        record,
    )[j]).name != slot.name() by {
        let entry = encoded(record)[j];
        law_entries_are_named_in_lower_case(record, j);
        lemma_entry_ids(record, j);
        if j >= ATTRIBUTE_COUNT {
            assert(record.optional[j - ATTRIBUTE_COUNT].slot.valid());
        }
        if entry.name == slot.name() {
            law_names_are_distinct(entry.id, Id::Slot(slot));
        }
    }
}

/// Where the input has a segment for a slot, the record that it decodes to is
/// encoded with an entry for that slot, and the entry holds the decoded segment.
/// Under the policy that omits malformed additional data this holds of the
/// segments that are well formed.
pub proof fn law_filled_slot_is_encoded(input: Seq<Tagged>, ordinal: int, j: int, policy: Policy)
    requires
        decoded_record(input, policy) is Ok,
        0 <= ordinal < CATEGORY_COUNT,
        0 <= j < Category::spec_at(ordinal as usize).spec_count(),
        lookup(input, code_of(slot_of(Category::spec_at(ordinal as usize), j).name())) is Some,
        policy == Policy::Omit ==> decoded_group(
            Category::spec_at(ordinal as usize).columns(),
            lookup(input, code_of(slot_of(Category::spec_at(ordinal as usize), j).name()))->Some_0,
        ) is Ok,
    ensures
        ({
            let slot = slot_of(Category::spec_at(ordinal as usize), j);
            let raw = lookup(input, code_of(slot.name()))->Some_0;
            let fields = decoded_group(slot.category.columns(), raw);
            &&& fields is Ok
            &&& exists|e: int|
                0 <= e < encoded(decoded_record(input, policy)->Ok_0).len() && encoded(
                    decoded_record(input, policy)->Ok_0,
                )[e] == slot_entry(GroupView { slot, fields: fields->Ok_0 })
        }),
{
    let record = decoded_record(input, policy)->Ok_0;
    let slot = slot_of(Category::spec_at(ordinal as usize), j);
    lemma_decoded_groups(input, policy);
    lemma_filled_slot_is_decoded(input, CATEGORY_COUNT as int, ordinal, j, policy);
    let group = decoded_slot(input, slot, policy)->Ok_0->Some_0;
    let i = choose|i: int| 0 <= i < record.optional.len() && record.optional[i] == group;
    assert(encoded(record)[ATTRIBUTE_COUNT + i] == slot_entry(record.optional[i]));
}

/// Decoding and then encoding is a function of the input: two runs on the same
/// input that decode it give the same entries.
pub proof fn law_encoding_is_repeatable(
    input: Seq<Tagged>,
    policy: Policy,
    first: RecordView,
    second: RecordView,
)
    requires
        decoded_record(input, policy) == Ok::<RecordView, Failure>(first),
        decoded_record(input, policy) == Ok::<RecordView, Failure>(second),
    ensures
        encoded(first) == encoded(second),
{
}

} // verus!
