//! What the emitted builder does, as a model that runs.
//!
//! A builder holds one slot per field. Whatever the field's declared type, its
//! slot is an option over a payload: for a plain type `T` the payload is a `T`;
//! for an option type `Option<U>` the slot is the field itself. The model has
//! one payload type for all fields, of any kind: a record whose fields differ
//! in type takes an enum with a variant for each. The three
//! helpers that the emitted text invokes decide by the kind of the type how a
//! slot is typed, filled and read.

use vstd::prelude::*;
use vstd::string::*;
use crate::model::{BuilderPlan, PlanModel};
use crate::plan::{is_option_type, names_option};

verus! {

/// A value of a field's declared type.
#[derive(Debug, PartialEq, Eq)]
pub enum FieldValue<U> {
    /// A value of a plain type.
    Plain(U),
    /// A value of an option type.
    Wrapped(Option<U>),
}

/// The type of the slot for a declared type: the type itself where it names the
/// option wrapper, else the type wrapped in one.
pub open spec fn slot_type(ty: Seq<char>) -> Seq<char> {
    if names_option(ty) {
        ty
    } else {
        "Option<"@ + ty + ">"@
    }
}

/// Whether a value is of the kind of a field: wrapped for an option type, plain
/// for any other.
pub open spec fn fits<U>(is_option: bool, value: FieldValue<U>) -> bool {
    is_option <==> value is Wrapped
}

/// What a setter stores: an option value as it is, a plain value as present.
pub open spec fn stored<U>(value: FieldValue<U>) -> Option<U> {
    match value {
        FieldValue::Plain(u) => Some(u),
        FieldValue::Wrapped(o) => o,
    }
}

/// What the finalizer reads out of a slot: for an option type the slot itself,
/// for a plain type the slot's value or, where it is empty, the type's default.
pub open spec fn settled<U>(is_option: bool, slot: Option<U>, default: U) -> FieldValue<U> {
    if is_option {
        FieldValue::Wrapped(slot)
    } else {
        FieldValue::Plain(
            match slot {
                Some(u) => u,
                None => default,
            },
        )
    }
}

/// The default of a field's declared type: absent for an option type, the
/// payload's default for a plain one.
pub open spec fn default_value<U>(is_option: bool, default: U) -> FieldValue<U> {
    if is_option {
        FieldValue::Wrapped(None)
    } else {
        FieldValue::Plain(default)
    }
}

/// The slots of a default-constructed builder of `n` fields: all empty.
pub open spec fn empty_slots<U>(n: nat) -> Seq<Option<U>> {
    Seq::new(n, |i: int| None)
}

/// The slots after the setter of field `index` has run on `value`.
pub open spec fn after_set<U>(slots: Seq<Option<U>>, index: int, value: FieldValue<U>) -> Seq<
    Option<U>,
> {
    slots.update(index, stored(value))
}

/// The kinds of a plan's fields, in their order: whether each is of an option type.
pub open spec fn kinds_of(p: PlanModel) -> Seq<bool> {
    Seq::new(p.fields.len(), |i: int| p.fields[i].is_option)
}

/// The record that the finalizer returns, field by field.
pub open spec fn built<U>(kinds: Seq<bool>, slots: Seq<Option<U>>, defaults: Seq<U>) -> Seq<
    FieldValue<U>,
> {
    Seq::new(kinds.len(), |i: int| settled(kinds[i], slots[i], defaults[i]))
}

/// The type of a builder field for a declared type, as `make_option` gives it.
pub fn make_option(ty: &str) -> (out: String)
    ensures
        out@ == slot_type(ty@),
{
    if is_option_type(ty) {
        ty.to_owned()
    } else {
        let mut out = String::new();
        out.append("Option<");
        out.append(ty);
        out.append(">");
        assert(out@ =~= slot_type(ty@));
        out
    }
}

/// What is stored for a value, as `value_as_option` gives it.
pub fn value_as_option<U>(value: FieldValue<U>) -> (slot: Option<U>)
    ensures
        slot == stored(value),
{
    match value {
        FieldValue::Plain(u) => Some(u),
        FieldValue::Wrapped(o) => o,
    }
}

/// What is read out of a slot, as `value_maybe_as_option` gives it.
pub fn value_maybe_as_option<U>(is_option: bool, slot: Option<U>, default: U) -> (value:
    FieldValue<U>)
    ensures
        value == settled(is_option, slot, default),
{
    if is_option {
        FieldValue::Wrapped(slot)
    } else {
        match slot {
            Some(u) => FieldValue::Plain(u),
            None => FieldValue::Plain(default),
        }
    }
}

/// The state of a builder: one slot per field of its plan.
pub struct Staging<U> {
    pub slots: Vec<Option<U>>,
}

impl<U> View for Staging<U> {
    type V = Seq<Option<U>>;

    open spec fn view(&self) -> Seq<Option<U>> {
        self.slots@
    }
}

impl<U> Staging<U> {
    /// The default-constructed builder of a plan: every slot is empty.
    pub fn empty(plan: &BuilderPlan) -> (s: Self)
        ensures
            s@ == empty_slots::<U>(plan@.fields.len()),
    {
        let mut slots: Vec<Option<U>> = Vec::new();
        let mut i: usize = 0;
        while i < plan.fields.len()
            invariant
                i <= plan.fields.len(),
                slots@ == empty_slots::<U>(i as nat),
            decreases plan.fields.len() - i,
        {
            slots.push(None);
            i += 1;
            assert(slots@ =~= empty_slots::<U>(i as nat));
        }
        assert(slots@ =~= empty_slots::<U>(plan@.fields.len()));
        Staging { slots }
    }

    /// The setter of field `index`: stores the value and hands the builder back.
    /// The other slots stay as they are.
    pub fn set(self, index: usize, value: FieldValue<U>) -> (s: Self)
        requires
            index < self@.len(),
        ensures
            s@ == after_set(self@, index as int, value),
    {
        let mut slots = self.slots;
        slots.set(index, value_as_option(value));
        Staging { slots }
    }

    /// The finalizer: the value of every field, in the order of the plan. An
    /// empty slot of a plain type gives that field's default.
    pub fn build(self, plan: &BuilderPlan, defaults: Vec<U>) -> (record: Vec<FieldValue<U>>)
        requires
            self@.len() == plan@.fields.len(),
            defaults@.len() == plan@.fields.len(),
        ensures
            record@ == built(kinds_of(plan@), self@, defaults@),
    {
        let ghost all_slots = self@;
        let ghost all_defaults = defaults@;
        let mut slots = self.slots;
        let mut rest = defaults;
        let mut record: Vec<FieldValue<U>> = Vec::new();
        let mut i: usize = plan.fields.len();
        while i > 0
            invariant
                i <= plan.fields.len(),
                all_slots.len() == plan@.fields.len(),
                all_defaults.len() == plan@.fields.len(),
                slots@ == all_slots.take(i as int),
                rest@ == all_defaults.take(i as int),
                record@.len() == plan.fields.len() - i,
                forall|k: int|
                    0 <= k < record@.len() ==> #[trigger] record@[k] == settled(
                        plan@.fields[i + k].is_option,
                        all_slots[i + k],
                        all_defaults[i + k],
                    ),
            decreases i,
        {
            i -= 1;
            let ghost earlier = record@;
            match (slots.pop(), rest.pop()) {
                (Some(slot), Some(default)) => {
                    let value = value_maybe_as_option(plan.fields[i].is_option, slot, default);
                    record.insert(0, value);
                    assert(forall|k: int|
                        1 <= k < record@.len() ==> #[trigger] record@[k] == earlier[k - 1]);
                },
                _ => {
                    assert(false);
                },
            }
            assert(slots@ =~= all_slots.take(i as int));
            assert(rest@ =~= all_defaults.take(i as int));
        }
        assert(record@ =~= built(kinds_of(plan@), all_slots, all_defaults));
        record
    }
}

/// Every slot of a default-constructed builder is empty. For a field of an
/// option type the empty slot is the default of the field's own type.
pub proof fn lemma_default_slots_empty<U>(n: nat, i: int, default: U)
    requires
        0 <= i < n,
    ensures
        empty_slots::<U>(n).len() == n,
        empty_slots::<U>(n)[i] is None,
        FieldValue::Wrapped(empty_slots::<U>(n)[i]) == default_value(true, default),
{
}

/// A default-constructed builder that is built at once gives every field the
/// default of its declared type.
pub proof fn lemma_empty_builds_defaults<U>(kinds: Seq<bool>, defaults: Seq<U>, i: int)
    requires
        0 <= i < kinds.len(),
    ensures
        built(kinds, empty_slots::<U>(kinds.len()), defaults)[i] == default_value(
            kinds[i],
            defaults[i],
        ),
{
}

/// A value of the field's kind that is set on a default-constructed builder is
/// the field's value in the record that is built.
pub proof fn lemma_set_then_build<U>(
    kinds: Seq<bool>,
    defaults: Seq<U>,
    i: int,
    value: FieldValue<U>,
)
    requires
        0 <= i < kinds.len(),
        fits(kinds[i], value),
    ensures
        built(kinds, after_set(empty_slots::<U>(kinds.len()), i, value), defaults)[i] == value,
{
}

/// Of two values set on one field, the second is the field's value in the
/// record that is built, whatever the builder held before.
pub proof fn lemma_last_write_wins<U>(
    kinds: Seq<bool>,
    slots: Seq<Option<U>>,
    defaults: Seq<U>,
    i: int,
    first: FieldValue<U>,
    second: FieldValue<U>,
)
    requires
        0 <= i < kinds.len(),
        slots.len() == kinds.len(),
        fits(kinds[i], second),
    ensures
        after_set(after_set(slots, i, first), i, second) == after_set(slots, i, second),
        built(kinds, after_set(after_set(slots, i, first), i, second), defaults)[i] == second,
{
    assert(after_set(after_set(slots, i, first), i, second) =~= after_set(slots, i, second));
}

/// Setters of two different fields commute: either order leaves the same
/// builder, and so the same record.
pub proof fn lemma_setters_commute<U>(
    kinds: Seq<bool>,
    slots: Seq<Option<U>>,
    defaults: Seq<U>,
    i: int,
    j: int,
    a: FieldValue<U>,
    b: FieldValue<U>,
)
    requires
        0 <= i < slots.len(),
        0 <= j < slots.len(),
        i != j,
    ensures
        after_set(after_set(slots, i, a), j, b) == after_set(after_set(slots, j, b), i, a),
        built(kinds, after_set(after_set(slots, i, a), j, b), defaults) == built(
            kinds,
            after_set(after_set(slots, j, b), i, a),
            defaults,
        ),
{
    assert(after_set(after_set(slots, i, a), j, b) =~= after_set(after_set(slots, j, b), i, a));
}

/// A setter leaves the value of every other field in the built record as it was.
pub proof fn lemma_set_leaves_others<U>(
    kinds: Seq<bool>,
    slots: Seq<Option<U>>,
    defaults: Seq<U>,
    i: int,
    j: int,
    value: FieldValue<U>,
)
    requires
        0 <= i < kinds.len(),
        0 <= j < kinds.len(),
        slots.len() == kinds.len(),
        i != j,
    ensures
        built(kinds, after_set(slots, i, value), defaults)[j] == built(kinds, slots, defaults)[j],
{
}

/// A field of an option type is built as it was set: absent when set to absent,
/// present with the same payload when set to present; no default comes in.
pub proof fn lemma_option_passes_through<U>(
    kinds: Seq<bool>,
    slots: Seq<Option<U>>,
    defaults: Seq<U>,
    i: int,
    value: Option<U>,
)
    requires
        0 <= i < kinds.len(),
        slots.len() == kinds.len(),
        kinds[i],
    ensures
        built(kinds, after_set(slots, i, FieldValue::Wrapped(value)), defaults)[i]
            == FieldValue::Wrapped(value),
{
}

} // verus!
