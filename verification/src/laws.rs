//! The guarantees the generated builder gives, proved once and for all.
//!
//! The behavioral laws are stated over the semantic model: `required_set`
//! decides `build`, optional fields never block it, list fields default to
//! empty, a setter's last write wins, an appender only accumulates, and
//! any interleaving of a list field's two operations folds, in call
//! order, over the one shared slot. The interleaving laws speak of
//! `ListOpV`: `Assign` is exactly the effect the whole-list setter's
//! contract gives, `Push` the appender's. The structural laws are stated
//! over the planner and the renderer: a same-named directive leaves only
//! the appender, a renamed one leaves both operations, and a malformed
//! directive turns into a diagnostic without touching what any sibling
//! field gets.

use vstd::prelude::*;
use crate::ir::{AnnV, FieldV};
use crate::classify::spec_kind;
use crate::resolve::{each_err_text, spec_each};
use crate::plan::{spec_plan, PlanV};
use crate::render::{
    block_text, diag_text, field_ops_text, lemma_block_concat, ops_lines,
};
use crate::model::{
    built_of, init_slot, init_slots, items_of, required_set, wf, BuiltV, SchemaV, SlotV, ValueV,
};

verus! {

/// A fresh builder is well formed: exactly the list fields hold item
/// lists, and those start empty while every other slot starts unset.
pub proof fn law_fresh_builder_wf(s: SchemaV)
    ensures
        wf(s, init_slots(s)),
        forall|i: int|
            0 <= i < s.fields.len() && s.fields[i].kind is List ==> init_slots(s)[i]
                == SlotV::Items(Seq::<ValueV>::empty()),
        forall|i: int|
            0 <= i < s.fields.len() && !(s.fields[i].kind is List) ==> init_slots(s)[i]
                == SlotV::Unset,
{
}

/// With only required fields, `build` succeeds exactly when every field's
/// slot was set.
pub proof fn law_required_only_build_succeeds(s: SchemaV, slots: Seq<SlotV>)
    requires
        wf(s, slots),
        forall|i: int| 0 <= i < s.fields.len() ==> s.fields[i].kind is Required,
    ensures
        required_set(s, slots) <==> (forall|i: int| 0 <= i < slots.len() ==> slots[i] is Present),
{
    if required_set(s, slots) {
        assert forall|i: int| 0 <= i < slots.len() implies slots[i] is Present by {
            assert(s.fields[i].kind is Required);
        }
    }
}

/// Omitting one required field makes `build` fail, and when it is the
/// first one missing, `build`'s error names exactly that field.
pub proof fn law_missing_required_field_named(s: SchemaV, slots: Seq<SlotV>, i: int)
    requires
        wf(s, slots),
        0 <= i < slots.len(),
        s.fields[i].kind is Required,
        !(slots[i] is Present),
        forall|j: int| 0 <= j < i ==> !(s.fields[j].kind is Required) || slots[j] is Present,
    ensures
        !required_set(s, slots),
        crate::model::first_missing_from(s, slots, 0) == i,
{
    crate::model::lemma_first_missing_from(s, slots, 0, i);
}

/// An optional field never decides `build`'s success, its unset storage
/// yields the empty optional, and its set storage yields the stored value.
pub proof fn law_optional_never_blocks(s: SchemaV, slots: Seq<SlotV>, i: int, sl: SlotV)
    requires
        0 <= i < slots.len(),
        s.fields[i].kind is Optional,
    ensures
        required_set(s, slots.update(i, sl)) == required_set(s, slots),
        built_of(s.fields[i].kind, SlotV::Unset) == BuiltV::Maybe(None::<ValueV>),
        forall|v: ValueV|
            built_of(s.fields[i].kind, SlotV::Present(v)) == BuiltV::Maybe(Some(v)),
{
    let upd = slots.update(i, sl);
    if required_set(s, slots) {
        assert forall|j: int|
            0 <= j < upd.len() && s.fields[j].kind is Required implies upd[j] is Present by {
            assert(j != i);
            assert(upd[j] == slots[j]);
        }
    }
    if required_set(s, upd) {
        assert forall|j: int|
            0 <= j < slots.len() && s.fields[j].kind is Required implies slots[j] is Present by {
            assert(j != i);
            assert(upd[j] == slots[j]);
        }
    }
}

/// A never-set list field reaches `build` as the empty list.
pub proof fn law_list_unset_yields_empty(s: SchemaV, i: int)
    requires
        0 <= i < s.fields.len(),
        s.fields[i].kind is List,
    ensures
        init_slots(s)[i] == SlotV::Items(Seq::<ValueV>::empty()),
        built_of(s.fields[i].kind, init_slots(s)[i]) == BuiltV::Many(Seq::<ValueV>::empty()),
{
    assert(init_slot(s.fields[i].kind) == SlotV::Items(Seq::<ValueV>::empty()));
}

/// The whole-list setter replaces prior contents: what the slot held
/// before the assignment leaves no trace in the result.
pub proof fn law_list_setter_replaces(
    slots1: Seq<SlotV>,
    slots2: Seq<SlotV>,
    i: int,
    items: Seq<ValueV>,
)
    requires
        0 <= i < slots1.len(),
        slots1.len() == slots2.len(),
        forall|j: int| 0 <= j < slots1.len() && j != i ==> slots1[j] == slots2[j],
    ensures
        slots1.update(i, SlotV::Items(items)) == slots2.update(i, SlotV::Items(items)),
{
    assert(slots1.update(i, SlotV::Items(items)) =~= slots2.update(i, SlotV::Items(items)));
}

/// Setting the same slot twice keeps only the second write, whatever the
/// two stored values are.
pub proof fn law_setter_last_write_wins(slots: Seq<SlotV>, i: int, a: SlotV, b: SlotV)
    requires
        0 <= i < slots.len(),
    ensures
        slots.update(i, a).update(i, b) == slots.update(i, b),
{
    assert(slots.update(i, a).update(i, b) =~= slots.update(i, b));
}

/// One effect on a list field's storage: assign the whole list (the
/// whole-list setter's contract) or push one element (the appender's).
pub enum ListOpV {
    Assign(Seq<ValueV>),
    Push(ValueV),
}

/// The effect of one operation on the list itself.
pub open spec fn apply_list_op(items: Seq<ValueV>, op: ListOpV) -> Seq<ValueV> {
    match op {
        ListOpV::Assign(l) => l,
        ListOpV::Push(v) => items.push(v),
    }
}

/// The effects of a call sequence on the list, in call order.
pub open spec fn apply_list_ops(items: Seq<ValueV>, ops: Seq<ListOpV>) -> Seq<ValueV>
    decreases ops.len(),
{
    if ops.len() == 0 {
        items
    } else {
        apply_list_op(apply_list_ops(items, ops.drop_last()), ops.last())
    }
}

/// The effect of one operation on the whole builder state, at slot `i`.
pub open spec fn apply_slot_op(slots: Seq<SlotV>, i: int, op: ListOpV) -> Seq<SlotV> {
    match op {
        ListOpV::Assign(l) => slots.update(i, SlotV::Items(l)),
        ListOpV::Push(v) => slots.update(i, SlotV::Items(items_of(slots[i]).push(v))),
    }
}

/// The effects of a call sequence on the whole builder state, in order.
pub open spec fn apply_slot_ops(slots: Seq<SlotV>, i: int, ops: Seq<ListOpV>) -> Seq<SlotV>
    decreases ops.len(),
{
    if ops.len() == 0 {
        slots
    } else {
        apply_slot_op(apply_slot_ops(slots, i, ops.drop_last()), i, ops.last())
    }
}

/// Both of a list field's operations mutate the one shared slot:
/// interleaving whole-list assignments and single-element appends in any
/// order leaves the final list equal to folding each call's effect over
/// the list, in call order, and touches no other slot.
pub proof fn law_interleaved_ops_fold(slots: Seq<SlotV>, i: int, ops: Seq<ListOpV>)
    requires
        0 <= i < slots.len(),
        slots[i] is Items,
    ensures
        apply_slot_ops(slots, i, ops) == slots.update(
            i,
            SlotV::Items(apply_list_ops(items_of(slots[i]), ops)),
        ),
    decreases ops.len(),
{
    if ops.len() == 0 {
        assert(slots.update(i, SlotV::Items(items_of(slots[i]))) =~= slots);
    } else {
        law_interleaved_ops_fold(slots, i, ops.drop_last());
        let folded = apply_list_ops(items_of(slots[i]), ops.drop_last());
        let mid = slots.update(i, SlotV::Items(folded));
        match ops.last() {
            ListOpV::Assign(l) => {
                assert(mid.update(i, SlotV::Items(l)) =~= slots.update(i, SlotV::Items(l)));
            },
            ListOpV::Push(v) => {
                assert(items_of(mid[i]) == folded);
                assert(mid.update(i, SlotV::Items(folded.push(v))) =~= slots.update(
                    i,
                    SlotV::Items(folded.push(v)),
                ));
            },
        }
    }
}

/// Appending twice accumulates both elements, in order, and never
/// overwrites: the list grows by exactly the two pushed values.
pub proof fn law_appender_accumulates(items: Seq<ValueV>, a: ValueV, b: ValueV)
    ensures
        apply_list_ops(items, seq![ListOpV::Push(a), ListOpV::Push(b)]) == items.push(a).push(b),
        apply_list_ops(items, seq![ListOpV::Push(a), ListOpV::Push(b)]).len() == items.len() + 2,
{
    let ops = seq![ListOpV::Push(a), ListOpV::Push(b)];
    assert(ops.drop_last() =~= seq![ListOpV::Push(a)]);
    assert(seq![ListOpV::Push(a)].drop_last() =~= Seq::<ListOpV>::empty());
    assert(apply_list_ops(items, Seq::<ListOpV>::empty()) == items);
    assert(apply_list_ops(items, seq![ListOpV::Push(a)]) == items.push(a));
}

/// A directive whose name equals the field name leaves only the appender:
/// no whole-list setter is planned, so none is emitted and a call to one
/// cannot type-check against the generated builder.
pub proof fn law_same_name_appender_only(f: FieldV)
    requires
        spec_kind(f.ty) is List,
        spec_each(f) == Some(Ok::<Seq<char>, Seq<char>>(f.name)),
    ensures
        (spec_plan(f) is AppenderOnly),
        spec_plan(f)->AppenderOnly_appender == f.name,
        !(spec_plan(f) is SetterAndAppender),
        !(spec_plan(f) is ListSetter),
{
}

/// A directive whose name differs from the field name leaves both
/// operations, the setter under the field's name and the appender under
/// the directive's.
pub proof fn law_renamed_appender_both(f: FieldV, n: Seq<char>)
    requires
        spec_kind(f.ty) is List,
        spec_each(f) == Some(Ok::<Seq<char>, Seq<char>>(n)),
        n != f.name,
    ensures
        (spec_plan(f) is SetterAndAppender),
        spec_plan(f)->SetterAndAppender_ty == f.ty.text,
        spec_plan(f)->SetterAndAppender_appender == n,
{
}

/// A malformed directive on one field yields the diagnostic in place of
/// that field's operations and leaves every sibling field's emitted
/// operations exactly as they stand on their own.
pub proof fn law_malformed_keeps_siblings(pre: Seq<FieldV>, bad: FieldV, post: Seq<FieldV>)
    requires
        bad.attrs.len() > 0,
        (bad.attrs[0] matches AnnV::KeyValue { key, value: _ } && key != "each"@),
    ensures
        spec_plan(bad) == (PlanV::Invalid { message: each_err_text() }),
        block_text(ops_lines(pre + seq![bad] + post)) == block_text(ops_lines(pre)) + diag_text(
            each_err_text(),
        ) + block_text(ops_lines(post)),
{
    let single = seq![bad];
    assert(ops_lines(pre + single + post) =~= ops_lines(pre) + ops_lines(single) + ops_lines(
        post,
    ));
    lemma_block_concat(ops_lines(pre) + ops_lines(single), ops_lines(post));
    lemma_block_concat(ops_lines(pre), ops_lines(single));
    assert(ops_lines(single).drop_last() =~= Seq::<Seq<char>>::empty());
    assert(block_text(Seq::<Seq<char>>::empty()) == Seq::<char>::empty());
    assert(ops_lines(single).last() == field_ops_text(bad));
    assert(Seq::<char>::empty() + field_ops_text(bad) =~= field_ops_text(bad));
    assert(block_text(ops_lines(single)) == field_ops_text(bad));
    assert(field_ops_text(bad) == diag_text(each_err_text()));
}

} // verus!
