//! A semantic model of the generated builder's runtime behavior.
//!
//! The generator only emits source text; the meaning of that text is fixed
//! here so it can be stated and proved. A builder state is one storage
//! slot per field: unset, a present value, or a list of items. The
//! operations mirror the emitted ones — the wrapping value setter, the
//! whole-list setter, the single-element appender, the factory's fresh
//! state and the validating `build` — each with an exact contract, so the
//! guarantees the emitted code is meant to give (missing required fields
//! fail `build`, optional fields never block it, lists default to empty,
//! last write wins, appends accumulate) are theorems about this model.

use vstd::prelude::*;
use vstd::string::*;
use crate::ir::Record;
use crate::classify::{classify, spec_kind, Kind, KindV};

verus! {

/// A field value carried through the model: an integer or a text.
#[derive(Debug)]
pub enum Value {
    Int(i64),
    Text(String),
}

/// Mathematical view of a model value.
pub enum ValueV {
    Int(int),
    Text(Seq<char>),
}

impl View for Value {
    type V = ValueV;

    open spec fn view(&self) -> ValueV {
        match self {
            Value::Int(i) => ValueV::Int(*i as int),
            Value::Text(s) => ValueV::Text(s@),
        }
    }
}

impl Clone for Value {
    fn clone(&self) -> (r: Self)
        ensures
            r@ == self@,
    {
        match self {
            Value::Int(i) => Value::Int(*i),
            Value::Text(s) => Value::Text(s.clone()),
        }
    }
}

/// One storage slot of the builder.
pub enum Slot {
    /// No value stored yet.
    Unset,
    /// A present value, stored by a value setter.
    Present(Value),
    /// A list field's items.
    Items(Vec<Value>),
}

/// Mathematical view of a slot.
pub enum SlotV {
    Unset,
    Present(ValueV),
    Items(Seq<ValueV>),
}

impl View for Slot {
    type V = SlotV;

    open spec fn view(&self) -> SlotV {
        match self {
            Slot::Unset => SlotV::Unset,
            Slot::Present(v) => SlotV::Present(v@),
            Slot::Items(vs) => SlotV::Items(vs@.map_values(|v: Value| v@)),
        }
    }
}

/// The semantic kind of one field, as the classifier decides it.
#[derive(Clone, Copy)]
pub enum KindTag {
    Required,
    Optional,
    List,
}

/// Mathematical view of a schema field.
pub struct SchemaFieldV {
    pub name: Seq<char>,
    pub kind: KindTag,
}

/// One field of the record, reduced to what `build` needs: name and kind.
pub struct SchemaField {
    pub name: String,
    pub kind: KindTag,
}

impl View for SchemaField {
    type V = SchemaFieldV;

    open spec fn view(&self) -> SchemaFieldV {
        SchemaFieldV { name: self.name@, kind: self.kind }
    }
}

/// Mathematical view of a schema.
pub struct SchemaV {
    pub fields: Seq<SchemaFieldV>,
}

/// The record's shape: its fields' names and kinds, in order.
pub struct Schema {
    pub fields: Vec<SchemaField>,
}

impl View for Schema {
    type V = SchemaV;

    open spec fn view(&self) -> SchemaV {
        SchemaV { fields: self.fields@.map_values(|f: SchemaField| f@) }
    }
}

/// What the generated `build` yields per field: the plain value of a
/// required field, the optional of an optional field, a list's items.
#[derive(Debug)]
pub enum Built {
    One(Value),
    Maybe(Option<Value>),
    Many(Vec<Value>),
}

/// Mathematical view of a built field.
pub enum BuiltV {
    One(ValueV),
    Maybe(Option<ValueV>),
    Many(Seq<ValueV>),
}

impl View for Built {
    type V = BuiltV;

    open spec fn view(&self) -> BuiltV {
        match self {
            Built::One(v) => BuiltV::One(v@),
            Built::Maybe(o) => BuiltV::Maybe(
                match o {
                    Some(v) => Some(v@),
                    None => None,
                },
            ),
            Built::Many(vs) => BuiltV::Many(vs@.map_values(|v: Value| v@)),
        }
    }
}

/// The views of a sequence of values.
pub open spec fn vals(s: Seq<Value>) -> Seq<ValueV> {
    s.map_values(|v: Value| v@)
}

/// The views of a sequence of built fields.
pub open spec fn built_views_of(s: Seq<Built>) -> Seq<BuiltV> {
    s.map_values(|b: Built| b@)
}

/// The slot a fresh builder starts with: an empty list for a list field,
/// unset for every other field.
pub open spec fn init_slot(k: KindTag) -> SlotV {
    match k {
        KindTag::List => SlotV::Items(Seq::empty()),
        _ => SlotV::Unset,
    }
}

/// The fresh builder state the factory returns.
pub open spec fn init_slots(s: SchemaV) -> Seq<SlotV> {
    Seq::new(s.fields.len(), |i: int| init_slot(s.fields[i].kind))
}

/// Well-formedness of a builder state against its schema: one slot per
/// field, and exactly the list fields hold item lists.
pub open spec fn wf(s: SchemaV, slots: Seq<SlotV>) -> bool {
    &&& slots.len() == s.fields.len()
    &&& forall|i: int|
        0 <= i < slots.len() ==> ((s.fields[i].kind is List) <==> (slots[i] is Items))
}

/// The condition `build` checks: every required field's slot holds a value.
pub open spec fn required_set(s: SchemaV, slots: Seq<SlotV>) -> bool {
    forall|i: int|
        0 <= i < slots.len() && s.fields[i].kind is Required ==> slots[i] is Present
}

/// The first field index at or after `i` that is required and unset, or
/// the length when there is none: `build` reports this field and no other.
pub open spec fn first_missing_from(s: SchemaV, slots: Seq<SlotV>, i: int) -> int
    decreases slots.len() - i,
{
    if i < 0 || i >= slots.len() {
        slots.len() as int
    } else if s.fields[i].kind is Required && !(slots[i] is Present) {
        i
    } else {
        first_missing_from(s, slots, i + 1)
    }
}

/// The items of a list slot.
pub open spec fn items_of(sl: SlotV) -> Seq<ValueV> {
    match sl {
        SlotV::Items(v) => v,
        _ => Seq::empty(),
    }
}

/// What `build` yields for one field: a list's items as they stand, an
/// optional field's value if present, a required field's checked value.
pub open spec fn built_of(k: KindTag, sl: SlotV) -> BuiltV {
    match k {
        KindTag::List => BuiltV::Many(items_of(sl)),
        KindTag::Optional => BuiltV::Maybe(
            match sl {
                SlotV::Present(v) => Some(v),
                _ => None,
            },
        ),
        KindTag::Required => BuiltV::One(
            match sl {
                SlotV::Present(v) => v,
                _ => ValueV::Int(0),
            },
        ),
    }
}

/// The record `build` assembles on success.
pub open spec fn build_views(s: SchemaV, slots: Seq<SlotV>) -> Seq<BuiltV> {
    Seq::new(slots.len(), |i: int| built_of(s.fields[i].kind, slots[i]))
}

/// The error message naming a missing required field.
pub open spec fn missing_msg(n: Seq<char>) -> Seq<char> {
    "Required field '"@ + n + "' is missing"@
}

/// Below the first missing field every required field is set, and the
/// field it names is required and unset, so the search from the start
/// lands exactly there.
pub proof fn lemma_first_missing_from(s: SchemaV, slots: Seq<SlotV>, k: int, i: int)
    requires
        0 <= k <= i < slots.len(),
        forall|j: int| k <= j < i ==> !(s.fields[j].kind is Required) || slots[j] is Present,
        s.fields[i].kind is Required,
        !(slots[i] is Present),
    ensures
        first_missing_from(s, slots, k) == i,
    decreases i - k,
{
    if k < i {
        lemma_first_missing_from(s, slots, k + 1, i);
    }
}

fn clone_values(v: &Vec<Value>) -> (r: Vec<Value>)
    ensures
        vals(r@) == vals(v@),
{
    let mut r: Vec<Value> = Vec::new();
    let n = v.len();
    let mut i: usize = 0;
    while i < n
        invariant
            i <= n,
            n == v@.len(),
            r@.len() == i,
            forall|j: int| 0 <= j < i ==> r@[j]@ == v@[j]@,
        decreases n - i,
    {
        r.push(v[i].clone());
        i += 1;
    }
    proof {
        assert(vals(r@) =~= vals(v@));
    }
    r
}

/// The model's kind of a classified type.
pub open spec fn tag_of(k: KindV) -> KindTag {
    match k {
        KindV::Required { inner: _ } => KindTag::Required,
        KindV::Optional { inner: _ } => KindTag::Optional,
        KindV::List { elem: _ } => KindTag::List,
    }
}

/// The schema of a record: each field's name with its classified kind,
/// in field order — the shape the model's `build` validates against.
#[verifier::loop_isolation(false)]
pub fn schema_of(r: &Record) -> (s: Schema)
    ensures
        s@.fields.len() == r@.fields.len(),
        forall|i: int|
            0 <= i < r@.fields.len() ==> s@.fields[i].name == r@.fields[i].name
                && s@.fields[i].kind == tag_of(spec_kind(r@.fields[i].ty)),
{
    let n = r.fields.len();
    let mut fields: Vec<SchemaField> = Vec::new();
    let mut i: usize = 0;
    while i < n
        invariant
            i <= n,
            fields@.len() == i,
            forall|j: int|
                0 <= j < i ==> fields@[j]@.name == r@.fields[j].name && fields@[j]@.kind == tag_of(
                    spec_kind(r@.fields[j].ty),
                ),
        decreases n - i,
    {
        let k = classify(&r.fields[i].ty);
        let tag = match k {
            Kind::Required { inner: _ } => KindTag::Required,
            Kind::Optional { inner: _ } => KindTag::Optional,
            Kind::List { elem: _ } => KindTag::List,
        };
        fields.push(SchemaField { name: r.fields[i].name.clone(), kind: tag });
        proof {
            assert(r@.fields[i as int] == r.fields@[i as int]@);
        }
        i += 1;
    }
    Schema { fields }
}

impl Schema {
    /// The factory entry point of the model: a fresh builder state with
    /// list fields empty and every other field unset.
    #[verifier::loop_isolation(false)]
    pub fn builder(&self) -> (b: BuilderState)
        ensures
            b@ == init_slots(self@),
    {
        let n = self.fields.len();
        let mut slots: Vec<Slot> = Vec::new();
        let mut i: usize = 0;
        while i < n
            invariant
                i <= n,
                slots@.len() == i,
                forall|j: int| 0 <= j < i ==> slots@[j]@ == init_slot(self@.fields[j].kind),
            decreases n - i,
        {
            match self.fields[i].kind {
                KindTag::List => {
                    slots.push(Slot::Items(Vec::new()));
                    proof {
                        assert(vals(Seq::<Value>::empty()) =~= Seq::<ValueV>::empty());
                    }
                },
                _ => {
                    slots.push(Slot::Unset);
                },
            }
            proof {
                assert(self@.fields[i as int] == self.fields@[i as int]@);
            }
            i += 1;
        }
        let b = BuilderState { slots };
        proof {
            assert(b@ =~= init_slots(self@));
        }
        b
    }
}

/// The builder's state: one storage slot per field, in field order.
pub struct BuilderState {
    pub slots: Vec<Slot>,
}

impl View for BuilderState {
    type V = Seq<SlotV>;

    open spec fn view(&self) -> Seq<SlotV> {
        self.slots@.map_values(|s: Slot| s@)
    }
}

impl BuilderState {
    /// The wrapping value setter of a non-list field: stores the value as
    /// present, replacing whatever the slot held.
    pub fn set_value(&mut self, i: usize, v: Value)
        requires
            i < old(self)@.len(),
        ensures
            final(self)@ == old(self)@.update(i as int, SlotV::Present(v@)),
    {
        let _ = self.slots.remove(i);
        self.slots.insert(i, Slot::Present(v));
        proof {
            assert(self@ =~= old(self)@.update(i as int, SlotV::Present(v@)));
        }
    }

    /// The whole-list setter of a list field: assigns the given items,
    /// replacing whatever the slot held.
    pub fn set_list(&mut self, i: usize, items: Vec<Value>)
        requires
            i < old(self)@.len(),
        ensures
            final(self)@ == old(self)@.update(i as int, SlotV::Items(vals(items@))),
    {
        let _ = self.slots.remove(i);
        self.slots.insert(i, Slot::Items(items));
        proof {
            assert(self@ =~= old(self)@.update(i as int, SlotV::Items(vals(items@))));
        }
    }

    /// The single-element appender of a list field: pushes one element
    /// onto the slot's items, never discarding what is there.
    pub fn append(&mut self, i: usize, v: Value)
        requires
            i < old(self)@.len(),
            old(self)@[i as int] is Items,
        ensures
            final(self)@ == old(self)@.update(
                i as int,
                SlotV::Items(items_of(old(self)@[i as int]).push(v@)),
            ),
    {
        let slot = self.slots.remove(i);
        match slot {
            Slot::Items(mut items) => {
                items.push(v);
                self.slots.insert(i, Slot::Items(items));
                proof {
                    assert(vals(items@) =~= items_of(old(self)@[i as int]).push(v@));
                    assert(self@ =~= old(self)@.update(
                        i as int,
                        SlotV::Items(items_of(old(self)@[i as int]).push(v@)),
                    ));
                }
            },
            _ => {
                proof {
                    assert(false);
                }
                self.slots.insert(i, Slot::Unset);
            },
        }
    }

    /// The validating assembly: fails naming the first required field
    /// whose slot is unset, and otherwise yields every field's value —
    /// lists as stored, optionals as present-or-absent, required values
    /// unwrapped.
    #[verifier::loop_isolation(false)]
    pub fn build(&self, s: &Schema) -> (r: Result<Vec<Built>, String>)
        requires
            wf(s@, self@),
        ensures
            (r is Ok) == required_set(s@, self@),
            r matches Ok(out) ==> built_views_of(out@) == build_views(s@, self@),
            r matches Err(m) ==> 0 <= first_missing_from(s@, self@, 0) < self@.len() && m@
                == missing_msg(s@.fields[first_missing_from(s@, self@, 0)].name),
    {
        let n = self.slots.len();
        let mut i: usize = 0;
        while i < n
            invariant
                i <= n,
                forall|j: int|
                    0 <= j < i ==> !(s@.fields[j].kind is Required) || self@[j] is Present,
            decreases n - i,
        {
            proof {
                assert(s@.fields[i as int] == s.fields@[i as int]@);
            }
            let req = match s.fields[i].kind {
                KindTag::Required => true,
                _ => false,
            };
            let pres = match &self.slots[i] {
                Slot::Present(_) => true,
                _ => false,
            };
            if req && !pres {
                let mut m = String::from_str("Required field '");
                m.append(s.fields[i].name.as_str());
                m.append("' is missing");
                proof {
                    lemma_first_missing_from(s@, self@, 0, i as int);
                }
                return Err(m);
            }
            i += 1;
        }
        let mut out: Vec<Built> = Vec::new();
        let mut k: usize = 0;
        while k < n
            invariant
                k <= n,
                out@.len() == k,
                forall|j: int| 0 <= j < k ==> out@[j]@ == built_of(s@.fields[j].kind, self@[j]),
            decreases n - k,
        {
            proof {
                assert(s@.fields[k as int] == s.fields@[k as int]@);
                assert(self@[k as int] == self.slots@[k as int]@);
            }
            match s.fields[k].kind {
                KindTag::List => {
                    let items = match &self.slots[k] {
                        Slot::Items(v) => clone_values(v),
                        _ => {
                            proof {
                                assert(false);
                            }
                            Vec::new()
                        },
                    };
                    out.push(Built::Many(items));
                },
                KindTag::Optional => {
                    let v = match &self.slots[k] {
                        Slot::Present(x) => Some(x.clone()),
                        _ => None,
                    };
                    out.push(Built::Maybe(v));
                },
                KindTag::Required => {
                    let v = match &self.slots[k] {
                        Slot::Present(x) => x.clone(),
                        _ => {
                            proof {
                                assert(false);
                            }
                            Value::Int(0)
                        },
                    };
                    out.push(Built::One(v));
                },
            }
            k += 1;
        }
        proof {
            assert(built_views_of(out@) =~= build_views(s@, self@));
        }
        Ok(out)
    }
}

} // verus!
