//! The synthesizers: they turn one record declaration into the emitted
//! fragment, a serialized piece of source text holding the builder type,
//! its operations and the factory entry point.
//!
//! Every emitted piece is specified exactly: a spec function gives the
//! fragment's character sequence, and each exec renderer is proved to
//! produce it. The fragment concatenates, in order, the builder struct,
//! the builder's impl (per-field operations, then `build`) and the
//! record's factory impl. Shape errors replace the fragment with a
//! diagnostic invocation.

use vstd::prelude::*;
use vstd::string::*;
use vstd::seq_lib::lemma_concat_associative;
use crate::ir::{Decl, DeclV, Field, FieldV, Record, RecordV};
use crate::classify::{classify, spec_kind, Kind, KindV};
use crate::plan::{plan_field, spec_plan, FieldPlan, PlanV};

verus! {

/// The concatenation of a sequence of lines, in order.
pub open spec fn block_text(lines: Seq<Seq<char>>) -> Seq<char>
    decreases lines.len(),
{
    if lines.len() == 0 {
        Seq::empty()
    } else {
        block_text(lines.drop_last()) + lines.last()
    }
}

/// Extending a prefix of a block by one line appends that line's text.
pub proof fn lemma_block_take_step(lines: Seq<Seq<char>>, i: int)
    requires
        0 <= i < lines.len(),
    ensures
        block_text(lines.take(i + 1)) == block_text(lines.take(i)) + lines[i],
{
    let t = lines.take(i + 1);
    assert(t.drop_last() =~= lines.take(i));
    assert(t.last() == lines[i]);
}

/// A block's text distributes over concatenation of its lines.
pub proof fn lemma_block_concat(a: Seq<Seq<char>>, b: Seq<Seq<char>>)
    ensures
        block_text(a + b) == block_text(a) + block_text(b),
    decreases b.len(),
{
    if b.len() == 0 {
        assert(a + b =~= a);
        assert(block_text(a) + block_text(b) =~= block_text(a));
    } else {
        lemma_block_concat(a, b.drop_last());
        assert((a + b).drop_last() =~= a + b.drop_last());
        assert((a + b).last() == b.last());
        lemma_concat_associative(block_text(a), block_text(b.drop_last()), b.last());
    }
}

/// The visibility qualifier followed by a space, or nothing when private.
pub open spec fn vis_part(v: Seq<char>) -> Seq<char> {
    if v.len() == 0 {
        Seq::empty()
    } else {
        v + " "@
    }
}

/// One storage-slot line of the builder struct: a list field keeps its own
/// list type, every other field is stored as an optional of its inner type.
pub open spec fn slot_line_text(f: FieldV) -> Seq<char> {
    match spec_kind(f.ty) {
        KindV::List { elem: _ } => f.name + ": "@ + f.ty.text + ",\n"@,
        KindV::Optional { inner } => f.name + ": std::option::Option<"@ + inner + ">,\n"@,
        KindV::Required { inner } => f.name + ": std::option::Option<"@ + inner + ">,\n"@,
    }
}

/// The wrapping value setter: stores the inner value as present.
pub open spec fn value_setter_text(n: Seq<char>, t: Seq<char>) -> Seq<char> {
    "pub fn "@ + n + "(&mut self, "@ + n + ": "@ + t + ") -> &mut Self { self."@ + n
        + " = std::option::Option::Some("@ + n + "); self }\n"@
}

/// The whole-list setter: assigns the list as given.
pub open spec fn list_setter_text(n: Seq<char>, t: Seq<char>) -> Seq<char> {
    "pub fn "@ + n + "(&mut self, "@ + n + ": "@ + t + ") -> &mut Self { self."@ + n + " = "@ + n
        + "; self }\n"@
}

/// The single-element appender: pushes one element onto the field's list.
pub open spec fn appender_text(fname: Seq<char>, a: Seq<char>, e: Seq<char>) -> Seq<char> {
    "pub fn "@ + a + "(&mut self, "@ + a + ": "@ + e + ") -> &mut Self { self."@ + fname
        + ".push("@ + a + "); self }\n"@
}

/// A compile-time diagnostic invocation carrying the message.
pub open spec fn diag_text(m: Seq<char>) -> Seq<char> {
    "::core::compile_error! { r#\""@ + m + "\"# }\n"@
}

/// The operations emitted for one field, per its plan.
pub open spec fn field_ops_text(f: FieldV) -> Seq<char> {
    match spec_plan(f) {
        PlanV::Invalid { message } => diag_text(message),
        PlanV::AppenderOnly { appender, elem } => appender_text(f.name, appender, elem),
        PlanV::SetterAndAppender { ty, appender, elem } => list_setter_text(f.name, ty)
            + appender_text(f.name, appender, elem),
        PlanV::ListSetter { ty } => list_setter_text(f.name, ty),
        PlanV::ValueSetter { inner } => value_setter_text(f.name, inner),
    }
}

/// The `build` precondition check of one field: present only for a
/// required field, whose unset storage fails with a message naming it.
pub open spec fn check_line_text(f: FieldV) -> Seq<char> {
    match spec_kind(f.ty) {
        KindV::Required { inner: _ } => "if self."@ + f.name
            + ".is_none() { return Err(\"Required field '"@ + f.name
            + "' is missing\".into()); }\n"@,
        _ => Seq::empty(),
    }
}

/// One field initializer of the built record: a required field unwraps its
/// checked storage, every other field is copied as stored.
pub open spec fn init_line_text(f: FieldV) -> Seq<char> {
    match spec_kind(f.ty) {
        KindV::Required { inner: _ } => f.name + ": self."@ + f.name + ".clone().unwrap(),\n"@,
        _ => f.name + ": self."@ + f.name + ".clone(),\n"@,
    }
}

/// One field initializer of the factory's fresh builder: a list field
/// starts empty, every other field starts unset.
pub open spec fn default_line_text(f: FieldV) -> Seq<char> {
    match spec_kind(f.ty) {
        KindV::List { elem: _ } => f.name + ": Vec::new(),\n"@,
        _ => f.name + ": None,\n"@,
    }
}

pub open spec fn slot_lines(fs: Seq<FieldV>) -> Seq<Seq<char>> {
    fs.map_values(|f: FieldV| slot_line_text(f))
}

pub open spec fn ops_lines(fs: Seq<FieldV>) -> Seq<Seq<char>> {
    fs.map_values(|f: FieldV| field_ops_text(f))
}

pub open spec fn check_lines(fs: Seq<FieldV>) -> Seq<Seq<char>> {
    fs.map_values(|f: FieldV| check_line_text(f))
}

pub open spec fn init_lines(fs: Seq<FieldV>) -> Seq<Seq<char>> {
    fs.map_values(|f: FieldV| init_line_text(f))
}

pub open spec fn default_lines(fs: Seq<FieldV>) -> Seq<Seq<char>> {
    fs.map_values(|f: FieldV| default_line_text(f))
}

/// The emitted builder struct declaration.
pub open spec fn builder_struct_text(r: RecordV) -> Seq<char> {
    vis_part(r.vis) + "struct "@ + r.name + "Builder {\n"@ + block_text(slot_lines(r.fields))
        + "}\n"@
}

/// The emitted `build` operation: the required-field checks, then the
/// record assembled from the builder's storage.
pub open spec fn build_fn_text(r: RecordV) -> Seq<char> {
    "pub fn build(&mut self) -> std::result::Result<"@ + r.name
        + ", std::boxed::Box<dyn std::error::Error>> {\n"@ + block_text(check_lines(r.fields))
        + "Ok("@ + r.name + " {\n"@ + block_text(init_lines(r.fields)) + "})\n}\n"@
}

/// The emitted builder impl: the per-field operations, then `build`.
pub open spec fn builder_impl_text(r: RecordV) -> Seq<char> {
    "impl "@ + r.name + "Builder {\n"@ + block_text(ops_lines(r.fields)) + build_fn_text(r)
        + "}\n"@
}

/// The emitted factory impl on the record: a fresh, zeroed builder.
pub open spec fn struct_impl_text(r: RecordV) -> Seq<char> {
    "impl "@ + r.name + " {\npub fn builder() -> "@ + r.name + "Builder {\n"@ + r.name
        + "Builder {\n"@ + block_text(default_lines(r.fields)) + "}\n}\n}\n"@
}

/// The whole emitted fragment for one declaration: the three synthesized
/// declarations in order, or the shape diagnostic.
pub open spec fn derive_text(d: DeclV) -> Seq<char> {
    match d {
        DeclV::Record(r) => builder_struct_text(r) + builder_impl_text(r) + struct_impl_text(r),
        DeclV::NotStruct => diag_text("expects struct"@),
        DeclV::UnnamedFields => diag_text("expects named fields"@),
    }
}

fn slot_line(f: &Field) -> (r: String)
    ensures
        r@ == slot_line_text(f@),
{
    let k = classify(&f.ty);
    match k {
        Kind::List { elem: _ } => {
            let mut o = f.name.clone();
            o.append(": ");
            o.append(f.ty.text.as_str());
            o.append(",\n");
            o
        },
        Kind::Optional { inner } => {
            let mut o = f.name.clone();
            o.append(": std::option::Option<");
            o.append(inner.as_str());
            o.append(">,\n");
            o
        },
        Kind::Required { inner } => {
            let mut o = f.name.clone();
            o.append(": std::option::Option<");
            o.append(inner.as_str());
            o.append(">,\n");
            o
        },
    }
}

fn value_setter_line(n: &String, t: &String) -> (r: String)
    ensures
        r@ == value_setter_text(n@, t@),
{
    let mut o = String::from_str("pub fn ");
    o.append(n.as_str());
    o.append("(&mut self, ");
    o.append(n.as_str());
    o.append(": ");
    o.append(t.as_str());
    o.append(") -> &mut Self { self.");
    o.append(n.as_str());
    o.append(" = std::option::Option::Some(");
    o.append(n.as_str());
    o.append("); self }\n");
    o
}

fn list_setter_line(n: &String, t: &String) -> (r: String)
    ensures
        r@ == list_setter_text(n@, t@),
{
    let mut o = String::from_str("pub fn ");
    o.append(n.as_str());
    o.append("(&mut self, ");
    o.append(n.as_str());
    o.append(": ");
    o.append(t.as_str());
    o.append(") -> &mut Self { self.");
    o.append(n.as_str());
    o.append(" = ");
    o.append(n.as_str());
    o.append("; self }\n");
    o
}

fn appender_line(fname: &String, a: &String, e: &String) -> (r: String)
    ensures
        r@ == appender_text(fname@, a@, e@),
{
    let mut o = String::from_str("pub fn ");
    o.append(a.as_str());
    o.append("(&mut self, ");
    o.append(a.as_str());
    o.append(": ");
    o.append(e.as_str());
    o.append(") -> &mut Self { self.");
    o.append(fname.as_str());
    o.append(".push(");
    o.append(a.as_str());
    o.append("); self }\n");
    o
}

fn diag_for(m: &String) -> (r: String)
    ensures
        r@ == diag_text(m@),
{
    let mut o = String::from_str("::core::compile_error! { r#\"");
    o.append(m.as_str());
    o.append("\"# }\n");
    o
}

fn field_ops(f: &Field) -> (r: String)
    ensures
        r@ == field_ops_text(f@),
{
    let p = plan_field(f);
    match p {
        FieldPlan::Invalid { message } => diag_for(&message),
        FieldPlan::AppenderOnly { appender, elem } => appender_line(&f.name, &appender, &elem),
        FieldPlan::SetterAndAppender { ty, appender, elem } => {
            let mut o = list_setter_line(&f.name, &ty);
            let a = appender_line(&f.name, &appender, &elem);
            o.append(a.as_str());
            o
        },
        FieldPlan::ListSetter { ty } => list_setter_line(&f.name, &ty),
        FieldPlan::ValueSetter { inner } => value_setter_line(&f.name, &inner),
    }
}

fn check_line(f: &Field) -> (r: String)
    ensures
        r@ == check_line_text(f@),
{
    let k = classify(&f.ty);
    match k {
        Kind::Required { inner: _ } => {
            let mut o = String::from_str("if self.");
            o.append(f.name.as_str());
            o.append(".is_none() { return Err(\"Required field '");
            o.append(f.name.as_str());
            o.append("' is missing\".into()); }\n");
            o
        },
        _ => String::new(),
    }
}

fn init_line(f: &Field) -> (r: String)
    ensures
        r@ == init_line_text(f@),
{
    let k = classify(&f.ty);
    let mut o = f.name.clone();
    o.append(": self.");
    o.append(f.name.as_str());
    match k {
        Kind::Required { inner: _ } => {
            o.append(".clone().unwrap(),\n");
        },
        _ => {
            o.append(".clone(),\n");
        },
    }
    o
}

fn default_line(f: &Field) -> (r: String)
    ensures
        r@ == default_line_text(f@),
{
    let k = classify(&f.ty);
    let mut o = f.name.clone();
    match k {
        Kind::List { elem: _ } => {
            o.append(": Vec::new(),\n");
        },
        _ => {
            o.append(": None,\n");
        },
    }
    o
}

/// Emit the builder struct: the record's visibility, the suffixed name and
/// one storage slot per field, in field order.
#[verifier::loop_isolation(false)]
pub fn build_builder_struct(r: &Record) -> (out: String)
    ensures
        out@ == builder_struct_text(r@),
{
    let mut out: String;
    if r.vis.unicode_len() > 0 {
        out = r.vis.clone();
        out.append(" ");
    } else {
        out = String::new();
    }
    assert(out@ == vis_part(r@.vis));
    out.append("struct ");
    out.append(r.name.as_str());
    out.append("Builder {\n");
    let ghost lines = slot_lines(r@.fields);
    let ghost pre = out@;
    proof {
        assert(lines.take(0) =~= Seq::<Seq<char>>::empty());
        assert(pre + block_text(lines.take(0)) =~= pre);
    }
    let n = r.fields.len();
    let mut i: usize = 0;
    while i < n
        invariant
            i <= n,
            out@ == pre + block_text(lines.take(i as int)),
        decreases n - i,
    {
        let line = slot_line(&r.fields[i]);
        out.append(line.as_str());
        proof {
            assert(r@.fields[i as int] == r.fields@[i as int]@);
            assert(lines[i as int] == slot_line_text(r@.fields[i as int]));
            lemma_block_take_step(lines, i as int);
            lemma_concat_associative(pre, block_text(lines.take(i as int)), lines[i as int]);
        }
        i += 1;
    }
    proof {
        assert(lines.take(n as int) =~= lines);
    }
    out.append("}\n");
    out
}

#[verifier::loop_isolation(false)]
fn build_fn_str(r: &Record) -> (out: String)
    ensures
        out@ == build_fn_text(r@),
{
    let mut out = String::from_str("pub fn build(&mut self) -> std::result::Result<");
    out.append(r.name.as_str());
    out.append(", std::boxed::Box<dyn std::error::Error>> {\n");
    let n = r.fields.len();
    let ghost cl = check_lines(r@.fields);
    let ghost pre1 = out@;
    proof {
        assert(cl.take(0) =~= Seq::<Seq<char>>::empty());
        assert(pre1 + block_text(cl.take(0)) =~= pre1);
    }
    let mut i: usize = 0;
    while i < n
        invariant
            i <= n,
            out@ == pre1 + block_text(cl.take(i as int)),
        decreases n - i,
    {
        let line = check_line(&r.fields[i]);
        out.append(line.as_str());
        proof {
            assert(r@.fields[i as int] == r.fields@[i as int]@);
            assert(cl[i as int] == check_line_text(r@.fields[i as int]));
            lemma_block_take_step(cl, i as int);
            lemma_concat_associative(pre1, block_text(cl.take(i as int)), cl[i as int]);
        }
        i += 1;
    }
    proof {
        assert(cl.take(n as int) =~= cl);
    }
    out.append("Ok(");
    out.append(r.name.as_str());
    out.append(" {\n");
    let ghost il = init_lines(r@.fields);
    let ghost pre2 = out@;
    proof {
        assert(il.take(0) =~= Seq::<Seq<char>>::empty());
        assert(pre2 + block_text(il.take(0)) =~= pre2);
    }
    let mut j: usize = 0;
    while j < n
        invariant
            j <= n,
            out@ == pre2 + block_text(il.take(j as int)),
        decreases n - j,
    {
        let line = init_line(&r.fields[j]);
        out.append(line.as_str());
        proof {
            assert(r@.fields[j as int] == r.fields@[j as int]@);
            assert(il[j as int] == init_line_text(r@.fields[j as int]));
            lemma_block_take_step(il, j as int);
            lemma_concat_associative(pre2, block_text(il.take(j as int)), il[j as int]);
        }
        j += 1;
    }
    proof {
        assert(il.take(n as int) =~= il);
    }
    out.append("})\n}\n");
    out
}

/// Emit the builder's impl: per field its setter, appender or diagnostic
/// per the decision table, then the validating `build` operation.
#[verifier::loop_isolation(false)]
pub fn build_builder_impl(r: &Record) -> (out: String)
    ensures
        out@ == builder_impl_text(r@),
{
    let mut out = String::from_str("impl ");
    out.append(r.name.as_str());
    out.append("Builder {\n");
    let n = r.fields.len();
    let ghost ol = ops_lines(r@.fields);
    let ghost pre = out@;
    proof {
        assert(ol.take(0) =~= Seq::<Seq<char>>::empty());
        assert(pre + block_text(ol.take(0)) =~= pre);
    }
    let mut i: usize = 0;
    while i < n
        invariant
            i <= n,
            out@ == pre + block_text(ol.take(i as int)),
        decreases n - i,
    {
        let line = field_ops(&r.fields[i]);
        out.append(line.as_str());
        proof {
            assert(r@.fields[i as int] == r.fields@[i as int]@);
            assert(ol[i as int] == field_ops_text(r@.fields[i as int]));
            lemma_block_take_step(ol, i as int);
            lemma_concat_associative(pre, block_text(ol.take(i as int)), ol[i as int]);
        }
        i += 1;
    }
    proof {
        assert(ol.take(n as int) =~= ol);
    }
    let bf = build_fn_str(r);
    out.append(bf.as_str());
    out.append("}\n");
    out
}

/// Emit the factory impl on the record: `builder()` returns a fresh
/// builder with list fields empty and every other field unset.
#[verifier::loop_isolation(false)]
pub fn build_struct_impl(r: &Record) -> (out: String)
    ensures
        out@ == struct_impl_text(r@),
{
    let mut out = String::from_str("impl ");
    out.append(r.name.as_str());
    out.append(" {\npub fn builder() -> ");
    out.append(r.name.as_str());
    out.append("Builder {\n");
    out.append(r.name.as_str());
    out.append("Builder {\n");
    let n = r.fields.len();
    let ghost dl = default_lines(r@.fields);
    let ghost pre = out@;
    proof {
        assert(dl.take(0) =~= Seq::<Seq<char>>::empty());
        assert(pre + block_text(dl.take(0)) =~= pre);
    }
    let mut i: usize = 0;
    while i < n
        invariant
            i <= n,
            out@ == pre + block_text(dl.take(i as int)),
        decreases n - i,
    {
        let line = default_line(&r.fields[i]);
        out.append(line.as_str());
        proof {
            assert(r@.fields[i as int] == r.fields@[i as int]@);
            assert(dl[i as int] == default_line_text(r@.fields[i as int]));
            lemma_block_take_step(dl, i as int);
            lemma_concat_associative(pre, block_text(dl.take(i as int)), dl[i as int]);
        }
        i += 1;
    }
    proof {
        assert(dl.take(n as int) =~= dl);
    }
    out.append("}\n}\n}\n");
    out
}

fn diag_fragment(msg: &str) -> (r: String)
    ensures
        r@ == diag_text(msg@),
{
    let mut o = String::from_str("::core::compile_error! { r#\"");
    o.append(msg);
    o.append("\"# }\n");
    o
}

/// The generator's entry point: one declaration in, one emitted fragment
/// out. A record yields the builder struct, the builder impl and the
/// factory impl, concatenated in that order; a rejected shape yields the
/// diagnostic that names it.
pub fn derive(input: &Decl) -> (out: String)
    ensures
        out@ == derive_text(input@),
{
    match input {
        Decl::Record(r) => {
            let mut out = build_builder_struct(r);
            let bi = build_builder_impl(r);
            out.append(bi.as_str());
            let si = build_struct_impl(r);
            out.append(si.as_str());
            out
        },
        Decl::NotStruct => diag_fragment("expects struct"),
        Decl::UnnamedFields => diag_fragment("expects named fields"),
    }
}

} // verus!
