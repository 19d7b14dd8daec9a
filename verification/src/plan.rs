//! The per-field plan: which operations the builder gets for one field,
//! decided from the field's kind and its resolved `each` directive.
//!
//! The decision table:
//! - a malformed directive emits its diagnostic in place of any operation;
//! - a resolved directive on a list field whose name equals the field name
//!   yields only the single-element appender;
//! - a resolved directive on a list field with a different name yields both
//!   the whole-list setter and the appender;
//! - a resolved directive on a non-list field is rejected with a
//!   diagnostic, a deliberate tightening of an otherwise undefined case;
//! - no directive yields the whole-list setter for a list field, and the
//!   wrapping value setter for every other field.

use vstd::prelude::*;
use vstd::string::*;
use crate::ir::{Field, FieldV};
use crate::classify::{classify, spec_kind, Kind, KindV};
use crate::resolve::{each_err_text, resolve_each, spec_each};

verus! {

/// The message of the directive-on-a-non-list-field diagnostic.
pub open spec fn non_list_each_text() -> Seq<char> {
    "`each` requires a list-typed field"@
}

/// Mathematical view of a field plan.
pub enum PlanV {
    Invalid { message: Seq<char> },
    AppenderOnly { appender: Seq<char>, elem: Seq<char> },
    SetterAndAppender { ty: Seq<char>, appender: Seq<char>, elem: Seq<char> },
    ListSetter { ty: Seq<char> },
    ValueSetter { inner: Seq<char> },
}

/// The operations generated for one field.
pub enum FieldPlan {
    /// A diagnostic stands in place of any operation for this field.
    Invalid { message: String },
    /// Only the single-element appender, under the directive's name.
    AppenderOnly { appender: String, elem: String },
    /// The whole-list setter and the renamed single-element appender.
    SetterAndAppender { ty: String, appender: String, elem: String },
    /// The whole-list setter alone.
    ListSetter { ty: String },
    /// The wrapping value setter, taking the optional-unwrapped inner type.
    ValueSetter { inner: String },
}

impl View for FieldPlan {
    type V = PlanV;

    open spec fn view(&self) -> PlanV {
        match self {
            FieldPlan::Invalid { message } => PlanV::Invalid { message: message@ },
            FieldPlan::AppenderOnly { appender, elem } => PlanV::AppenderOnly {
                appender: appender@,
                elem: elem@,
            },
            FieldPlan::SetterAndAppender { ty, appender, elem } => PlanV::SetterAndAppender {
                ty: ty@,
                appender: appender@,
                elem: elem@,
            },
            FieldPlan::ListSetter { ty } => PlanV::ListSetter { ty: ty@ },
            FieldPlan::ValueSetter { inner } => PlanV::ValueSetter { inner: inner@ },
        }
    }
}

/// What `plan_field` returns, over views: the decision table applied to
/// the field's kind and its resolved directive.
pub open spec fn spec_plan(f: FieldV) -> PlanV {
    match spec_each(f) {
        Some(Err(m)) => PlanV::Invalid { message: m },
        Some(Ok(n)) => match spec_kind(f.ty) {
            KindV::List { elem } => if n == f.name {
                PlanV::AppenderOnly { appender: n, elem }
            } else {
                PlanV::SetterAndAppender { ty: f.ty.text, appender: n, elem }
            },
            _ => PlanV::Invalid { message: non_list_each_text() },
        },
        None => match spec_kind(f.ty) {
            KindV::List { elem: _ } => PlanV::ListSetter { ty: f.ty.text },
            KindV::Optional { inner } => PlanV::ValueSetter { inner },
            KindV::Required { inner } => PlanV::ValueSetter { inner },
        },
    }
}

/// Decide which operations one field gets, per the decision table.
pub fn plan_field(f: &Field) -> (p: FieldPlan)
    ensures
        p@ == spec_plan(f@),
{
    let each = resolve_each(f);
    let k = classify(&f.ty);
    match each {
        Some(Err(d)) => FieldPlan::Invalid { message: d.message },
        Some(Ok(n)) => match k {
            Kind::List { elem } => {
                if n == f.name {
                    FieldPlan::AppenderOnly { appender: n, elem }
                } else {
                    FieldPlan::SetterAndAppender { ty: f.ty.text.clone(), appender: n, elem }
                }
            },
            _ => FieldPlan::Invalid {
                message: String::from_str("`each` requires a list-typed field"),
            },
        },
        None => match k {
            Kind::List { elem: _ } => FieldPlan::ListSetter { ty: f.ty.text.clone() },
            Kind::Optional { inner } => FieldPlan::ValueSetter { inner },
            Kind::Required { inner } => FieldPlan::ValueSetter { inner },
        },
    }
}

} // verus!
