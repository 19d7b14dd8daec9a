//! The annotation resolver: extracts the `each = "<name>"` directive that
//! renames a list field's single-element appender.
//!
//! Only the field's first attached annotation is examined; any further
//! annotations are ignored. The expected shape is a list-style annotation
//! whose first nested item is a name/value pair with the name `each` and a
//! string-literal value. A pair whose key is present but differs from
//! `each` is a malformed directive and yields a diagnostic; any other shape
//! is leniently read as "no directive".

use vstd::prelude::*;
use vstd::string::*;
use crate::ir::{Ann, AnnV, Diag, Field, FieldV};
use crate::classify::string_is;

verus! {

/// The message of the malformed-directive diagnostic.
pub open spec fn each_err_text() -> Seq<char> {
    "expected `builder(each = \"...\")`"@
}

/// What `resolve_each` returns, over views: no directive, the resolved
/// appender name, or the malformed-directive diagnostic message.
pub open spec fn spec_each(f: FieldV) -> Option<Result<Seq<char>, Seq<char>>> {
    if f.attrs.len() == 0 {
        None
    } else {
        match f.attrs[0] {
            AnnV::KeyValue { key, value } => if key == "each"@ {
                Some(Ok(value))
            } else {
                Some(Err(each_err_text()))
            },
            AnnV::Other => None,
        }
    }
}

/// The view of a resolver outcome.
pub open spec fn outcome_view(r: Option<Result<String, Diag>>) -> Option<
    Result<Seq<char>, Seq<char>>,
> {
    match r {
        None => None,
        Some(Ok(s)) => Some(Ok(s@)),
        Some(Err(d)) => Some(Err(d@)),
    }
}

/// Resolve the appender-renaming directive of one field from its first
/// attached annotation: `None` for no directive, the chosen name on
/// success, or the malformed-directive diagnostic.
pub fn resolve_each(f: &Field) -> (r: Option<Result<String, Diag>>)
    ensures
        outcome_view(r) == spec_each(f@),
{
    if f.attrs.len() == 0 {
        return None;
    }
    match &f.attrs[0] {
        Ann::KeyValue { key, value } => {
            if string_is(key, "each") {
                Some(Ok(value.clone()))
            } else {
                Some(Err(Diag { message: String::from_str("expected `builder(each = \"...\")`") }))
            }
        },
        Ann::Other => None,
    }
}

} // verus!
