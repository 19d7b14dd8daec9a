//! The input classifier: decides whether a field's declared type is a
//! required value, an optional value or a repeatable list, and extracts the
//! inner type from the single wrapper level it unwraps.
//!
//! Only the outermost named-type segment is inspected: `Option` means
//! optional, `Vec` means a list, anything else is required. One level of
//! unwrapping is performed; if the recognized wrapper has no generic type
//! argument, the type itself stands in for the inner type (a defensive
//! fallback, never expected in valid input). Absence of a recognizable
//! wrapper is not a failure but the required classification.

use vstd::prelude::*;
use vstd::string::*;
use crate::ir::{Ty, TyV};

verus! {

/// Mathematical view of a classification.
pub enum KindV {
    Required { inner: Seq<char> },
    Optional { inner: Seq<char> },
    List { elem: Seq<char> },
}

/// The semantic kind of a field's declared type, with the inner type the
/// single unwrapping step exposed, carried as source text.
pub enum Kind {
    /// A plain value; `inner` is the type's own text.
    Required { inner: String },
    /// An optional value; `inner` is the wrapped type's text.
    Optional { inner: String },
    /// A repeatable list; `elem` is the element type's text.
    List { elem: String },
}

impl View for Kind {
    type V = KindV;

    open spec fn view(&self) -> KindV {
        match self {
            Kind::Required { inner } => KindV::Required { inner: inner@ },
            Kind::Optional { inner } => KindV::Optional { inner: inner@ },
            Kind::List { elem } => KindV::List { elem: elem@ },
        }
    }
}

/// The type's last path segment is the well-known optional wrapper.
pub open spec fn spec_is_option(t: TyV) -> bool {
    t.head matches Some(h) && h == "Option"@
}

/// The type's last path segment is the well-known list name.
pub open spec fn spec_is_vector(t: TyV) -> bool {
    t.head matches Some(h) && h == "Vec"@
}

/// The single generic argument exposed by one unwrapping step, with the
/// type's own text as the defensive fallback when there is none.
pub open spec fn spec_inner(t: TyV) -> Seq<char> {
    if t.args.len() > 0 {
        t.args[0]
    } else {
        t.text
    }
}

/// What `classify` returns: the kind of the type, by its outermost segment
/// alone, together with the inner or element type.
pub open spec fn spec_kind(t: TyV) -> KindV {
    if spec_is_option(t) {
        KindV::Optional { inner: spec_inner(t) }
    } else if spec_is_vector(t) {
        KindV::List { elem: spec_inner(t) }
    } else {
        KindV::Required { inner: t.text }
    }
}

/// The two character sequences are equal.
pub fn string_is(s: &String, lit: &str) -> (r: bool)
    ensures
        r == (s@ == lit@),
{
    let l: String = String::from_str(lit);
    *s == l
}

/// The name of the type's last path segment, if the type is a path type.
pub fn get_last_path_segment(ty: &Ty) -> (r: Option<String>)
    ensures
        (r is Some) == (ty@.head is Some),
        r matches Some(s) ==> ty@.head matches Some(h) && s@ == h,
{
    match &ty.head {
        Some(s) => Some(s.clone()),
        None => None,
    }
}

/// The type's last path segment is named `Option`.
pub fn is_option(ty: &Ty) -> (r: bool)
    ensures
        r == spec_is_option(ty@),
{
    match &ty.head {
        Some(h) => string_is(h, "Option"),
        None => false,
    }
}

/// The type's last path segment is named `Vec`.
pub fn is_vector(ty: &Ty) -> (r: bool)
    ensures
        r == spec_is_vector(ty@),
{
    match &ty.head {
        Some(h) => string_is(h, "Vec"),
        None => false,
    }
}

/// The first generic type argument of the last segment, if there is one.
pub fn unwrap_generic_type(ty: &Ty) -> (r: Option<String>)
    ensures
        (r is Some) == (ty@.args.len() > 0),
        r matches Some(s) ==> s@ == ty@.args[0],
{
    if ty.args.len() > 0 {
        Some(ty.args[0].clone())
    } else {
        None
    }
}

/// The wrapped type of an optional: its first generic argument, present
/// only when the type is an optional wrapper that has one.
pub fn unwrap_option(ty: &Ty) -> (r: Option<String>)
    ensures
        (r is Some) == (spec_is_option(ty@) && ty@.args.len() > 0),
        r matches Some(s) ==> s@ == ty@.args[0],
{
    if !is_option(ty) {
        return None;
    }
    unwrap_generic_type(ty)
}

/// The element type of a list: its first generic argument, present only
/// when the type is a list that has one.
pub fn unwrap_vector(ty: &Ty) -> (r: Option<String>)
    ensures
        (r is Some) == (spec_is_vector(ty@) && ty@.args.len() > 0),
        r matches Some(s) ==> s@ == ty@.args[0],
{
    if !is_vector(ty) {
        return None;
    }
    unwrap_generic_type(ty)
}

/// Classify a declared type by its outermost named segment, unwrapping one
/// level of the optional or list wrapper.
pub fn classify(ty: &Ty) -> (k: Kind)
    ensures
        k@ == spec_kind(ty@),
{
    if is_option(ty) {
        match unwrap_generic_type(ty) {
            Some(t) => Kind::Optional { inner: t },
            None => Kind::Optional { inner: ty.text.clone() },
        }
    } else if is_vector(ty) {
        match unwrap_generic_type(ty) {
            Some(t) => Kind::List { elem: t },
            None => Kind::List { elem: ty.text.clone() },
        }
    } else {
        Kind::Required { inner: ty.text.clone() }
    }
}

} // verus!
