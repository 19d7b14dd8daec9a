//! A compile-time builder generator.
//!
//! Given one record declaration — a name, a visibility qualifier and an
//! ordered sequence of named, typed fields with optional metadata
//! annotations — the generator emits a companion builder type, one mutating
//! operation per field, a validating `build` operation, and a factory entry
//! point on the record. Each field is classified as required, optional or a
//! repeatable list; a per-field `each = "<name>"` directive renames the
//! generated single-element appender.
//!
//! The whole generator is a pure function from the declaration to one
//! serialized syntax fragment (or to a fragment carrying a diagnostic).

pub mod ir;

pub mod classify;

pub mod resolve;

pub mod plan;

pub mod render;

pub mod model;

pub mod laws;
