//! The neutral intermediate representation of one record declaration.
//!
//! The generator never touches the host compiler's own syntax tree. A caller
//! converts the parsed declaration into these plain values: a record with a
//! name, a visibility qualifier and an ordered sequence of named fields, each
//! field carrying its declared type and its attached metadata annotations.
//! Types are carried as source text plus the two facts the generator reads:
//! the name of the outermost (last) path segment and the source text of that
//! segment's generic type arguments.

use vstd::prelude::*;

verus! {

/// Mathematical view of a type expression.
pub struct TyV {
    /// The full source text of the type.
    pub text: Seq<char>,
    /// The name of the last path segment, if the type is a path type.
    pub head: Option<Seq<char>>,
    /// The source text of each generic type argument of the last segment.
    pub args: Seq<Seq<char>>,
}

/// A type expression, reduced to what the generator inspects: its source
/// text, the outermost path segment's name, and that segment's generic
/// type arguments as source text. A non-path type has no head and no
/// arguments.
pub struct Ty {
    pub text: String,
    pub head: Option<String>,
    pub args: Vec<String>,
}

impl View for Ty {
    type V = TyV;

    open spec fn view(&self) -> TyV {
        TyV {
            text: self.text@,
            head: match self.head {
                Some(s) => Some(s@),
                None => None,
            },
            args: self.args@.map_values(|a: String| a@),
        }
    }
}

/// Mathematical view of a metadata annotation.
pub enum AnnV {
    /// A list-style annotation whose first nested item is `key = "value"`
    /// with a string-literal value.
    KeyValue { key: Seq<char>, value: Seq<char> },
    /// Any annotation of another shape.
    Other,
}

/// One metadata annotation attached to a field, reduced to the shape the
/// resolver examines: either its first nested item is a name/value pair
/// with a string-literal value, or it has some other shape.
pub enum Ann {
    KeyValue { key: String, value: String },
    Other,
}

impl View for Ann {
    type V = AnnV;

    open spec fn view(&self) -> AnnV {
        match self {
            Ann::KeyValue { key, value } => AnnV::KeyValue { key: key@, value: value@ },
            Ann::Other => AnnV::Other,
        }
    }
}

/// Mathematical view of a field.
pub struct FieldV {
    pub name: Seq<char>,
    pub ty: TyV,
    pub attrs: Seq<AnnV>,
}

/// One named field of the record: its name, its declared type and its
/// attached metadata annotations, in source order.
pub struct Field {
    pub name: String,
    pub ty: Ty,
    pub attrs: Vec<Ann>,
}

impl View for Field {
    type V = FieldV;

    open spec fn view(&self) -> FieldV {
        FieldV { name: self.name@, ty: self.ty@, attrs: self.attrs@.map_values(|a: Ann| a@) }
    }
}

/// Mathematical view of a record declaration.
pub struct RecordV {
    pub name: Seq<char>,
    pub vis: Seq<char>,
    pub fields: Seq<FieldV>,
}

/// A record declaration with named fields: the input the generator works on.
pub struct Record {
    /// The record's name.
    pub name: String,
    /// The visibility qualifier as source text; empty for private.
    pub vis: String,
    /// The named fields, in declaration order.
    pub fields: Vec<Field>,
}

impl View for Record {
    type V = RecordV;

    open spec fn view(&self) -> RecordV {
        RecordV {
            name: self.name@,
            vis: self.vis@,
            fields: self.fields@.map_values(|f: Field| f@),
        }
    }
}

/// Mathematical view of a declaration handed to the generator.
pub enum DeclV {
    Record(RecordV),
    NotStruct,
    UnnamedFields,
}

/// The declaration handed to the generator: a record with named fields, or
/// one of the two rejected shapes, which only carry what diagnostic is owed.
pub enum Decl {
    /// A record-shaped declaration with named fields.
    Record(Record),
    /// A declaration that is not a struct at all.
    NotStruct,
    /// A struct whose fields are not named.
    UnnamedFields,
}

impl View for Decl {
    type V = DeclV;

    open spec fn view(&self) -> DeclV {
        match self {
            Decl::Record(r) => DeclV::Record(r@),
            Decl::NotStruct => DeclV::NotStruct,
            Decl::UnnamedFields => DeclV::UnnamedFields,
        }
    }
}

/// A compile-time diagnostic: the message the emitted fragment surfaces.
pub struct Diag {
    pub message: String,
}

impl View for Diag {
    type V = Seq<char>;

    open spec fn view(&self) -> Seq<char> {
        self.message@
    }
}

} // verus!
