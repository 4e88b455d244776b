//! A plain description of the item a derive or attribute macro is applied to.
//!
//! The front end fills it from the parsed item: names and attribute paths as
//! strings, visibilities and types as the token text they were written with,
//! and the tokens of attribute arguments as [`Tok`] trees.

use vstd::prelude::*;
use crate::tokens::{Delimiter, Tok};

verus! {

/// The shape of an attribute's arguments.
#[derive(Debug)]
pub enum Meta {
    /// `#[path]`
    Path,
    /// `#[path(tokens)]`, `#[path[tokens]]` or `#[path{tokens}]`
    List(Delimiter, Vec<Tok>),
    /// `#[path = value]`, with the tokens of the value
    NameValue(Vec<Tok>),
}

/// An attribute such as `#[builder(rename = "x")]`.
#[derive(Debug)]
pub struct AttrDef {
    /// The segments of the attribute's path.
    pub path: Vec<String>,
    /// Whether the path starts with `::`.
    pub leading_colon: bool,
    /// The arguments.
    pub meta: Meta,
    /// The whole attribute as source text, `#[...]` included.
    pub text: String,
}

/// One field of a struct.
#[derive(Debug)]
pub struct FieldDef {
    /// The field's attributes.
    pub attrs: Vec<AttrDef>,
    /// The visibility as written (empty when the field has none).
    pub vis: String,
    /// The field's name; `None` for a tuple-struct field.
    pub name: Option<String>,
    /// The type as token text.
    pub ty: String,
    /// The first path segment of the type, when the type is a path
    /// (`String` for `String`, `Vec` for `Vec<u8>`, `std` for `std::string::String`).
    pub ty_path_head: Option<String>,
    /// All tokens of the field: attributes, visibility, name, colon and type.
    pub tokens: Vec<Tok>,
}

/// The fields of a struct.
#[derive(Debug)]
pub enum FieldsDef {
    Named(Vec<FieldDef>),
    Unnamed(Vec<FieldDef>),
    Unit,
}

/// What kind of item the macro received.
#[derive(Debug)]
pub enum DataDef {
    Struct(FieldsDef),
    Enum,
    Union,
}

/// The item a derive or attribute macro is applied to.
#[derive(Debug)]
pub struct DeriveDef {
    /// Its outer attributes (the macro's own attribute excluded).
    pub attrs: Vec<AttrDef>,
    /// Its visibility as written.
    pub vis: String,
    /// Its name.
    pub name: String,
    /// Its body.
    pub data: DataDef,
}

impl FieldDef {
    /// The field's name as text, empty for a tuple-struct field.
    pub open spec fn name_text(self) -> Seq<char> {
        match self.name {
            Some(n) => n@,
            None => Seq::empty(),
        }
    }
}

impl DeriveDef {
    /// The item is a struct with named fields.
    pub open spec fn is_named_struct(self) -> bool {
        self.data matches DataDef::Struct(FieldsDef::Named(_))
    }

    /// The named fields of a struct with named fields (empty otherwise).
    pub open spec fn named_fields(self) -> Seq<FieldDef> {
        match self.data {
            DataDef::Struct(FieldsDef::Named(v)) => v@,
            _ => Seq::empty(),
        }
    }

    /// Every field of a struct with named fields has a name, as the parser
    /// guarantees.
    pub open spec fn names_present(self) -> bool {
        forall|i: int| 0 <= i < self.named_fields().len() ==> (#[trigger] self.named_fields()[i]).name is Some
    }
}

/// Borrows the named fields of a struct with named fields.
pub fn named_fields_of(def: &DeriveDef) -> (res: &Vec<FieldDef>)
    requires
        def.is_named_struct(),
    ensures
        res@ == def.named_fields(),
{
    match &def.data {
        DataDef::Struct(FieldsDef::Named(v)) => v,
        _ => vstd::pervasive::unreached(),
    }
}

} // verus!
