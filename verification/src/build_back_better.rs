//! Names used by the builder that enforces, through its types, that every
//! field is set before `build`.

use vstd::prelude::*;
use crate::builder::builder_name;
use crate::builder_exercise::naming::{snake_to_capitalized, spec_snake_to_capitalized};

verus! {

/// The builder's name: the struct's name followed by `Builder`.
pub fn create_builder_ident(name: &String) -> (res: String)
    ensures
        res@ == builder_name(name@),
{
    let mut s = name.clone();
    s.append("Builder");
    s
}

/// The name of the marker struct for `field` in `builder`: the field's name
/// in `CapitalizedWords`, `Of`, and the builder's name (`RootsOfOfGleipnirBuilder`).
pub open spec fn field_struct_name(builder: Seq<char>, field: Seq<char>) -> Seq<char> {
    spec_snake_to_capitalized(field) + "Of"@ + builder
}

/// The name of the marker struct for a field of the builder.
pub fn create_field_struct_name(builder: &String, field: &String) -> (res: String)
    ensures
        res@ == field_struct_name(builder@, field@),
{
    let mut s = snake_to_capitalized(field.clone());
    s.append("Of");
    s.append(builder.as_str());
    s
}

} // verus!
