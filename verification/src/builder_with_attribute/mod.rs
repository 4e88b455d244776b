//! A builder derive whose struct may be marked `#[builder_defaults]`: the
//! builder's setters consume and return it, and `build` falls back to
//! `Default` for unset fields when the mark is present. Its setters are
//! renamed by `#[rename]` (see [`fields`]); how `build` fills the fields,
//! `#[uppercase]` included, is that of the exercise builder
//! ([`crate::builder_exercise::fields::original_struct_setters`]).

pub mod fields;

use vstd::prelude::*;
use crate::attrs::{attr_is, attr_path_is};
use crate::builder::builder_name;
use crate::builder::fields::{field_definition_text, field_init_text};
use crate::builder_exercise::fields::{
    are_exercise_setters, first_uppercase_misuse, original_struct_setters, owned_setter_text, uppercase_error_text,
    uppercase_misused,
};
use crate::error::{is_compile_error, lemma_one_message, MacroError, Site};
use crate::tokens::views;
use crate::model::{named_fields_of, AttrDef, DeriveDef, FieldDef};
use crate::text::{append_each, concat_each};
use self::fields::{
    builder_field_definitions, builder_inits_values, builder_methods, setter_name, try_builder_methods,
};

verus! {

/// Some attribute of the struct is `#[builder_defaults]`.
pub open spec fn uses_defaults(attrs: Seq<AttrDef>) -> bool {
    exists|i: int| 0 <= i < attrs.len() && attr_is(#[trigger] attrs[i], "builder_defaults"@)
}

/// Some field is marked `#[uppercase]` but is not a `String`.
pub open spec fn misuses_uppercase(def: DeriveDef) -> bool {
    exists|i: int| 0 <= i < def.named_fields().len() && uppercase_misused(#[trigger] def.named_fields()[i])
}

/// The builder the derive writes for a struct with named fields, `build`
/// filling the fields with `setters`.
pub open spec fn builder_text(def: DeriveDef, setters: Seq<Seq<char>>) -> Seq<char> {
    let name = def.name@;
    let b = builder_name(name);
    let fs = def.named_fields();
    "struct "@ + b + " { "@ + concat_each(fs.map_values(|f: FieldDef| field_definition_text(f)), ", "@)
            + "} impl "@ + b + " { "@
            + concat_each(fs.map_values(|f: FieldDef| owned_setter_text(setter_name(f)->Some_0, f)), " "@)
            + "pub(crate) fn build(self) -> "@ + name + " { "@ + name + " { "@
            + concat_each(setters, ", "@)
            + "} } } impl "@ + name + " { pub(crate) fn builder() -> "@ + b + " { "@ + b + " { "@
            + concat_each(fs.map_values(|f: FieldDef| field_init_text(f)), ", "@) + "} } }"@
}

/// `t` is what the derive writes for `def`: the error when a field misuses
/// `#[uppercase]`, else the builder, its fields filled as
/// [`are_exercise_setters`] says.
pub open spec fn is_builder_output(t: Seq<char>, def: DeriveDef) -> bool {
    &&& misuses_uppercase(def) ==> is_compile_error(t, uppercase_error_text())
    &&& !misuses_uppercase(def) ==> exists|setters: Seq<Seq<char>>| #[trigger] are_exercise_setters(
        setters,
        def.named_fields(),
        uses_defaults(def.attrs@),
    ) && t == builder_text(def, setters)
}

/// The derive writes `<Name>Builder` with an `Option` slot per field, a
/// consuming setter per field, named as its `#[rename]` says, that stores
/// its input, a `build` that fills the struct with the given lines, and
/// `builder()` starting with every slot empty.
pub proof fn attribute_builder_has_one_piece_per_field(def: DeriveDef, setters: Seq<Seq<char>>)
    ensures
        builder_text(def, setters) == "struct "@ + def.name@ + "Builder"@ + " { "@ + concat_each(
            def.named_fields().map_values(|f: FieldDef| f.name_text() + ": Option<"@ + f.ty@ + ">"@),
            ", "@,
        ) + "} impl "@ + def.name@ + "Builder"@ + " { "@ + concat_each(
            def.named_fields().map_values(
                |f: FieldDef| "pub fn "@ + setter_name(f)->Some_0 + "(mut self, input: "@ + f.ty@ + ") -> Self { self."@
                    + f.name_text() + " = Some(input); self }"@,
            ),
            " "@,
        ) + "pub(crate) fn build(self) -> "@ + def.name@ + " { "@ + def.name@ + " { "@ + concat_each(setters, ", "@)
            + "} } } impl "@ + def.name@ + " { pub(crate) fn builder() -> "@ + def.name@ + "Builder"@ + " { "@
            + def.name@ + "Builder"@ + " { "@ + concat_each(
            def.named_fields().map_values(|f: FieldDef| f.name_text() + ": None"@),
            ", "@,
        ) + "} } }"@,
        uses_defaults(def.attrs@) <==> exists|i: int| 0 <= i < def.attrs@.len() && !(#[trigger] def.attrs@[i]).leading_colon
            && def.attrs@[i].path@.len() == 1 && def.attrs@[i].path@[0]@ == "builder_defaults"@,
{
    let fs = def.named_fields();
    assert(fs.map_values(|f: FieldDef| field_definition_text(f)) =~= fs.map_values(
        |f: FieldDef| f.name_text() + ": Option<"@ + f.ty@ + ">"@,
    ));
    assert(fs.map_values(|f: FieldDef| owned_setter_text(setter_name(f)->Some_0, f)) =~= fs.map_values(
        |f: FieldDef| "pub fn "@ + setter_name(f)->Some_0 + "(mut self, input: "@ + f.ty@ + ") -> Self { self."@
            + f.name_text() + " = Some(input); self }"@,
    ));
    assert(fs.map_values(|f: FieldDef| field_init_text(f)) =~= fs.map_values(|f: FieldDef| f.name_text() + ": None"@));
}

/// The builder's name, the struct's name followed by `Builder`, opens the
/// builder the derive writes, whatever `build` fills the fields with.
pub proof fn builder_name_is_present(def: DeriveDef, setters: Seq<Seq<char>>)
    ensures
        ("struct "@ + builder_name(def.name@)).is_prefix_of(builder_text(def, setters)),
{
    let p = "struct "@ + builder_name(def.name@);
    let out = builder_text(def, setters);
    assert(out.subrange(0, p.len() as int) =~= p);
}

/// Whether the struct is marked `#[builder_defaults]`.
pub fn use_defaults(attrs: &Vec<AttrDef>) -> (res: bool)
    ensures
        res == uses_defaults(attrs@),
{
    let n = attrs.len();
    for i in 0..n
        invariant
            n == attrs@.len(),
            forall|k: int| 0 <= k < i ==> !attr_is(#[trigger] attrs@[k], "builder_defaults"@),
    {
        if attr_path_is(&attrs[i], "builder_defaults") {
            return true;
        }
    }
    false
}

/// Writes the builder for a struct with named fields whose `#[rename]`
/// attributes all hold one string; for a misused `#[uppercase]` it writes
/// the error of [`builder_code`] as code.
pub fn create_builder(item: &DeriveDef) -> (res: String)
    requires
        item.is_named_struct(),
        item.names_present(),
        forall|i: int| 0 <= i < item.named_fields().len() ==> setter_name(#[trigger] item.named_fields()[i]) is Some,
    ensures
        is_builder_output(res@, *item),
{
    match builder_code(item) {
        Ok(s) => s,
        Err(e) => {
            let out = e.to_compile_error();
            proof {
                lemma_one_message(out@, views(e.messages@));
            }
            out
        },
    }
}

/// The builder's code, or the error for the first field that marks a type
/// other than `String` with `#[uppercase]`, pointing at that field's name.
pub fn builder_code(item: &DeriveDef) -> (res: Result<String, MacroError>)
    requires
        item.is_named_struct(),
        item.names_present(),
        forall|i: int| 0 <= i < item.named_fields().len() ==> setter_name(#[trigger] item.named_fields()[i]) is Some,
    ensures
        match res {
            Ok(s) => !misuses_uppercase(*item) && exists|setters: Seq<Seq<char>>| #[trigger] are_exercise_setters(
                setters,
                item.named_fields(),
                uses_defaults(item.attrs@),
            ) && s@ == builder_text(*item, setters),
            Err(e) => (exists|i: usize| #[trigger] first_uppercase_misuse(item.named_fields(), i)
                && e.sites@ == seq![Site::FieldName(i)]) && views(e.messages@) == seq![uppercase_error_text()]
                && misuses_uppercase(*item),
        },
{
    let name = &item.name;
    let mut builder = name.clone();
    builder.append("Builder");
    let use_defaults = use_defaults(&item.attrs);
    let fields = named_fields_of(item);

    let builder_fields = builder_field_definitions(fields);
    let builder_inits = builder_inits_values(fields);
    let methods = builder_methods(fields);
    let original_struct_set_fields = match original_struct_setters(fields, use_defaults) {
        Ok(v) => v,
        Err(e) => {
            proof {
                let i = choose|i: usize| #[trigger] first_uppercase_misuse(item.named_fields(), i)
                    && e.sites@ == seq![Site::FieldName(i)];
                assert(uppercase_misused(item.named_fields()[i as int]));
            }
            return Err(e);
        },
    };

    let mut out = String::new();
    out.append("struct ");
    out.append(builder.as_str());
    out.append(" { ");
    append_each(&mut out, &builder_fields, ", ");
    out.append("} impl ");
    out.append(builder.as_str());
    out.append(" { ");
    append_each(&mut out, &methods, " ");
    out.append("pub(crate) fn build(self) -> ");
    out.append(name.as_str());
    out.append(" { ");
    out.append(name.as_str());
    out.append(" { ");
    append_each(&mut out, &original_struct_set_fields, ", ");
    out.append("} } } impl ");
    out.append(name.as_str());
    out.append(" { pub(crate) fn builder() -> ");
    out.append(builder.as_str());
    out.append(" { ");
    out.append(builder.as_str());
    out.append(" { ");
    append_each(&mut out, &builder_inits, ", ");
    out.append("} } }");
    assert(out@ =~= builder_text(*item, views(original_struct_set_fields@)));
    assert(are_exercise_setters(views(original_struct_set_fields@), item.named_fields(), use_defaults));
    Ok(out)
}

/// Writes the builder, or returns `None` when some field's `#[rename]`
/// attribute holds something other than one string (where the derive fails).
pub fn try_create_builder(item: &DeriveDef) -> (res: Option<String>)
    requires
        item.is_named_struct(),
        item.names_present(),
    ensures
        match res {
            Some(s) => is_builder_output(s@, *item),
            None => exists|i: int| 0 <= i < item.named_fields().len()
                && setter_name(#[trigger] item.named_fields()[i]) is None,
        },
{
    let fields = named_fields_of(item);
    match try_builder_methods(fields) {
        Some(_) => Some(create_builder(item)),
        None => None,
    }
}

} // verus!
