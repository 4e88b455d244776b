//! A builder derive with field attributes: `#[builder(rename = "..")]` renames
//! a setter, `#[uppercase]` uppercases a `String` field, and a struct marked
//! `#[builder_defaults]` falls back to `Default` for unset fields and adds
//! one assertion per field that its type has a default. The derive
//! ([`create_builder`]) puts together the pieces of [`fields`]: definitions,
//! consuming setters, `build` and `builder()`, then the assertions.

pub mod naming;
pub mod fields;

use vstd::prelude::*;
use crate::builder::builder_name;
use crate::builder::fields::{field_definition_text, field_init_text};
use crate::builder_with_attribute::{misuses_uppercase, use_defaults, uses_defaults};
use crate::error::{is_compile_error, lemma_one_message, MacroError, Site};
use crate::model::{named_fields_of, DeriveDef, FieldDef};
use crate::text::{append_each, concat_each};
use crate::tokens::views;
use self::naming::spec_snake_to_capitalized;
use self::fields::{
    are_exercise_setters, builder_field_definitions, builder_inits_values, builder_methods, codes,
    default_assert_text, first_uppercase_misuse, optional_default_asserts, original_struct_setters,
    owned_setter_text, setter_name, uppercase_error_text, uppercase_misused,
};

verus! {

/// The builder the derive writes for a struct with named fields: consuming
/// setters named as [`setter_name`] says, and `build` filling the fields
/// with `setters`.
pub open spec fn exercise_builder_text(def: DeriveDef, setters: Seq<Seq<char>>) -> Seq<char> {
    let name = def.name@;
    let b = builder_name(name);
    let fs = def.named_fields();
    "struct "@ + b + " { "@ + concat_each(fs.map_values(|f: FieldDef| field_definition_text(f)), ", "@)
        + "} impl "@ + b + " { "@
        + concat_each(fs.map_values(|f: FieldDef| owned_setter_text(setter_name(f)->Some_0, f)), " "@)
        + "pub fn build(self) -> "@ + name + " { "@ + name + " { "@ + concat_each(setters, ", "@)
        + "} } } impl "@ + name + " { pub fn builder() -> "@ + b + " { "@ + b + " { "@
        + concat_each(fs.map_values(|f: FieldDef| field_init_text(f)), ", "@) + "} } }"@
}

/// The default assertions the derive adds: one per field when the struct is
/// marked `#[builder_defaults]`, none otherwise.
pub open spec fn default_asserts_of(def: DeriveDef) -> Seq<Seq<char>> {
    if uses_defaults(def.attrs@) {
        def.named_fields().map_values(|f: FieldDef| default_assert_text(f))
    } else {
        Seq::empty()
    }
}

/// The derive writes `<Name>Builder` with an `Option` slot per field, a
/// consuming setter per field, named as its `#[builder(rename = "..")]`
/// says, a `build` that fills the struct with the given lines, and
/// `builder()` starting with every slot empty; with `#[builder_defaults]`
/// it adds, per field in order, an assertion that the field's type has a
/// default, and without it none.
pub proof fn exercise_builder_has_one_piece_per_field(def: DeriveDef, setters: Seq<Seq<char>>)
    ensures
        exercise_builder_text(def, setters) == "struct "@ + def.name@ + "Builder"@ + " { "@ + concat_each(
            def.named_fields().map_values(|f: FieldDef| f.name_text() + ": Option<"@ + f.ty@ + ">"@),
            ", "@,
        ) + "} impl "@ + def.name@ + "Builder"@ + " { "@ + concat_each(
            def.named_fields().map_values(
                |f: FieldDef| "pub fn "@ + setter_name(f)->Some_0 + "(mut self, input: "@ + f.ty@ + ") -> Self { self."@
                    + f.name_text() + " = Some(input); self }"@,
            ),
            " "@,
        ) + "pub fn build(self) -> "@ + def.name@ + " { "@ + def.name@ + " { "@ + concat_each(setters, ", "@)
            + "} } } impl "@ + def.name@ + " { pub fn builder() -> "@ + def.name@ + "Builder"@ + " { "@
            + def.name@ + "Builder"@ + " { "@ + concat_each(
            def.named_fields().map_values(|f: FieldDef| f.name_text() + ": None"@),
            ", "@,
        ) + "} } }"@,
        uses_defaults(def.attrs@) ==> default_asserts_of(def) == def.named_fields().map_values(
            |f: FieldDef| "struct __"@ + spec_snake_to_capitalized(f.name_text()) + "DefaultAssertion where "@ + f.ty@
                + ": core::default::Default;"@,
        ),
        !uses_defaults(def.attrs@) ==> default_asserts_of(def) == Seq::<Seq<char>>::empty(),
{
    let fs = def.named_fields();
    assert(fs.map_values(|f: FieldDef| field_definition_text(f)) =~= fs.map_values(
        |f: FieldDef| f.name_text() + ": Option<"@ + f.ty@ + ">"@,
    ));
    assert(fs.map_values(|f: FieldDef| owned_setter_text(setter_name(f)->Some_0, f)) =~= fs.map_values(
        |f: FieldDef| "pub fn "@ + setter_name(f)->Some_0 + "(mut self, input: "@ + f.ty@ + ") -> Self { self."@
            + f.name_text() + " = Some(input); self }"@,
    ));
    assert(fs.map_values(|f: FieldDef| field_init_text(f)) =~= fs.map_values(|f: FieldDef| f.name_text() + ": None"@));
    assert(fs.map_values(|f: FieldDef| default_assert_text(f)) =~= fs.map_values(
        |f: FieldDef| "struct __"@ + spec_snake_to_capitalized(f.name_text()) + "DefaultAssertion where "@ + f.ty@
            + ": core::default::Default;"@,
    ));
}

/// `t` is what the derive writes for `def`: the error when a field misuses
/// `#[uppercase]`, else the builder followed by the default assertions.
pub open spec fn is_exercise_output(t: Seq<char>, def: DeriveDef) -> bool {
    &&& misuses_uppercase(def) ==> is_compile_error(t, uppercase_error_text())
    &&& !misuses_uppercase(def) ==> exists|setters: Seq<Seq<char>>| #[trigger] are_exercise_setters(
        setters,
        def.named_fields(),
        uses_defaults(def.attrs@),
    ) && t == exercise_builder_text(def, setters) + " "@ + concat_each(default_asserts_of(def), " "@)
}

/// The builder's code and the default assertions, each pointing at its
/// field's type; or the error for the first field that marks a type other
/// than `String` with `#[uppercase]`, pointing at that field's name.
pub fn builder_code(item: &DeriveDef) -> (res: Result<(String, Vec<(String, Site)>), MacroError>)
    requires
        item.is_named_struct(),
        item.names_present(),
        forall|i: int| 0 <= i < item.named_fields().len() ==> setter_name(#[trigger] item.named_fields()[i]) is Some,
    ensures
        match res {
            Ok((s, asserts)) => !misuses_uppercase(*item) && (exists|setters: Seq<Seq<char>>| #[trigger] are_exercise_setters(
                setters,
                item.named_fields(),
                uses_defaults(item.attrs@),
            ) && s@ == exercise_builder_text(*item, setters)) && codes(asserts@) == default_asserts_of(*item)
                && forall|i: int| 0 <= i < asserts@.len() ==> (#[trigger] asserts@[i]).1 == Site::FieldType(i as usize),
            Err(e) => (exists|i: usize| #[trigger] first_uppercase_misuse(item.named_fields(), i)
                && e.sites@ == seq![Site::FieldName(i)]) && views(e.messages@) == seq![uppercase_error_text()]
                && misuses_uppercase(*item),
        },
{
    let name = &item.name;
    let mut builder = name.clone();
    builder.append("Builder");
    let use_defaults = use_defaults(&item.attrs);
    let fields = named_fields_of(item);

    let builder_fields = builder_field_definitions(fields);
    let builder_inits = builder_inits_values(fields);
    let methods = builder_methods(fields);
    let original_struct_set_fields = match original_struct_setters(fields, use_defaults) {
        Ok(v) => v,
        Err(e) => {
            proof {
                let i = choose|i: usize| #[trigger] first_uppercase_misuse(item.named_fields(), i)
                    && e.sites@ == seq![Site::FieldName(i)];
                assert(uppercase_misused(item.named_fields()[i as int]));
            }
            return Err(e);
        },
    };
    let asserts = if use_defaults {
        optional_default_asserts(fields)
    } else {
        Vec::new()
    };

    let mut out = String::new();
    out.append("struct ");
    out.append(builder.as_str());
    out.append(" { ");
    append_each(&mut out, &builder_fields, ", ");
    out.append("} impl ");
    out.append(builder.as_str());
    out.append(" { ");
    append_each(&mut out, &methods, " ");
    out.append("pub fn build(self) -> ");
    out.append(name.as_str());
    out.append(" { ");
    out.append(name.as_str());
    out.append(" { ");
    append_each(&mut out, &original_struct_set_fields, ", ");
    out.append("} } } impl ");
    out.append(name.as_str());
    out.append(" { pub fn builder() -> ");
    out.append(builder.as_str());
    out.append(" { ");
    out.append(builder.as_str());
    out.append(" { ");
    append_each(&mut out, &builder_inits, ", ");
    out.append("} } }");
    assert(out@ =~= exercise_builder_text(*item, views(original_struct_set_fields@)));
    assert(are_exercise_setters(views(original_struct_set_fields@), item.named_fields(), use_defaults));
    assert(codes(asserts@) =~= default_asserts_of(*item));
    Ok((out, asserts))
}

/// Writes the builder for a struct with named fields whose
/// `#[builder(..)]` attributes all name a setter, followed by the default
/// assertions; for a misused `#[uppercase]` it writes the error of
/// [`builder_code`] as code.
pub fn create_builder(item: &DeriveDef) -> (res: String)
    requires
        item.is_named_struct(),
        item.names_present(),
        forall|i: int| 0 <= i < item.named_fields().len() ==> setter_name(#[trigger] item.named_fields()[i]) is Some,
    ensures
        is_exercise_output(res@, *item),
{
    match builder_code(item) {
        Ok((s, asserts)) => {
            let mut out = s;
            out.append(" ");
            let mut texts: Vec<String> = Vec::new();
            let n = asserts.len();
            for i in 0..n
                invariant
                    n == asserts@.len(),
                    views(texts@) == codes(asserts@).take(i as int),
            {
                let ghost prev = texts@;
                texts.push(asserts[i].0.clone());
                proof {
                    assert(views(texts@) =~= views(prev).push(asserts@[i as int].0@));
                    assert(codes(asserts@).take(i + 1) =~= codes(asserts@).take(i as int).push(asserts@[i as int].0@));
                }
            }
            proof {
                assert(codes(asserts@).take(n as int) =~= codes(asserts@));
            }
            append_each(&mut out, &texts, " ");
            out
        },
        Err(e) => {
            let out = e.to_compile_error();
            proof {
                lemma_one_message(out@, views(e.messages@));
            }
            out
        },
    }
}

} // verus!
