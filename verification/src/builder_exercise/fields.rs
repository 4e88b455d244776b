//! The pieces of the builder with field attributes.

use vstd::prelude::*;
use crate::attrs::{extract_attribute_from_field as find_field_attribute, first_attr, parse_rename_entries, rename_entries};
use crate::builder::fields::{field_definition_text, field_init_text, name_text_of, type_is};
use crate::error::{MacroError, Site};
use crate::model::{AttrDef, FieldDef, Meta};
use crate::syntax::{renders, string_literal_text};
use crate::tokens::views;
use super::naming::{snake_to_capitalized, spec_snake_to_capitalized};

pub use crate::builder::fields::{get_name_and_type, matches_type};

verus! {

/// The name of the setter for `f`: the value of the last `rename = ".."`
/// entry of its first `#[builder(..)]` attribute, else the field's name.
/// `None` when that attribute is not a list of entries or renames nothing.
pub open spec fn setter_name(f: FieldDef) -> Option<Seq<char>> {
    match first_attr(f.attrs@, "builder"@) {
        None => Some(f.name_text()),
        Some(a) => match a.meta {
            Meta::List(_, t) => match rename_entries(t@, 0, None) {
                Some(Some(n)) => Some(n),
                _ => None,
            },
            _ => None,
        },
    }
}

/// A consuming setter named `method` for `f`.
pub open spec fn owned_setter_text(method: Seq<char>, f: FieldDef) -> Seq<char> {
    "pub fn "@ + method + "(mut self, input: "@ + f.ty@ + ") -> Self { self."@ + f.name_text()
        + " = Some(input); self }"@
}

/// `expect(concat!("field not set: ", "name"))`: an unset field fails with
/// its name (`lit` is the text of the name's string literal).
pub open spec fn panic_fallback_text(lit: Seq<char>) -> Seq<char> {
    "expect(concat!(\"field not set: \", "@ + lit + "))"@
}

/// `unwrap_or_default()`: an unset field takes its type's default.
pub open spec fn default_fallback_text() -> Seq<char> {
    "unwrap_or_default()"@
}

/// The message for `#[uppercase]` on a field that is not a `String`.
pub open spec fn uppercase_error_text() -> Seq<char> {
    "uppercase attribute only works on String fields"@
}

/// The field is marked `#[uppercase]`.
pub open spec fn has_uppercase(f: FieldDef) -> bool {
    first_attr(f.attrs@, "uppercase"@) is Some
}

/// The field is marked `#[uppercase]` but its type is not `String`.
pub open spec fn uppercase_misused(f: FieldDef) -> bool {
    has_uppercase(f) && !type_is(f, "String"@)
}

/// The field at position `i` is the first that misuses `#[uppercase]`.
pub open spec fn first_uppercase_misuse(fields: Seq<FieldDef>, i: usize) -> bool {
    &&& i < fields.len()
    &&& uppercase_misused(fields[i as int])
    &&& forall|k: int| 0 <= k < i ==> !uppercase_misused(#[trigger] fields[k])
}

/// `t` is how an unset field named `name` is handled: `unwrap_or_default()`
/// with defaults, else a failure naming the field, for some text of the
/// name's string literal.
pub open spec fn is_fallback(t: Seq<char>, name: Seq<char>, use_defaults: bool) -> bool {
    if use_defaults {
        t == default_fallback_text()
    } else {
        exists|lit: Seq<char>| #[trigger] renders(lit, name) && t == panic_fallback_text(lit)
    }
}

/// How `build` fills `f`: the builder's value, uppercased when the field is
/// marked `#[uppercase]`, then handled by `fallback` when unset.
pub open spec fn exercise_setter_text(f: FieldDef, fallback: Seq<char>) -> Seq<char> {
    let n = f.name_text();
    n + ": self."@ + n + (if has_uppercase(f) { ".map(|v| v.to_uppercase())"@ } else { Seq::empty() })
        + "."@ + fallback
}

/// `t` fills `f` as [`exercise_setter_text`] says, with the fallback
/// [`is_fallback`] describes.
pub open spec fn is_exercise_setter(t: Seq<char>, f: FieldDef, use_defaults: bool) -> bool {
    exists|fb: Seq<char>| #[trigger] is_fallback(fb, f.name_text(), use_defaults) && t == exercise_setter_text(f, fb)
}

/// `setters` fill the fields `fs` one by one as [`exercise_setter_text`]
/// says, each with the fallback [`is_fallback`] describes.
pub open spec fn are_exercise_setters(setters: Seq<Seq<char>>, fs: Seq<FieldDef>, use_defaults: bool) -> bool {
    &&& setters.len() == fs.len()
    &&& forall|i: int| 0 <= i < fs.len() ==> #[trigger] is_exercise_setter(setters[i], fs[i], use_defaults)
}

/// Each line of `build` takes the field's value out of the builder, maps it
/// to uppercase when the field is marked `#[uppercase]`, and then, when the
/// value is unset, takes the type's default with `#[builder_defaults]` or
/// else fails with a message naming the field.
pub proof fn exercise_build_line(t: Seq<char>, f: FieldDef, use_defaults: bool)
    requires
        is_exercise_setter(t, f, use_defaults),
    ensures
        use_defaults ==> t == f.name_text() + ": self."@ + f.name_text() + (if first_attr(f.attrs@, "uppercase"@) is Some {
            ".map(|v| v.to_uppercase())"@
        } else {
            Seq::empty()
        }) + "."@ + "unwrap_or_default()"@,
        !use_defaults ==> exists|lit: Seq<char>| #[trigger] renders(lit, f.name_text()) && t == f.name_text() + ": self."@
            + f.name_text() + (if first_attr(f.attrs@, "uppercase"@) is Some {
            ".map(|v| v.to_uppercase())"@
        } else {
            Seq::empty()
        }) + "."@ + "expect(concat!(\"field not set: \", "@ + lit + "))"@,
{
    let fb = choose|fb: Seq<char>| #[trigger] is_fallback(fb, f.name_text(), use_defaults) && t == exercise_setter_text(f, fb);
    if !use_defaults {
        let lit = choose|lit: Seq<char>| #[trigger] renders(lit, f.name_text()) && fb == panic_fallback_text(lit);
        assert(renders(lit, f.name_text()));
    }
}

/// `struct __<Name>DefaultAssertion where Type: core::default::Default;`:
/// compiles only when the field's type has a default.
pub open spec fn default_assert_text(f: FieldDef) -> Seq<char> {
    "struct __"@ + spec_snake_to_capitalized(f.name_text()) + "DefaultAssertion where "@ + f.ty@
        + ": core::default::Default;"@
}

/// `name: Option<Type>` for every field.
pub fn builder_field_definitions(fields: &Vec<FieldDef>) -> (res: Vec<String>)
    ensures
        views(res@) == fields@.map_values(|f: FieldDef| field_definition_text(f)),
{
    crate::builder::fields::builder_field_definitions(fields)
}

/// `name: None` for every field.
pub fn builder_inits_values(fields: &Vec<FieldDef>) -> (res: Vec<String>)
    ensures
        views(res@) == fields@.map_values(|f: FieldDef| field_init_text(f)),
{
    crate::builder::fields::builder_inits_values(fields)
}

/// The first attribute of `f` whose path is the identifier `name`.
pub fn extract_attribute_from_field<'a>(f: &'a FieldDef, name: &str) -> (res: Option<&'a AttrDef>)
    ensures
        match res {
            Some(a) => first_attr(f.attrs@, name@) == Some(*a),
            None => first_attr(f.attrs@, name@) is None,
        },
{
    find_field_attribute(f, name)
}

/// The name of the setter for `f`, or `None` when its `#[builder(..)]`
/// attribute cannot be read.
pub fn setter_name_of(f: &FieldDef) -> (res: Option<String>)
    ensures
        opt_view_eq(res, setter_name(*f)),
{
    match extract_attribute_from_field(f, "builder") {
        None => Some(name_text_of(f)),
        Some(a) => match &a.meta {
            Meta::List(_, t) => match parse_rename_entries(t) {
                Some(Some(n)) => Some(n),
                _ => None,
            },
            _ => None,
        },
    }
}

/// The optional string and the optional text agree.
pub open spec fn opt_view_eq(o: Option<String>, s: Option<Seq<char>>) -> bool {
    match o {
        Some(v) => s == Some(v@),
        None => s is None,
    }
}

/// A consuming setter for every field, named after the field or after its
/// `#[builder(rename = "..")]` entry.
pub fn builder_methods(fields: &Vec<FieldDef>) -> (res: Vec<String>)
    requires
        forall|i: int| 0 <= i < fields@.len() ==> setter_name(#[trigger] fields@[i]) is Some,
    ensures
        views(res@) == fields@.map_values(|f: FieldDef| owned_setter_text(setter_name(f)->Some_0, f)),
{
    let mut res: Vec<String> = Vec::new();
    let n = fields.len();
    for i in 0..n
        invariant
            n == fields@.len(),
            forall|i: int| 0 <= i < fields@.len() ==> setter_name(#[trigger] fields@[i]) is Some,
            views(res@) == fields@.take(i as int).map_values(
                |f: FieldDef| owned_setter_text(setter_name(f)->Some_0, f),
            ),
    {
        let f = &fields[i];
        assert(setter_name(fields@[i as int]) is Some);
        let method = match setter_name_of(f) {
            Some(m) => m,
            None => vstd::pervasive::unreached(),
        };
        let name = name_text_of(f);
        let mut s = String::new();
        s.append("pub fn ");
        s.append(method.as_str());
        s.append("(mut self, input: ");
        s.append(f.ty.as_str());
        s.append(") -> Self { self.");
        s.append(name.as_str());
        s.append(" = Some(input); self }");
        let ghost prev = res@;
        res.push(s);
        proof {
            let g = |f: FieldDef| owned_setter_text(setter_name(f)->Some_0, f);
            assert(s@ =~= g(fields@[i as int]));
            assert(views(res@) =~= views(prev).push(s@));
            assert(fields@.take(i + 1).map_values(g) =~= fields@.take(i as int).map_values(g).push(
                g(fields@[i as int]),
            ));
        }
    }
    proof {
        assert(fields@.take(n as int) =~= fields@);
    }
    res
}

/// The setters of every field, or `None` when the `#[builder(..)]`
/// attribute of some field cannot be read (where the derive fails).
pub fn try_builder_methods(fields: &Vec<FieldDef>) -> (res: Option<Vec<String>>)
    ensures
        match res {
            Some(v) => (forall|i: int| 0 <= i < fields@.len() ==> setter_name(#[trigger] fields@[i]) is Some)
                && views(v@) == fields@.map_values(|f: FieldDef| owned_setter_text(setter_name(f)->Some_0, f)),
            None => exists|i: int| 0 <= i < fields@.len() && setter_name(#[trigger] fields@[i]) is None,
        },
{
    let n = fields.len();
    for i in 0..n
        invariant
            n == fields@.len(),
            forall|k: int| 0 <= k < i ==> setter_name(#[trigger] fields@[k]) is Some,
    {
        if setter_name_of(&fields[i]).is_none() {
            assert(setter_name(fields@[i as int]) is None);
            return None;
        }
    }
    Some(builder_methods(fields))
}

/// `expect(concat!("field not set: ", "name"))`.
pub fn panic_fallback(field_name_as_string: String) -> (res: String)
    ensures
        exists|lit: Seq<char>| #[trigger] renders(lit, field_name_as_string@) && res@ == panic_fallback_text(lit),
{
    let lit = string_literal_text(field_name_as_string.as_str());
    let mut s = String::new();
    s.append("expect(concat!(\"field not set: \", ");
    s.append(lit.as_str());
    s.append("))");
    assert(s@ =~= panic_fallback_text(lit@));
    assert(renders(lit@, field_name_as_string@));
    s
}

/// `unwrap_or_default()`.
pub fn default_fallback() -> (res: String)
    ensures
        res@ == default_fallback_text(),
{
    String::from_str("unwrap_or_default()")
}

/// How `build` fills every field (see [`exercise_setter_text`]); fails on the
/// first field marked `#[uppercase]` whose type is not `String`, with the
/// error pointing at that field's name.
pub fn original_struct_setters(fields: &Vec<FieldDef>, use_defaults: bool) -> (res: Result<Vec<String>, MacroError>)
    requires
        forall|i: int| 0 <= i < fields@.len() ==> (#[trigger] fields@[i]).name is Some,
    ensures
        match res {
            Ok(v) => (forall|i: int| 0 <= i < fields@.len() ==> !uppercase_misused(#[trigger] fields@[i]))
                && are_exercise_setters(views(v@), fields@, use_defaults),
            Err(e) => (exists|i: usize| #[trigger] first_uppercase_misuse(fields@, i)
                && e.sites@ == seq![Site::FieldName(i)]) && views(e.messages@) == seq![uppercase_error_text()],
        },
{
    let mut res: Vec<String> = Vec::new();
    let n = fields.len();
    for i in 0..n
        invariant
            n == fields@.len(),
            forall|i: int| 0 <= i < fields@.len() ==> (#[trigger] fields@[i]).name is Some,
            forall|k: int| 0 <= k < i ==> !uppercase_misused(#[trigger] fields@[k]),
            are_exercise_setters(views(res@), fields@.take(i as int), use_defaults),
    {
        let f = &fields[i];
        let name = name_text_of(f);
        let uppercase = extract_attribute_from_field(f, "uppercase").is_some();
        let is_string = matches_type(f, "String");
        if uppercase && !is_string {
            assert(uppercase_misused(fields@[i as int]));
            let e = MacroError::new(
                Site::FieldName(i),
                String::from_str("uppercase attribute only works on String fields"),
            );
            assert(first_uppercase_misuse(fields@, i) && e.sites@ == seq![Site::FieldName(i)]);
            return Err(e);
        }
        let handle = if use_defaults {
            default_fallback()
        } else {
            panic_fallback(name.clone())
        };
        let mut s = String::new();
        s.append(name.as_str());
        s.append(": self.");
        s.append(name.as_str());
        if uppercase {
            s.append(".map(|v| v.to_uppercase())");
        }
        s.append(".");
        s.append(handle.as_str());
        let ghost prev = res@;
        res.push(s);
        proof {
            assert(is_fallback(handle@, name@, use_defaults));
            assert(s@ =~= exercise_setter_text(fields@[i as int], handle@));
            assert(views(res@) =~= views(prev).push(s@));
            let fs = fields@.take(i + 1);
            assert forall|k: int| 0 <= k < fs.len() implies #[trigger] is_exercise_setter(views(res@)[k], fs[k], use_defaults) by {
                if k < i {
                    assert(fields@.take(i as int)[k] == fs[k]);
                    assert(views(prev)[k] == views(res@)[k]);
                    assert(is_exercise_setter(views(prev)[k], fields@.take(i as int)[k], use_defaults));
                } else {
                    assert(is_fallback(handle@, fs[k].name_text(), use_defaults));
                }
            }
        }
    }
    proof {
        assert(fields@.take(n as int) =~= fields@);
    }
    Ok(res)
}

/// The code of each piece.
pub open spec fn codes(pieces: Seq<(String, Site)>) -> Seq<Seq<char>> {
    pieces.map_values(|p: (String, Site)| p.0@)
}

/// One `struct __<Name>DefaultAssertion where Type: core::default::Default;`
/// per field, each pointing at its field's type, so that a type without a
/// default is reported there.
pub fn optional_default_asserts(fields: &Vec<FieldDef>) -> (res: Vec<(String, Site)>)
    requires
        forall|i: int| 0 <= i < fields@.len() ==> (#[trigger] fields@[i]).name is Some,
    ensures
        codes(res@) == fields@.map_values(|f: FieldDef| default_assert_text(f)),
        forall|i: int| 0 <= i < res@.len() ==> (#[trigger] res@[i]).1 == Site::FieldType(i as usize),
{
    let mut res: Vec<(String, Site)> = Vec::new();
    let n = fields.len();
    for i in 0..n
        invariant
            n == fields@.len(),
            codes(res@) == fields@.take(i as int).map_values(|f: FieldDef| default_assert_text(f)),
            forall|k: int| 0 <= k < res@.len() ==> (#[trigger] res@[k]).1 == Site::FieldType(k as usize),
    {
        let f = &fields[i];
        let name = snake_to_capitalized(name_text_of(f));
        let mut s = String::new();
        s.append("struct __");
        s.append(name.as_str());
        s.append("DefaultAssertion where ");
        s.append(f.ty.as_str());
        s.append(": core::default::Default;");
        let ghost prev = res@;
        let ghost code = s@;
        res.push((s, Site::FieldType(i)));
        proof {
            let g = |f: FieldDef| default_assert_text(f);
            assert(code =~= g(fields@[i as int]));
            assert(codes(res@) =~= codes(prev).push(code));
            assert(fields@.take(i + 1).map_values(g) =~= fields@.take(i as int).map_values(g).push(
                g(fields@[i as int]),
            ));
        }
    }
    proof {
        assert(fields@.take(n as int) =~= fields@);
    }
    res
}

} // verus!
