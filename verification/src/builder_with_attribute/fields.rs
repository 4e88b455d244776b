//! The pieces of the builder whose setters can be renamed with
//! `#[rename("..")]` or `#[rename = ".."]`.

use vstd::prelude::*;
use crate::attrs::{extract_attribute_from_field as find_field_attribute, first_attr, lit_str_at};
use crate::builder::fields::{field_definition_text, field_init_text, name_text_of};
use crate::builder_exercise::fields::{opt_view_eq, owned_setter_text, panic_fallback, panic_fallback_text};
use crate::model::{AttrDef, FieldDef, Meta};
use crate::syntax::{lit_str_value, renders, syn_lit_str_value};
use crate::tokens::{views, Tok};

pub use crate::builder::fields::get_name_and_type;

verus! {

/// The value of an attribute's arguments when they are exactly one string
/// literal.
pub open spec fn single_str(toks: Seq<Tok>) -> Option<Seq<char>> {
    if toks.len() == 1 {
        lit_str_at(toks, 0)
    } else {
        None
    }
}

/// The name of the setter for `f`: the string of its first `#[rename("..")]`
/// or `#[rename = ".."]` attribute, else the field's name; `None` when that
/// attribute holds anything else (where the derive fails).
pub open spec fn setter_name(f: FieldDef) -> Option<Seq<char>> {
    match first_attr(f.attrs@, "rename"@) {
        None => Some(f.name_text()),
        Some(a) => match a.meta {
            Meta::List(_, t) => single_str(t@),
            Meta::NameValue(v) => single_str(v@),
            Meta::Path => None,
        },
    }
}

/// `#[rename = "x"]` and `#[rename("x")]` name the same setter: two fields
/// alike in name whose first `rename` attributes hold the same tokens, one
/// after `=` and one in brackets, get the same setter name, which is the
/// string when the tokens are one string literal.
pub proof fn rename_forms_agree(f: FieldDef, g: FieldDef)
    requires
        f.name == g.name,
        first_attr(f.attrs@, "rename"@) matches Some(a) && a.meta matches Meta::NameValue(v)
            && first_attr(g.attrs@, "rename"@) matches Some(b) && b.meta matches Meta::List(_, t)
            && v@ == t@,
    ensures
        setter_name(f) == setter_name(g),
        first_attr(f.attrs@, "rename"@) matches Some(a) && a.meta matches Meta::NameValue(v)
            && single_str(v@) matches Some(n) ==> setter_name(f) == Some(n),
{
}

/// A field without `#[rename]` gets a setter named after itself.
pub proof fn unrenamed_setter_keeps_the_field_name(f: FieldDef)
    requires
        first_attr(f.attrs@, "rename"@) is None,
    ensures
        setter_name(f) == Some(f.name_text()),
{
}

/// With `#[rename("x")]` or `#[rename = "x"]`, one string literal, the
/// setter is named `x`, the literal's value.
pub proof fn setter_named_by_rename(f: FieldDef, a: AttrDef, l: String, v: Seq<char>)
    requires
        first_attr(f.attrs@, "rename"@) == Some(a),
        syn_lit_str_value(l@) == Some(v),
    ensures
        a.meta is List && a.meta->List_1@ == seq![Tok::Literal(l)] ==> setter_name(f) == Some(v),
        a.meta is NameValue && a.meta->NameValue_0@ == seq![Tok::Literal(l)] ==> setter_name(f) == Some(v),
{
}

/// A bare `#[rename]`, and a `rename` holding anything but one string
/// literal, name no setter: the derive is refused for such a field.
pub proof fn unreadable_renames_name_no_setter(f: FieldDef)
    requires
        first_attr(f.attrs@, "rename"@) is Some,
    ensures
        first_attr(f.attrs@, "rename"@)->Some_0.meta is Path ==> setter_name(f) is None,
        first_attr(f.attrs@, "rename"@)->Some_0.meta matches Meta::NameValue(v) && single_str(v@) is None
            ==> setter_name(f) is None,
        first_attr(f.attrs@, "rename"@)->Some_0.meta matches Meta::List(_, t) && single_str(t@) is None
            ==> setter_name(f) is None,
{
}

/// How `build` fills `f`: the builder's value, failing with the field's name
/// when it is unset.
pub open spec fn expecting_setter_text(f: FieldDef, lit: Seq<char>) -> Seq<char> {
    let n = f.name_text();
    n + ": self."@ + n + "."@ + panic_fallback_text(lit)
}

/// `t` fills `f` as [`expecting_setter_text`] says, for some text of the
/// name's string literal.
pub open spec fn is_expecting_setter(t: Seq<char>, f: FieldDef) -> bool {
    exists|lit: Seq<char>| #[trigger] renders(lit, f.name_text()) && t == expecting_setter_text(f, lit)
}

/// `setters` fill the fields `fs` one by one as [`expecting_setter_text`]
/// says, for some text of each name's string literal.
pub open spec fn are_expecting_setters(setters: Seq<Seq<char>>, fs: Seq<FieldDef>) -> bool {
    &&& setters.len() == fs.len()
    &&& forall|i: int| 0 <= i < fs.len() ==> #[trigger] is_expecting_setter(setters[i], fs[i])
}

/// `name: Option<Type>` for every field.
pub fn builder_field_definitions(fields: &Vec<FieldDef>) -> (res: Vec<String>)
    ensures
        views(res@) == fields@.map_values(|f: FieldDef| field_definition_text(f)),
{
    crate::builder::fields::builder_field_definitions(fields)
}

/// `name: None` for every field.
pub fn builder_inits_values(fields: &Vec<FieldDef>) -> (res: Vec<String>)
    ensures
        views(res@) == fields@.map_values(|f: FieldDef| field_init_text(f)),
{
    crate::builder::fields::builder_inits_values(fields)
}

/// The first attribute of `f` whose path is the identifier `name`.
pub fn extract_attribute_from_field<'a>(f: &'a FieldDef, name: &str) -> (res: Option<&'a AttrDef>)
    ensures
        match res {
            Some(a) => first_attr(f.attrs@, name@) == Some(*a),
            None => first_attr(f.attrs@, name@) is None,
        },
{
    find_field_attribute(f, name)
}

/// The value of arguments that are exactly one string literal.
fn single_str_of(toks: &Vec<Tok>) -> (res: Option<String>)
    ensures
        opt_view_eq(res, single_str(toks@)),
{
    if toks.len() == 1 {
        match &toks[0] {
            Tok::Literal(l) => lit_str_value(l.as_str()),
            _ => None,
        }
    } else {
        None
    }
}

/// The name of the setter for `f`, or `None` when its `#[rename]` attribute
/// holds something other than one string.
pub fn setter_name_of(f: &FieldDef) -> (res: Option<String>)
    ensures
        opt_view_eq(res, setter_name(*f)),
{
    match extract_attribute_from_field(f, "rename") {
        None => Some(name_text_of(f)),
        Some(a) => match &a.meta {
            Meta::List(_, t) => single_str_of(t),
            Meta::NameValue(v) => single_str_of(v),
            Meta::Path => None,
        },
    }
}

/// A consuming setter for every field, named after the field or after its
/// `#[rename]` attribute.
pub fn builder_methods(fields: &Vec<FieldDef>) -> (res: Vec<String>)
    requires
        forall|i: int| 0 <= i < fields@.len() ==> setter_name(#[trigger] fields@[i]) is Some,
    ensures
        views(res@) == fields@.map_values(|f: FieldDef| owned_setter_text(setter_name(f)->Some_0, f)),
{
    let mut res: Vec<String> = Vec::new();
    let n = fields.len();
    for i in 0..n
        invariant
            n == fields@.len(),
            forall|i: int| 0 <= i < fields@.len() ==> setter_name(#[trigger] fields@[i]) is Some,
            views(res@) == fields@.take(i as int).map_values(
                |f: FieldDef| owned_setter_text(setter_name(f)->Some_0, f),
            ),
    {
        let f = &fields[i];
        assert(setter_name(fields@[i as int]) is Some);
        let method = match setter_name_of(f) {
            Some(m) => m,
            None => vstd::pervasive::unreached(),
        };
        let name = name_text_of(f);
        let mut s = String::new();
        s.append("pub fn ");
        s.append(method.as_str());
        s.append("(mut self, input: ");
        s.append(f.ty.as_str());
        s.append(") -> Self { self.");
        s.append(name.as_str());
        s.append(" = Some(input); self }");
        let ghost prev = res@;
        res.push(s);
        proof {
            let g = |f: FieldDef| owned_setter_text(setter_name(f)->Some_0, f);
            assert(s@ =~= g(fields@[i as int]));
            assert(views(res@) =~= views(prev).push(s@));
            assert(fields@.take(i + 1).map_values(g) =~= fields@.take(i as int).map_values(g).push(
                g(fields@[i as int]),
            ));
        }
    }
    proof {
        assert(fields@.take(n as int) =~= fields@);
    }
    res
}

/// The setters of every field, or `None` when the `#[rename]` attribute of
/// some field holds something other than one string (where the derive fails).
pub fn try_builder_methods(fields: &Vec<FieldDef>) -> (res: Option<Vec<String>>)
    ensures
        match res {
            Some(v) => (forall|i: int| 0 <= i < fields@.len() ==> setter_name(#[trigger] fields@[i]) is Some)
                && views(v@) == fields@.map_values(|f: FieldDef| owned_setter_text(setter_name(f)->Some_0, f)),
            None => exists|i: int| 0 <= i < fields@.len() && setter_name(#[trigger] fields@[i]) is None,
        },
{
    let n = fields.len();
    for i in 0..n
        invariant
            n == fields@.len(),
            forall|k: int| 0 <= k < i ==> setter_name(#[trigger] fields@[k]) is Some,
    {
        if setter_name_of(&fields[i]).is_none() {
            assert(setter_name(fields@[i as int]) is None);
            return None;
        }
    }
    Some(builder_methods(fields))
}

/// How `build` fills every field: the builder's value, failing with the
/// field's name when it is unset.
pub fn original_struct_setters(fields: &Vec<FieldDef>) -> (res: Vec<String>)
    requires
        forall|i: int| 0 <= i < fields@.len() ==> (#[trigger] fields@[i]).name is Some,
    ensures
        are_expecting_setters(views(res@), fields@),
{
    let mut res: Vec<String> = Vec::new();
    let n = fields.len();
    for i in 0..n
        invariant
            n == fields@.len(),
            are_expecting_setters(views(res@), fields@.take(i as int)),
    {
        let f = &fields[i];
        let name = name_text_of(f);
        let handle = panic_fallback(name.clone());
        let ghost lit = choose|lit: Seq<char>| #[trigger] renders(lit, name@) && handle@ == panic_fallback_text(lit);
        let mut s = String::new();
        s.append(name.as_str());
        s.append(": self.");
        s.append(name.as_str());
        s.append(".");
        s.append(handle.as_str());
        let ghost prev = res@;
        res.push(s);
        proof {
            assert(s@ =~= expecting_setter_text(fields@[i as int], lit));
            assert(views(res@) =~= views(prev).push(s@));
            let fs = fields@.take(i + 1);
            assert forall|k: int| 0 <= k < fs.len() implies #[trigger] is_expecting_setter(views(res@)[k], fs[k]) by {
                if k < i {
                    assert(fields@.take(i as int)[k] == fs[k]);
                    assert(views(prev)[k] == views(res@)[k]);
                    assert(is_expecting_setter(views(prev)[k], fields@.take(i as int)[k]));
                } else {
                    assert(renders(lit, fs[k].name_text()));
                }
            }
        }
    }
    proof {
        assert(fields@.take(n as int) =~= fields@);
    }
    res
}

} // verus!
