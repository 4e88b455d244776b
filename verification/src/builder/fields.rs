//! The pieces of a builder: one per field of the original struct.

use vstd::prelude::*;
use crate::model::FieldDef;
use crate::syntax::{renders, string_literal_text};
use crate::tokens::{str_is, views};

verus! {

/// `name: Option<Type>`: the builder's field for `f`.
pub open spec fn field_definition_text(f: FieldDef) -> Seq<char> {
    f.name_text() + ": Option<"@ + f.ty@ + ">"@
}

/// `name: None`: the builder's initial value for `f`.
pub open spec fn field_init_text(f: FieldDef) -> Seq<char> {
    f.name_text() + ": None"@
}

/// The builder's setter for `f`, which stores the value and returns the builder.
pub open spec fn setter_text(f: FieldDef) -> Seq<char> {
    "pub fn "@ + f.name_text() + "(&mut self, input: "@ + f.ty@ + ") -> &mut Self { self."@
        + f.name_text() + " = Some(input); self }"@
}

/// `expect(&format!("{} is not set", "name"))`: takes the value out of the
/// builder's option, failing with the field's name when it is unset; `lit`
/// is the text of the name's string literal.
pub open spec fn expect_text(lit: Seq<char>) -> Seq<char> {
    "expect(&format!(\"{} is not set\", "@ + lit + "))"@
}

/// The type of `f` is a path whose first segment is `expected`.
pub open spec fn type_is(f: FieldDef, expected: Seq<char>) -> bool {
    f.ty_path_head matches Some(h) && h@ == expected
}

/// `name: self.name.<take>`: how `build` fills `f`; a `String` field is
/// cloned out of the option, any other field is moved out (`lit` is the
/// text of the name's string literal).
pub open spec fn struct_setter_text(f: FieldDef, lit: Seq<char>) -> Seq<char> {
    let n = f.name_text();
    n + ": self."@ + n + "."@ + if type_is(f, "String"@) {
        "as_ref()."@ + expect_text(lit) + ".to_string()"@
    } else {
        expect_text(lit)
    }
}

/// `t` is how `build` fills `f`, for some text of the name's literal.
pub open spec fn is_struct_setter(t: Seq<char>, f: FieldDef) -> bool {
    exists|lit: Seq<char>| #[trigger] renders(lit, f.name_text()) && t == struct_setter_text(f, lit)
}

/// The name and the type of a field.
pub fn get_name_and_type(f: &FieldDef) -> (res: (&Option<String>, &String))
    ensures
        *res.0 == f.name,
        *res.1 == f.ty,
{
    (&f.name, &f.ty)
}

/// Whether the type of `f` is a path whose first segment is `expected`.
pub fn matches_type(f: &FieldDef, expected: &str) -> (res: bool)
    ensures
        res == type_is(*f, expected@),
{
    match &f.ty_path_head {
        Some(h) => str_is(h, expected),
        None => false,
    }
}

/// The field's name as text, empty for a tuple-struct field.
pub fn name_text_of(f: &FieldDef) -> (res: String)
    ensures
        res@ == f.name_text(),
{
    match &f.name {
        Some(n) => n.clone(),
        None => String::new(),
    }
}

/// `name: Option<Type>` for every field.
pub fn builder_field_definitions(fields: &Vec<FieldDef>) -> (res: Vec<String>)
    ensures
        views(res@) == fields@.map_values(|f: FieldDef| field_definition_text(f)),
{
    let mut res: Vec<String> = Vec::new();
    let n = fields.len();
    for i in 0..n
        invariant
            n == fields@.len(),
            views(res@) == fields@.take(i as int).map_values(|f: FieldDef| field_definition_text(f)),
    {
        let f = &fields[i];
        let mut s = name_text_of(f);
        s.append(": Option<");
        s.append(f.ty.as_str());
        s.append(">");
        let ghost prev = res@;
        res.push(s);
        proof {
            assert(s@ == field_definition_text(fields@[i as int]));
            assert(views(res@) =~= views(prev).push(s@));
            assert(fields@.take(i + 1).map_values(|f: FieldDef| field_definition_text(f)) =~= fields@.take(
                i as int,
            ).map_values(|f: FieldDef| field_definition_text(f)).push(field_definition_text(fields@[i as int])));
        }
    }
    proof {
        assert(fields@.take(n as int) =~= fields@);
    }
    res
}

/// `name: None` for every field.
pub fn builder_inits_values(fields: &Vec<FieldDef>) -> (res: Vec<String>)
    ensures
        views(res@) == fields@.map_values(|f: FieldDef| field_init_text(f)),
{
    let mut res: Vec<String> = Vec::new();
    let n = fields.len();
    for i in 0..n
        invariant
            n == fields@.len(),
            views(res@) == fields@.take(i as int).map_values(|f: FieldDef| field_init_text(f)),
    {
        let mut s = name_text_of(&fields[i]);
        s.append(": None");
        let ghost prev = res@;
        res.push(s);
        proof {
            assert(s@ == field_init_text(fields@[i as int]));
            assert(views(res@) =~= views(prev).push(s@));
            assert(fields@.take(i + 1).map_values(|f: FieldDef| field_init_text(f)) =~= fields@.take(
                i as int,
            ).map_values(|f: FieldDef| field_init_text(f)).push(field_init_text(fields@[i as int])));
        }
    }
    proof {
        assert(fields@.take(n as int) =~= fields@);
    }
    res
}

/// A setter `pub fn name(&mut self, input: Type) -> &mut Self` for every field.
pub fn builder_methods(fields: &Vec<FieldDef>) -> (res: Vec<String>)
    ensures
        views(res@) == fields@.map_values(|f: FieldDef| setter_text(f)),
{
    let mut res: Vec<String> = Vec::new();
    let n = fields.len();
    for i in 0..n
        invariant
            n == fields@.len(),
            views(res@) == fields@.take(i as int).map_values(|f: FieldDef| setter_text(f)),
    {
        let f = &fields[i];
        let name = name_text_of(f);
        let mut s = String::new();
        s.append("pub fn ");
        s.append(name.as_str());
        s.append("(&mut self, input: ");
        s.append(f.ty.as_str());
        s.append(") -> &mut Self { self.");
        s.append(name.as_str());
        s.append(" = Some(input); self }");
        assert(s@ =~= setter_text(*f));
        let ghost prev = res@;
        res.push(s);
        proof {
            assert(s@ == setter_text(fields@[i as int]));
            assert(views(res@) =~= views(prev).push(s@));
            assert(fields@.take(i + 1).map_values(|f: FieldDef| setter_text(f)) =~= fields@.take(
                i as int,
            ).map_values(|f: FieldDef| setter_text(f)).push(setter_text(fields@[i as int])));
        }
    }
    proof {
        assert(fields@.take(n as int) =~= fields@);
    }
    res
}

/// `expect(&format!("{} is not set", "name"))`.
pub fn expect_for(name: &String) -> (res: String)
    ensures
        exists|lit: Seq<char>| #[trigger] renders(lit, name@) && res@ == expect_text(lit),
{
    let lit = string_literal_text(name.as_str());
    let mut s = String::new();
    s.append("expect(&format!(\"{} is not set\", ");
    s.append(lit.as_str());
    s.append("))");
    assert(s@ =~= expect_text(lit@));
    assert(renders(lit@, name@));
    s
}

/// How `build` fills every field: `String` fields are cloned out of the
/// builder, other fields are moved out; an unset field fails with its name.
pub fn original_struct_setters(fields: &Vec<FieldDef>) -> (res: Vec<String>)
    requires
        forall|i: int| 0 <= i < fields@.len() ==> (#[trigger] fields@[i]).name is Some,
    ensures
        res@.len() == fields@.len(),
        forall|i: int| 0 <= i < fields@.len() ==> #[trigger] is_struct_setter(res@[i]@, fields@[i]),
{
    let mut res: Vec<String> = Vec::new();
    let n = fields.len();
    for i in 0..n
        invariant
            n == fields@.len(),
            res@.len() == i,
            forall|k: int| 0 <= k < i ==> #[trigger] is_struct_setter(res@[k]@, fields@[k]),
    {
        let f = &fields[i];
        let name = name_text_of(f);
        let error = expect_for(&name);
        let ghost lit = choose|lit: Seq<char>| #[trigger] renders(lit, name@) && error@ == expect_text(lit);
        let mut s = String::new();
        s.append(name.as_str());
        s.append(": self.");
        s.append(name.as_str());
        s.append(".");
        if matches_type(f, "String") {
            s.append("as_ref().");
            s.append(error.as_str());
            s.append(".to_string()");
        } else {
            s.append(error.as_str());
        }
        assert(s@ =~= struct_setter_text(*f, lit));
        assert(is_struct_setter(s@, fields@[i as int]));
        res.push(s);
    }
    res
}

} // verus!
