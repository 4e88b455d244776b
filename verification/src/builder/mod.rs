//! A derive macro that writes a builder for a struct with named fields:
//! a `<Name>Builder` struct with an optional slot per field, a setter per
//! field, a `build` method and a `builder()` constructor on the struct. A
//! struct without fields gets the empty builder struct alone.

pub mod fields;

use vstd::prelude::*;
use crate::model::{named_fields_of, DeriveDef, FieldDef};
use crate::text::{append_each, concat_each};
use crate::syntax::renders;
use crate::tokens::views;
use self::fields::{
    builder_field_definitions, builder_inits_values, builder_methods, expect_for, expect_text,
    field_definition_text, field_init_text, name_text_of, setter_text,
};

verus! {

/// `name: self.name.as_ref().expect(..).to_string()`: how this builder's
/// `build` fills a field, cloning it out of the builder.
pub open spec fn cloning_setter_text(f: FieldDef, lit: Seq<char>) -> Seq<char> {
    let n = f.name_text();
    n + ": self."@ + n + "."@ + "as_ref()."@ + expect_text(lit) + ".to_string()"@
}

/// `t` fills `f` by cloning it, for some text of the name's string literal.
pub open spec fn is_cloning_setter(t: Seq<char>, f: FieldDef) -> bool {
    exists|lit: Seq<char>| #[trigger] renders(lit, f.name_text()) && t == cloning_setter_text(f, lit)
}

/// `setters` fill the fields `fs` one by one, each cloning its field, for
/// some text of each name's string literal.
pub open spec fn are_cloning_setters(setters: Seq<Seq<char>>, fs: Seq<FieldDef>) -> bool {
    &&& setters.len() == fs.len()
    &&& forall|i: int| 0 <= i < fs.len() ==> #[trigger] is_cloning_setter(setters[i], fs[i])
}

/// The builder's type name: the struct's name followed by `Builder`.
pub open spec fn builder_name(name: Seq<char>) -> Seq<char> {
    name + "Builder"@
}

/// The code the derive writes for a struct with named fields, `build`
/// filling the fields with `setters`. For a struct without fields it is the
/// empty builder struct alone.
pub open spec fn spec_create_builder(def: DeriveDef, setters: Seq<Seq<char>>) -> Seq<char> {
    let name = def.name@;
    let b = builder_name(name);
    let fs = def.named_fields();
    if fs.len() == 0 {
        "struct "@ + b + " { }"@
    } else {
    "struct "@ + b + " { "@ + concat_each(fs.map_values(|f: FieldDef| field_definition_text(f)), ", "@)
        + "} impl "@ + b + " { "@ + concat_each(fs.map_values(|f: FieldDef| setter_text(f)), " "@)
        + "pub fn build(&self) -> "@ + name + " { "@ + name + " { "@
        + concat_each(setters, ", "@)
        + "} } } impl "@ + name + " { pub fn builder() -> "@ + b + " { "@ + b + " { "@
        + concat_each(fs.map_values(|f: FieldDef| field_init_text(f)), ", "@) + "} } }"@
    }
}

/// How `build` fills every field: each is cloned out of the builder, and an
/// unset field fails with its name.
fn original_struct_setters(fields: &Vec<FieldDef>) -> (res: Vec<String>)
    requires
        forall|i: int| 0 <= i < fields@.len() ==> (#[trigger] fields@[i]).name is Some,
    ensures
        are_cloning_setters(views(res@), fields@),
{
    let mut res: Vec<String> = Vec::new();
    let n = fields.len();
    for i in 0..n
        invariant
            n == fields@.len(),
            are_cloning_setters(views(res@), fields@.take(i as int)),
    {
        let f = &fields[i];
        let name = name_text_of(f);
        let error = expect_for(&name);
        let ghost lit = choose|lit: Seq<char>| #[trigger] renders(lit, name@) && error@ == expect_text(lit);
        let mut s = String::new();
        s.append(name.as_str());
        s.append(": self.");
        s.append(name.as_str());
        s.append(".");
        s.append("as_ref().");
        s.append(error.as_str());
        s.append(".to_string()");
        let ghost prev = res@;
        res.push(s);
        proof {
            assert(s@ =~= cloning_setter_text(fields@[i as int], lit));
            assert(views(res@) =~= views(prev).push(s@));
            let fs = fields@.take(i + 1);
            assert forall|k: int| 0 <= k < fs.len() implies #[trigger] is_cloning_setter(views(res@)[k], fs[k]) by {
                if k < i {
                    assert(fields@.take(i as int)[k] == fs[k]);
                    assert(views(prev)[k] == views(res@)[k]);
                    assert(is_cloning_setter(views(prev)[k], fields@.take(i as int)[k]));
                } else {
                    assert(renders(lit, fs[k].name_text()));
                }
            }
            assert(are_cloning_setters(views(res@), fs));
        }
    }
    proof {
        assert(fields@.take(n as int) =~= fields@);
    }
    res
}

/// Writes the builder for a struct with named fields (the only kind the
/// derive supports); a struct without fields gets the builder struct alone.
pub fn create_builder(item: &DeriveDef) -> (res: String)
    requires
        item.is_named_struct(),
        item.names_present(),
    ensures
        exists|setters: Seq<Seq<char>>| #[trigger] are_cloning_setters(setters, item.named_fields())
            && res@ == spec_create_builder(*item, setters),
{
    let name = &item.name;
    let mut builder = name.clone();
    builder.append("Builder");
    let fields = named_fields_of(item);
    if fields.len() == 0 {
        let mut out = String::from_str("struct ");
        out.append(builder.as_str());
        out.append(" { }");
        assert(out@ =~= spec_create_builder(*item, Seq::empty()));
        assert(are_cloning_setters(Seq::empty(), item.named_fields()));
        return out;
    }

    let builder_fields = builder_field_definitions(fields);
    let builder_inits = builder_inits_values(fields);
    let methods = builder_methods(fields);
    let original_struct_set_fields = original_struct_setters(fields);

    let mut out = String::new();
    out.append("struct ");
    out.append(builder.as_str());
    out.append(" { ");
    append_each(&mut out, &builder_fields, ", ");
    out.append("} impl ");
    out.append(builder.as_str());
    out.append(" { ");
    append_each(&mut out, &methods, " ");
    out.append("pub fn build(&self) -> ");
    out.append(name.as_str());
    out.append(" { ");
    out.append(name.as_str());
    out.append(" { ");
    append_each(&mut out, &original_struct_set_fields, ", ");
    out.append("} } } impl ");
    out.append(name.as_str());
    out.append(" { pub fn builder() -> ");
    out.append(builder.as_str());
    out.append(" { ");
    out.append(builder.as_str());
    out.append(" { ");
    append_each(&mut out, &builder_inits, ", ");
    out.append("} } }");
    assert(out@ =~= spec_create_builder(*item, views(original_struct_set_fields@)));
    assert(are_cloning_setters(views(original_struct_set_fields@), item.named_fields()));
    out
}

/// For a struct with fields, the derive writes `<Name>Builder` with an
/// `Option` slot per field, a setter per field that stores its input and
/// returns the builder, a `build` that fills the struct with the given lines
/// (see [`build_clones_each_field`]), and `builder()` starting with every
/// slot empty.
pub proof fn builder_has_one_piece_per_field(def: DeriveDef, setters: Seq<Seq<char>>)
    requires
        def.named_fields().len() > 0,
    ensures
        spec_create_builder(def, setters) == "struct "@ + def.name@ + "Builder"@ + " { "@ + concat_each(
            def.named_fields().map_values(|f: FieldDef| f.name_text() + ": Option<"@ + f.ty@ + ">"@),
            ", "@,
        ) + "} impl "@ + def.name@ + "Builder"@ + " { "@ + concat_each(
            def.named_fields().map_values(
                |f: FieldDef| "pub fn "@ + f.name_text() + "(&mut self, input: "@ + f.ty@ + ") -> &mut Self { self."@
                    + f.name_text() + " = Some(input); self }"@,
            ),
            " "@,
        ) + "pub fn build(&self) -> "@ + def.name@ + " { "@ + def.name@ + " { "@ + concat_each(setters, ", "@)
            + "} } } impl "@ + def.name@ + " { pub fn builder() -> "@ + def.name@ + "Builder"@ + " { "@ + def.name@
            + "Builder"@ + " { "@ + concat_each(
            def.named_fields().map_values(|f: FieldDef| f.name_text() + ": None"@),
            ", "@,
        ) + "} } }"@,
{
    let fs = def.named_fields();
    assert(fs.map_values(|f: FieldDef| field_definition_text(f)) =~= fs.map_values(
        |f: FieldDef| f.name_text() + ": Option<"@ + f.ty@ + ">"@,
    ));
    assert(fs.map_values(|f: FieldDef| setter_text(f)) =~= fs.map_values(
        |f: FieldDef| "pub fn "@ + f.name_text() + "(&mut self, input: "@ + f.ty@ + ") -> &mut Self { self."@
            + f.name_text() + " = Some(input); self }"@,
    ));
    assert(fs.map_values(|f: FieldDef| field_init_text(f)) =~= fs.map_values(|f: FieldDef| f.name_text() + ": None"@));
}

/// Each line of `build` clones its field out of the builder's slot and,
/// when the slot is empty, fails with a message naming the field:
/// `n: self.n.as_ref().expect(&format!("{} is not set", "n")).to_string()`.
pub proof fn build_clones_each_field(setters: Seq<Seq<char>>, fs: Seq<FieldDef>, i: int)
    requires
        are_cloning_setters(setters, fs),
        0 <= i < fs.len(),
    ensures
        exists|lit: Seq<char>| #[trigger] renders(lit, fs[i].name_text()) && setters[i] == fs[i].name_text() + ": self."@
            + fs[i].name_text() + "."@ + "as_ref()."@ + "expect(&format!(\"{} is not set\", "@ + lit + "))"@
            + ".to_string()"@,
{
    assert(is_cloning_setter(setters[i], fs[i]));
}

/// The builder's name, the struct's name followed by `Builder`, is present in
/// what the derive writes for every struct: the output opens with the
/// builder's definition, whatever `build` fills the fields with.
pub proof fn builder_name_is_present(def: DeriveDef, setters: Seq<Seq<char>>)
    ensures
        ("struct "@ + builder_name(def.name@)).is_prefix_of(spec_create_builder(def, setters)),
{
    let p = "struct "@ + builder_name(def.name@);
    let out = spec_create_builder(def, setters);
    assert(out.subrange(0, p.len() as int) =~= p);
}

} // verus!
