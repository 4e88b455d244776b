//! A function-like macro that takes a struct with named fields and writes it
//! with private fields, a getter `get_<field>` per field and a `hello` method.

use vstd::prelude::*;
use crate::builder::fields::name_text_of;
use crate::model::{named_fields_of, DeriveDef, FieldDef};
use crate::text::{append_each, concat_each};
use crate::tokens::views;

verus! {

/// The name and the type of every field, as text.
pub open spec fn field_info(fields: Seq<FieldDef>) -> Seq<(Seq<char>, Seq<char>)> {
    fields.map_values(|f: FieldDef| (f.name_text(), f.ty@))
}

/// `name: Type`.
pub open spec fn private_field_text(field: (Seq<char>, Seq<char>)) -> Seq<char> {
    field.0 + ": "@ + field.1
}

/// `fn get_name(&self) -> &Type { &self.name }`.
pub open spec fn getter_text(field: (Seq<char>, Seq<char>)) -> Seq<char> {
    "fn get_"@ + field.0 + "(&self) -> &"@ + field.1 + " { &self."@ + field.0 + " }"@
}

/// What the macro writes: the struct with private fields, and its getters
/// and `hello` method.
pub open spec fn spec_private(item: DeriveDef) -> Seq<char> {
    let info = field_info(item.named_fields());
    "pub struct "@ + item.name@ + " { "@ + concat_each(info.map_values(|f: (Seq<char>, Seq<char>)| private_field_text(f)), ", "@)
        + "} impl "@ + item.name@ + " { "@
        + concat_each(info.map_values(|f: (Seq<char>, Seq<char>)| getter_text(f)), " "@)
        + "pub fn hello(&self) { println!(\"Hello, World\"); } }"@
}

/// The name and the type of every field of a struct with named fields.
pub fn get_field_info(ast: &DeriveDef) -> (res: Vec<(String, String)>)
    requires
        ast.is_named_struct(),
        ast.names_present(),
    ensures
        res@.map_values(|p: (String, String)| (p.0@, p.1@)) == field_info(ast.named_fields()),
{
    let fields = named_fields_of(ast);
    let n = fields.len();
    let mut res: Vec<(String, String)> = Vec::new();
    for i in 0..n
        invariant
            n == fields@.len(),
            res@.map_values(|p: (String, String)| (p.0@, p.1@)) == field_info(fields@.take(i as int)),
    {
        let f = &fields[i];
        let ghost prev = res@;
        res.push((name_text_of(f), f.ty.clone()));
        proof {
            let g = |p: (String, String)| (p.0@, p.1@);
            assert(res@.map_values(g) =~= prev.map_values(g).push((f.name_text(), f.ty@)));
            assert(field_info(fields@.take(i + 1)) =~= field_info(fields@.take(i as int)).push(
                (fields@[i as int].name_text(), fields@[i as int].ty@),
            ));
        }
    }
    proof {
        assert(fields@.take(n as int) =~= fields@);
    }
    res
}

/// `name: Type` for every field.
pub fn generate_private_fields(fields: &Vec<(String, String)>) -> (res: Vec<String>)
    ensures
        views(res@) == fields@.map_values(|p: (String, String)| private_field_text((p.0@, p.1@))),
{
    let n = fields.len();
    let mut res: Vec<String> = Vec::new();
    for i in 0..n
        invariant
            n == fields@.len(),
            views(res@) == fields@.take(i as int).map_values(|p: (String, String)| private_field_text((p.0@, p.1@))),
    {
        let (field_name, field_type) = &fields[i];
        let mut s = field_name.clone();
        s.append(": ");
        s.append(field_type.as_str());
        let ghost prev = res@;
        res.push(s);
        proof {
            let g = |p: (String, String)| private_field_text((p.0@, p.1@));
            assert(s@ =~= g(fields@[i as int]));
            assert(views(res@) =~= views(prev).push(s@));
            assert(fields@.take(i + 1).map_values(g) =~= fields@.take(i as int).map_values(g).push(
                g(fields@[i as int]),
            ));
        }
    }
    proof {
        assert(fields@.take(n as int) =~= fields@);
    }
    res
}

/// A getter `get_name` for every field.
pub fn generate_methods(fields: &Vec<(String, String)>) -> (res: Vec<String>)
    ensures
        views(res@) == fields@.map_values(|p: (String, String)| getter_text((p.0@, p.1@))),
{
    let n = fields.len();
    let mut res: Vec<String> = Vec::new();
    for i in 0..n
        invariant
            n == fields@.len(),
            views(res@) == fields@.take(i as int).map_values(|p: (String, String)| getter_text((p.0@, p.1@))),
    {
        let (field_name, field_type) = &fields[i];
        let mut s = String::from_str("fn get_");
        s.append(field_name.as_str());
        s.append("(&self) -> &");
        s.append(field_type.as_str());
        s.append(" { &self.");
        s.append(field_name.as_str());
        s.append(" }");
        let ghost prev = res@;
        res.push(s);
        proof {
            let g = |p: (String, String)| getter_text((p.0@, p.1@));
            assert(s@ =~= g(fields@[i as int]));
            assert(views(res@) =~= views(prev).push(s@));
            assert(fields@.take(i + 1).map_values(g) =~= fields@.take(i as int).map_values(g).push(
                g(fields@[i as int]),
            ));
        }
    }
    proof {
        assert(fields@.take(n as int) =~= fields@);
    }
    res
}

/// Every named field `n: T` of the struct is written private, as `n: T`, and
/// gets a getter `fn get_n(&self) -> &T { &self.n }`: the impl holds exactly
/// one getter per field, in field order, followed by `hello`.
pub proof fn one_getter_per_field(item: DeriveDef)
    ensures
        spec_private(item) == "pub struct "@ + item.name@ + " { "@ + concat_each(
            item.named_fields().map_values(|f: FieldDef| f.name_text() + ": "@ + f.ty@),
            ", "@,
        ) + "} impl "@ + item.name@ + " { "@ + concat_each(
            item.named_fields().map_values(
                |f: FieldDef| "fn get_"@ + f.name_text() + "(&self) -> &"@ + f.ty@ + " { &self."@ + f.name_text() + " }"@,
            ),
            " "@,
        ) + "pub fn hello(&self) { println!(\"Hello, World\"); } }"@,
{
    let fs = item.named_fields();
    let info = field_info(fs);
    assert(info.map_values(|f: (Seq<char>, Seq<char>)| private_field_text(f)) =~= fs.map_values(
        |f: FieldDef| f.name_text() + ": "@ + f.ty@,
    ));
    assert(info.map_values(|f: (Seq<char>, Seq<char>)| getter_text(f)) =~= fs.map_values(
        |f: FieldDef| "fn get_"@ + f.name_text() + "(&self) -> &"@ + f.ty@ + " { &self."@ + f.name_text() + " }"@,
    ));
}

/// Writes the struct with private fields, a getter per field and `hello`.
pub fn private(item: &DeriveDef) -> (res: String)
    requires
        item.is_named_struct(),
        item.names_present(),
    ensures
        res@ == spec_private(*item),
{
    let fields = get_field_info(item);
    let private_fields = generate_private_fields(&fields);
    let methods = generate_methods(&fields);
    proof {
        let g = |p: (String, String)| (p.0@, p.1@);
        let info = field_info(item.named_fields());
        assert(views(private_fields@) =~= info.map_values(|f: (Seq<char>, Seq<char>)| private_field_text(f))) by {
            assert forall|i: int| 0 <= i < info.len() implies views(private_fields@)[i]
                == private_field_text(info[i]) by {
                assert(fields@.map_values(g)[i] == info[i]);
            }
        }
        assert(views(methods@) =~= info.map_values(|f: (Seq<char>, Seq<char>)| getter_text(f))) by {
            assert forall|i: int| 0 <= i < info.len() implies views(methods@)[i] == getter_text(info[i]) by {
                assert(fields@.map_values(g)[i] == info[i]);
            }
        }
    }
    let mut out = String::from_str("pub struct ");
    out.append(item.name.as_str());
    out.append(" { ");
    append_each(&mut out, &private_fields, ", ");
    out.append("} impl ");
    out.append(item.name.as_str());
    out.append(" { ");
    append_each(&mut out, &methods, " ");
    out.append("pub fn hello(&self) { println!(\"Hello, World\"); } }");
    assert(out@ =~= spec_private(*item));
    out
}

} // verus!
