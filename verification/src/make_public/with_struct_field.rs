//! The same attribute for structs with named or unnamed fields: every field
//! becomes `pub name: Type`, or `pub Type` in a tuple struct.

use vstd::prelude::*;
use crate::model::{DataDef, DeriveDef, FieldDef, FieldsDef};
use crate::text::{append_each, concat_each};
use crate::tokens::views;

verus! {

/// A field: its name (none in a tuple struct) and its type.
#[derive(Debug)]
pub struct StructField {
    pub name: Option<String>,
    pub ty: String,
}

/// A public field: `pub name: Type`, or `pub Type` without a name.
pub open spec fn public_field_text(name: Option<String>, ty: Seq<char>) -> Seq<char> {
    match name {
        Some(n) => "pub "@ + n@ + ": "@ + ty,
        None => "pub "@ + ty,
    }
}

/// The item is a struct with named or unnamed fields.
pub open spec fn has_fields(item: DeriveDef) -> bool {
    item.data matches DataDef::Struct(fs) && !(fs is Unit)
}

/// What the attribute writes: the struct, braced or tuple-shaped as it was,
/// with every field public.
pub open spec fn spec_public(item: DeriveDef) -> Seq<char> {
    match item.data {
        DataDef::Struct(FieldsDef::Named(v)) => "pub struct "@ + item.name@ + " { "@ + concat_each(
            v@.map_values(|f: FieldDef| public_field_text(f.name, f.ty@)),
            ", "@,
        ) + "}"@,
        DataDef::Struct(FieldsDef::Unnamed(v)) => "pub struct "@ + item.name@ + " ( "@ + concat_each(
            v@.map_values(|f: FieldDef| public_field_text(f.name, f.ty@)),
            ", "@,
        ) + ");"@,
        _ => Seq::empty(),
    }
}

/// Every field is made public and keeps its name and type: a braced struct
/// becomes `pub struct Name { pub a: A, .. }`, a tuple struct
/// `pub struct Name ( pub A, .. );`.
pub proof fn every_field_becomes_public(item: DeriveDef, v: Vec<FieldDef>)
    ensures
        item.data == DataDef::Struct(FieldsDef::Named(v)) && (forall|i: int| 0 <= i < v@.len() ==> (#[trigger] v@[i]).name is Some)
            ==> spec_public(item) == "pub struct "@ + item.name@ + " { "@
            + concat_each(v@.map_values(|f: FieldDef| "pub "@ + f.name_text() + ": "@ + f.ty@), ", "@) + "}"@,
        item.data == DataDef::Struct(FieldsDef::Unnamed(v)) && (forall|i: int| 0 <= i < v@.len() ==> (#[trigger] v@[i]).name is None)
            ==> spec_public(item) == "pub struct "@ + item.name@ + " ( "@
            + concat_each(v@.map_values(|f: FieldDef| "pub "@ + f.ty@), ", "@) + ");"@,
{
    if forall|i: int| 0 <= i < v@.len() ==> (#[trigger] v@[i]).name is Some {
        assert(v@.map_values(|f: FieldDef| public_field_text(f.name, f.ty@)) =~= v@.map_values(
            |f: FieldDef| "pub "@ + f.name_text() + ": "@ + f.ty@,
        ));
    }
    if forall|i: int| 0 <= i < v@.len() ==> (#[trigger] v@[i]).name is None {
        assert(v@.map_values(|f: FieldDef| public_field_text(f.name, f.ty@)) =~= v@.map_values(
            |f: FieldDef| "pub "@ + f.ty@,
        ));
    }
}

impl StructField {
    /// The name and the type of a field.
    pub fn new(field: &FieldDef) -> (res: Self)
        ensures
            res.name == field.name,
            res.ty == field.ty,
    {
        let name = match &field.name {
            Some(n) => Some(n.clone()),
            None => None,
        };
        StructField { name, ty: field.ty.clone() }
    }

    /// `pub name: Type`, or `pub Type` without a name.
    pub fn to_tokens(&self) -> (res: String)
        ensures
            res@ == public_field_text(self.name, self.ty@),
    {
        let mut s = String::from_str("pub ");
        match &self.name {
            Some(n) => {
                s.append(n.as_str());
                s.append(": ");
            },
            None => {},
        }
        s.append(self.ty.as_str());
        assert(s@ =~= public_field_text(self.name, self.ty@));
        s
    }
}

/// Every field as public text.
fn public_fields(fields: &Vec<FieldDef>) -> (res: Vec<String>)
    ensures
        views(res@) == fields@.map_values(|f: FieldDef| public_field_text(f.name, f.ty@)),
{
    let n = fields.len();
    let mut out: Vec<String> = Vec::new();
    for i in 0..n
        invariant
            n == fields@.len(),
            views(out@) == fields@.take(i as int).map_values(|f: FieldDef| public_field_text(f.name, f.ty@)),
    {
        let s = StructField::new(&fields[i]).to_tokens();
        let ghost prev = out@;
        out.push(s);
        proof {
            let g = |f: FieldDef| public_field_text(f.name, f.ty@);
            assert(s@ =~= g(fields@[i as int]));
            assert(views(out@) =~= views(prev).push(s@));
            assert(fields@.take(i + 1).map_values(g) =~= fields@.take(i as int).map_values(g).push(
                g(fields@[i as int]),
            ));
        }
    }
    proof {
        assert(fields@.take(n as int) =~= fields@);
    }
    out
}

/// Makes every field of a struct public, keeping the struct's shape.
pub fn public(item: &DeriveDef) -> (res: String)
    requires
        has_fields(*item),
    ensures
        res@ == spec_public(*item),
{
    match &item.data {
        DataDef::Struct(FieldsDef::Named(v)) => {
            let fields = public_fields(v);
            let mut out = String::from_str("pub struct ");
            out.append(item.name.as_str());
            out.append(" { ");
            append_each(&mut out, &fields, ", ");
            out.append("}");
            assert(out@ =~= spec_public(*item));
            out
        },
        DataDef::Struct(FieldsDef::Unnamed(v)) => {
            let fields = public_fields(v);
            let mut out = String::from_str("pub struct ");
            out.append(item.name.as_str());
            out.append(" ( ");
            append_each(&mut out, &fields, ", ");
            out.append(");");
            assert(out@ =~= spec_public(*item));
            out
        },
        _ => vstd::pervasive::unreached(),
    }
}

} // verus!
