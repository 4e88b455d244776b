//! The same attribute, written with a parser of its own for each field:
//! every field becomes `pub name: Type`, where the type is a single
//! identifier.

use vstd::prelude::*;
use crate::model::{named_fields_of, DeriveDef, FieldDef};
use crate::text::{append_each, concat_each};
use crate::tokens::{
    ident_list_sep, is_ident_named, parse_ident_list_sep, tok_is_ident_named, views, Delimiter, Tok,
};
use super::{mod_path_at, mod_path_exec};

verus! {

/// A field as this attribute reads it: its name and its type.
#[derive(Debug)]
pub struct StructField {
    pub name: String,
    pub ty: String,
}

/// The contents of `pub(..)` that make a restricted visibility: `crate`,
/// `self` or `super` alone, or `in` followed by a path.
pub open spec fn is_restriction(c: Seq<Tok>) -> bool {
    ||| c.len() == 1 && (is_ident_named(c[0], "crate"@) || is_ident_named(c[0], "self"@)
        || is_ident_named(c[0], "super"@))
    ||| c.len() > 0 && is_ident_named(c[0], "in"@) && mod_path_at(c, 1).1
}

/// An empty group without delimiters (a visibility that matched nothing).
pub open spec fn is_empty_invisible(t: Tok) -> bool {
    t matches Tok::Group(d, inner) && d == Delimiter::Invisible && inner@.len() == 0
}

/// `(restriction)` of `pub(restriction)`.
pub open spec fn is_paren_restriction(t: Tok) -> bool {
    t matches Tok::Group(d, c) && d == Delimiter::Parenthesis && is_restriction(c@)
}

/// How many tokens a leading visibility takes: `pub`, `pub(restriction)`,
/// an empty invisible group, or nothing.
pub open spec fn vis_len(toks: Seq<Tok>) -> int {
    if toks.len() > 0 && is_empty_invisible(toks[0]) {
        1
    } else if toks.len() > 0 && is_ident_named(toks[0], "pub"@) {
        if toks.len() > 1 && is_paren_restriction(toks[1]) {
            2
        } else {
            1
        }
    } else {
        0
    }
}

/// The identifiers of a field after its visibility, separated by `:`.
pub open spec fn field_idents(toks: Seq<Tok>) -> Option<Seq<Seq<char>>> {
    ident_list_sep(toks.skip(vis_len(toks)), ':')
}

/// The field's tokens read as `[visibility] name : Type` with single
/// identifiers.
pub open spec fn is_simple_field(toks: Seq<Tok>) -> bool {
    field_idents(toks) matches Some(v) && v.len() >= 1
}

/// `pub name: Type`.
pub open spec fn struct_field_text(name: Seq<char>, ty: Seq<char>) -> Seq<char> {
    "pub "@ + name + ": "@ + ty
}

/// Whether `c` is the contents of a restricted visibility.
fn restriction_exec(c: &Vec<Tok>) -> (res: bool)
    ensures
        res == is_restriction(c@),
{
    if c.len() == 1 && (tok_is_ident_named(&c[0], "crate") || tok_is_ident_named(&c[0], "self")
        || tok_is_ident_named(&c[0], "super")) {
        return true;
    }
    if c.len() > 0 && tok_is_ident_named(&c[0], "in") {
        let (_, ok) = mod_path_exec(c, 1);
        return ok;
    }
    false
}

/// How many tokens the leading visibility takes.
fn vis_len_exec(toks: &Vec<Tok>) -> (res: usize)
    ensures
        res as int == vis_len(toks@),
        res <= toks@.len(),
{
    let n = toks.len();
    if n > 0 {
        match &toks[0] {
            Tok::Group(d, inner) => {
                if *d == Delimiter::Invisible && inner.len() == 0 {
                    return 1;
                }
            },
            _ => {},
        }
    }
    if n > 0 && tok_is_ident_named(&toks[0], "pub") {
        if n > 1 {
            match &toks[1] {
                Tok::Group(d, c) => {
                    if *d == Delimiter::Parenthesis && restriction_exec(c) {
                        return 2;
                    }
                },
                _ => {},
            }
        }
        return 1;
    }
    0
}

/// Whether the field's tokens read as `[visibility] name : Type` with single
/// identifiers.
pub fn reads_as_simple_field(toks: &Vec<Tok>) -> (res: bool)
    ensures
        res == is_simple_field(toks@),
{
    let start = vis_len_exec(toks);
    match parse_ident_list_sep(toks, start, ':') {
        Some(v) => v.len() >= 1,
        None => false,
    }
}

impl StructField {
    /// Reads a field written `[visibility] name : Type` with single
    /// identifiers: the first identifier is the name, the last the type.
    pub fn parse(input: &Vec<Tok>) -> (res: StructField)
        requires
            is_simple_field(input@),
        ensures
            field_idents(input@) matches Some(v) && res.name@ == v[0] && res.ty@ == v.last(),
    {
        let start = vis_len_exec(input);
        let list = parse_ident_list_sep(input, start, ':');
        match list {
            Some(v) => {
                let k = v.len();
                assert(views(v@)[0] == v@[0]@);
                assert(views(v@).last() == v@[k - 1]@);
                StructField { name: v[0].clone(), ty: v[k - 1].clone() }
            },
            None => vstd::pervasive::unreached(),
        }
    }

    /// `pub name: Type`.
    pub fn to_tokens(&self) -> (res: String)
        ensures
            res@ == struct_field_text(self.name@, self.ty@),
    {
        let mut s = String::from_str("pub ");
        s.append(self.name.as_str());
        s.append(": ");
        s.append(self.ty.as_str());
        assert(s@ =~= struct_field_text(self.name@, self.ty@));
        s
    }
}

/// The field as this attribute writes it: `pub name: Type`.
pub open spec fn parsed_field_text(f: FieldDef) -> Seq<char> {
    let v = field_idents(f.tokens@)->Some_0;
    struct_field_text(v[0], v.last())
}

/// What the attribute writes: the struct with every field public.
pub open spec fn spec_public(item: DeriveDef) -> Seq<char> {
    "pub struct "@ + item.name@ + " { "@
        + concat_each(item.named_fields().map_values(|f: FieldDef| parsed_field_text(f)), ", "@) + "}"@
}

/// Every field is written `pub name: Type`, with the first identifier read
/// after the field's visibility as its name and the last as its type, in
/// field order.
pub proof fn every_parsed_field_becomes_public(item: DeriveDef)
    ensures
        spec_public(item) == "pub struct "@ + item.name@ + " { "@ + concat_each(
            item.named_fields().map_values(
                |f: FieldDef| "pub "@ + field_idents(f.tokens@)->Some_0[0] + ": "@ + field_idents(f.tokens@)->Some_0.last(),
            ),
            ", "@,
        ) + "}"@,
{
    assert(item.named_fields().map_values(|f: FieldDef| parsed_field_text(f)) =~= item.named_fields().map_values(
        |f: FieldDef| "pub "@ + field_idents(f.tokens@)->Some_0[0] + ": "@ + field_idents(f.tokens@)->Some_0.last(),
    ));
}

/// Makes every field of a struct with named fields public, each field read
/// as `[visibility] name : Type`.
pub fn public(item: &DeriveDef) -> (res: String)
    requires
        item.is_named_struct(),
        forall|i: int| 0 <= i < item.named_fields().len() ==> is_simple_field(#[trigger] item.named_fields()[i].tokens@),
    ensures
        res@ == spec_public(*item),
{
    let fields = named_fields_of(item);
    let n = fields.len();
    let mut builder_fields: Vec<String> = Vec::new();
    for i in 0..n
        invariant
            n == fields@.len(),
            fields@ == item.named_fields(),
            forall|i: int| 0 <= i < item.named_fields().len() ==> is_simple_field(#[trigger] item.named_fields()[i].tokens@),
            views(builder_fields@) == fields@.take(i as int).map_values(|f: FieldDef| parsed_field_text(f)),
    {
        assert(is_simple_field(item.named_fields()[i as int].tokens@));
        let field = StructField::parse(&fields[i].tokens);
        let s = field.to_tokens();
        let ghost prev = builder_fields@;
        builder_fields.push(s);
        proof {
            let g = |f: FieldDef| parsed_field_text(f);
            assert(s@ =~= g(fields@[i as int]));
            assert(views(builder_fields@) =~= views(prev).push(s@));
            assert(fields@.take(i + 1).map_values(g) =~= fields@.take(i as int).map_values(g).push(
                g(fields@[i as int]),
            ));
        }
    }
    proof {
        assert(fields@.take(n as int) =~= fields@);
    }
    let mut out = String::from_str("pub struct ");
    out.append(item.name.as_str());
    out.append(" { ");
    append_each(&mut out, &builder_fields, ", ");
    out.append("}");
    assert(out@ =~= spec_public(*item));
    out
}

} // verus!
