//! An attribute macro that makes every field of a struct public, except the
//! fields named in `#[public(exclude(a, b))]`, which keep their visibility.

pub mod using_parse;
pub mod with_struct_field;

use vstd::prelude::*;
use crate::attrs::colon2_at;
use crate::builder::fields::name_text_of;
use crate::error::{is_compile_error, MacroError, Site};
use crate::model::{named_fields_of, DeriveDef, FieldDef};
use crate::text::{append_each, concat_each};
use crate::tokens::{
    str_eq,
    ident_list, is_ident_named, is_keyword, parse_ident_list, str_is, tok_is_ident_named,
    tok_is_joint_punct, tok_is_punct, views, Delimiter, Tok,
};

verus! {

/// The path segment that marks the excluded fields: `exclude(a, b)`.
pub const EXCLUDE_ATTRIBUTE_NAME: &'static str = "exclude";

/// The names of the fields that keep their visibility.
#[derive(Debug)]
pub struct ExcludedFields {
    pub fields: Vec<String>,
}

/// A segment of an attribute path: an identifier that is not a keyword, or
/// one of `super`, `self`, `Self`, `crate`.
pub open spec fn is_path_ident(t: Tok) -> bool {
    t matches Tok::Ident(s) && (!is_keyword(s@) || s@ == "super"@ || s@ == "self"@ || s@ == "Self"@
        || s@ == "crate"@)
}

/// Reads `(:: segment)*` from `i` on: where the reading stops, and whether
/// it succeeded (a `::` must be followed by a segment; a failed reading
/// stops after that `::`).
pub open spec fn mod_path_rest(toks: Seq<Tok>, i: int) -> (int, bool)
    decreases toks.len() - i,
{
    if colon2_at(toks, i) {
        if i + 2 < toks.len() && is_path_ident(toks[i + 2]) {
            mod_path_rest(toks, i + 3)
        } else {
            (i + 2, false)
        }
    } else {
        (i, true)
    }
}

/// Reads a path of segments separated by `::`, with an optional leading
/// `::`, from position `start`: where the reading stops, and whether it
/// succeeded.
pub open spec fn mod_path_at(toks: Seq<Tok>, start: int) -> (int, bool) {
    let j = if colon2_at(toks, start) { start + 2 } else { start };
    if j < toks.len() && is_path_ident(toks[j]) {
        mod_path_rest(toks, j + 1)
    } else {
        (j, false)
    }
}

/// Reads a `::`-separated path from the first token on.
pub open spec fn mod_path(toks: Seq<Tok>) -> (int, bool) {
    mod_path_at(toks, 0)
}

/// Reads the path that opens an attribute's arguments: `unsafe`, or an
/// optional `::` followed by segments separated by `::`. Where the reading
/// stops, and whether it succeeded.
pub open spec fn outer_path(toks: Seq<Tok>) -> (int, bool) {
    if toks.len() > 0 && is_ident_named(toks[0], "unsafe"@) {
        (1, true)
    } else {
        mod_path(toks)
    }
}

/// `t` is a group delimited by `()`, `[]` or `{}`.
pub open spec fn is_delimited_group(t: Tok) -> bool {
    t matches Tok::Group(d, _) && d != Delimiter::Invisible
}

/// Reads `path(tokens)`: how many tokens the reading took, and whether it
/// found a path followed by a delimited group.
pub open spec fn meta_list(toks: Seq<Tok>) -> (int, bool) {
    let (e, ok) = outer_path(toks);
    if ok && e < toks.len() && is_delimited_group(toks[e]) {
        (e + 1, true)
    } else {
        (e, false)
    }
}

/// The tokens inside a group (none for another token).
pub open spec fn group_tokens(t: Tok) -> Seq<Tok> {
    match t {
        Tok::Group(_, inner) => inner@,
        _ => Seq::empty(),
    }
}

/// Some segment of the path read before position `end` is `exclude`.
pub open spec fn names_exclude(toks: Seq<Tok>, end: int) -> bool {
    exists|k: int| 0 <= k < end && is_ident_named(#[trigger] toks[k], "exclude"@)
}

/// The attribute's arguments name the excluded fields: they open with a path
/// containing `exclude` followed by a group.
pub open spec fn lists_exclusions(toks: Seq<Tok>) -> bool {
    meta_list(toks).1 && names_exclude(toks, meta_list(toks).0)
}

/// The excluded names: the identifiers of the group after an `exclude` path,
/// else none. Tokens after what was read are left to the caller.
pub open spec fn spec_excluded_fields(toks: Seq<Tok>) -> Seq<Seq<char>> {
    if lists_exclusions(toks) {
        ident_list(group_tokens(toks[meta_list(toks).0 - 1]))->Some_0
    } else {
        Seq::empty()
    }
}

/// Tokens remain after the arguments were read.
pub open spec fn has_leftover(toks: Seq<Tok>) -> bool {
    meta_list(toks).0 < toks.len()
}

/// Where the `(:: segment)*` reading from `i` stops, and whether it succeeded.
fn mod_path_rest_exec(toks: &Vec<Tok>, i: usize) -> (res: (usize, bool))
    requires
        i <= toks@.len(),
    ensures
        (res.0 as int, res.1) == mod_path_rest(toks@, i as int),
        res.0 <= toks@.len(),
{
    let n = toks.len();
    let mut k = i;
    while k < n && k + 1 < n && tok_is_joint_punct(&toks[k], ':') && tok_is_punct(&toks[k + 1], ':')
        invariant
            n == toks@.len(),
            i <= k <= n,
            mod_path_rest(toks@, i as int) == mod_path_rest(toks@, k as int),
        decreases n - k,
    {
        if k + 2 < n && tok_is_path_ident(&toks[k + 2]) {
            k = k + 3;
        } else {
            return (k + 2, false);
        }
    }
    (k, true)
}

/// Whether `t` is a segment of an attribute path.
fn tok_is_path_ident(t: &Tok) -> (res: bool)
    ensures
        res == is_path_ident(*t),
{
    match t {
        Tok::Ident(s) => !crate::tokens::is_keyword_exec(s) || str_is(s, "super") || str_is(s, "self")
            || str_is(s, "Self") || str_is(s, "crate"),
        _ => false,
    }
}

/// Where the reading of a `::`-separated path from `start` stops, and
/// whether it succeeded.
pub fn mod_path_exec(toks: &Vec<Tok>, start: usize) -> (res: (usize, bool))
    requires
        start <= toks@.len(),
    ensures
        (res.0 as int, res.1) == mod_path_at(toks@, start as int),
        res.0 <= toks@.len(),
{
    let n = toks.len();
    let j: usize = if start < n && start + 1 < n && tok_is_joint_punct(&toks[start], ':')
        && tok_is_punct(&toks[start + 1], ':') {
        start + 2
    } else {
        start
    };
    if j < n && tok_is_path_ident(&toks[j]) {
        mod_path_rest_exec(toks, j + 1)
    } else {
        (j, false)
    }
}

/// How many tokens the `path(tokens)` reading takes, and whether it succeeded.
fn meta_list_exec(toks: &Vec<Tok>) -> (res: (usize, bool))
    ensures
        (res.0 as int, res.1) == meta_list(toks@),
        res.0 <= toks@.len(),
{
    let n = toks.len();
    let (e, ok) = if n > 0 && tok_is_ident_named(&toks[0], "unsafe") {
        (1, true)
    } else {
        mod_path_exec(toks, 0)
    };
    assert((e as int, ok) == outer_path(toks@));
    if ok && e < n {
        match &toks[e] {
            Tok::Group(d, _) => {
                if *d != Delimiter::Invisible {
                    return (e + 1, true);
                }
            },
            _ => {},
        }
    }
    (e, false)
}

/// Whether the attribute's arguments can be read: an `exclude(..)` group
/// must hold a comma-separated list of identifiers.
pub fn exclusions_are_readable(input: &Vec<Tok>) -> (res: bool)
    ensures
        res == (lists_exclusions(input@) ==> ident_list(group_tokens(input@[meta_list(input@).0 - 1])) is Some),
{
    let (end, is_list) = meta_list_exec(input);
    if !is_list {
        return true;
    }
    let mut excluded = false;
    for k in 0..end
        invariant
            end <= input@.len(),
            excluded == exists|j: int| 0 <= j < k && is_ident_named(#[trigger] input@[j], "exclude"@),
    {
        if tok_is_ident_named(&input[k], EXCLUDE_ATTRIBUTE_NAME) {
            excluded = true;
        }
    }
    if !excluded {
        return true;
    }
    match &input[end - 1] {
        Tok::Group(_, inner) => parse_ident_list(inner).is_some(),
        _ => true,
    }
}

impl ExcludedFields {
    /// Whether the field name is one of the excluded names (a nameless field
    /// never is).
    pub fn matches_ident(&self, name: &Option<String>) -> (res: bool)
        ensures
            res == (*name matches Some(n) && views(self.fields@).contains(n@)),
    {
        match name {
            None => false,
            Some(n) => {
                let k = self.fields.len();
                for i in 0..k
                    invariant
                        k == self.fields@.len(),
                        *name == Some::<String>(*n),
                        forall|j: int| 0 <= j < i ==> self.fields@[j]@ != n@,
                {
                    if str_eq(&self.fields[i], n) {
                        assert(views(self.fields@)[i as int] == n@);
                        assert(views(self.fields@).contains(n@));
                        return true;
                    }
                }
                assert(!views(self.fields@).contains(n@)) by {
                    if views(self.fields@).contains(n@) {
                        let j = choose|j: int| 0 <= j < views(self.fields@).len() && views(self.fields@)[j] == n@;
                        assert(self.fields@[j]@ == n@);
                    }
                }
                false
            },
        }
    }

    /// Reads the attribute's arguments: `exclude(a, b)` names the fields that
    /// keep their visibility; arguments of another shape exclude nothing.
    /// The reading never fails; tokens it leaves over are the caller's to
    /// report.
    pub fn parse(input: &Vec<Tok>) -> (res: Result<ExcludedFields, MacroError>)
        requires
            lists_exclusions(input@) ==> ident_list(group_tokens(input@[meta_list(input@).0 - 1])) is Some,
        ensures
            res matches Ok(x) && views(x.fields@) == spec_excluded_fields(input@),
    {
        let n = input.len();
        let (end, is_list) = meta_list_exec(input);
        let mut fields: Vec<String> = Vec::new();
        assert(views(fields@) =~= Seq::<Seq<char>>::empty());
        if is_list {
            let mut excluded = false;
            for k in 0..end
                invariant
                    end <= n,
                    n == input@.len(),
                    excluded == exists|j: int| 0 <= j < k && is_ident_named(#[trigger] input@[j], "exclude"@),
            {
                if tok_is_ident_named(&input[k], EXCLUDE_ATTRIBUTE_NAME) {
                    excluded = true;
                }
            }
            if excluded {
                match &input[end - 1] {
                    Tok::Group(_, inner) => match parse_ident_list(inner) {
                        Some(v) => {
                            fields = v;
                        },
                        None => {
                            assert(false);
                        },
                    },
                    _ => {},
                }
            }
        }
        Ok(ExcludedFields { fields })
    }
}

/// A field as the attribute writes it: public, or with its own visibility
/// when it is excluded.
pub open spec fn public_field_text(f: FieldDef, excluded: Seq<Seq<char>>) -> Seq<char> {
    if f.name matches Some(n) && excluded.contains(n@) {
        f.vis@ + " "@ + f.name_text() + ": "@ + f.ty@
    } else {
        "pub "@ + f.name_text() + ": "@ + f.ty@
    }
}

/// The error for tokens left over after the arguments, at the first of them.
pub open spec fn leftover_error() -> Seq<char> {
    "unexpected token"@
}

/// The struct the attribute writes when its arguments are read whole: its
/// fields made public, except the excluded ones.
pub open spec fn public_struct_text(attr: Seq<Tok>, item: DeriveDef) -> Seq<char> {
    let excluded = spec_excluded_fields(attr);
    "pub struct "@ + item.name@ + " { "@ + concat_each(
        item.named_fields().map_values(|f: FieldDef| public_field_text(f, excluded)),
        ", "@,
    ) + "}"@
}

/// The error for tokens left over after the arguments: `unexpected token`,
/// at the first of them.
pub fn unexpected_token(at: usize) -> (res: MacroError)
    ensures
        views(res.messages@) == seq![leftover_error()],
        res.sites@ == seq![Site::Token(at)],
{
    MacroError::new(Site::Token(at), String::from_str("unexpected token"))
}

/// Where the reading of the attribute's arguments stops: tokens from there
/// on are left over.
pub fn arguments_end(toks: &Vec<Tok>) -> (res: usize)
    ensures
        res == meta_list(toks@).0,
        res <= toks@.len(),
{
    meta_list_exec(toks).0
}

/// Makes the fields of a struct with named fields public, except those the
/// attribute excludes.
pub fn public(attr: &Vec<Tok>, item: &DeriveDef) -> (res: String)
    requires
        item.is_named_struct(),
        lists_exclusions(attr@) ==> ident_list(group_tokens(attr@[meta_list(attr@).0 - 1])) is Some,
    ensures
        has_leftover(attr@) ==> is_compile_error(res@, leftover_error()),
        !has_leftover(attr@) ==> res@ == public_struct_text(attr@, *item),
{
    let excluded_fields = match ExcludedFields::parse(attr) {
        Ok(x) => x,
        Err(_) => {
            assert(false);
            return String::new();
        },
    };
    let end = arguments_end(attr);
    if end < attr.len() {
        let e = unexpected_token(end);
        let out = e.to_compile_error();
        proof {
            crate::error::lemma_one_message(out@, views(e.messages@));
        }
        return out;
    }
    let fields = named_fields_of(item);
    let n = fields.len();
    let mut builder_fields: Vec<String> = Vec::new();
    for i in 0..n
        invariant
            n == fields@.len(),
            views(builder_fields@) == fields@.take(i as int).map_values(
                |f: FieldDef| public_field_text(f, views(excluded_fields.fields@)),
            ),
    {
        let f = &fields[i];
        let name = name_text_of(f);
        let mut s = String::new();
        if excluded_fields.matches_ident(&f.name) {
            s.append(f.vis.as_str());
            s.append(" ");
        } else {
            s.append("pub ");
        }
        s.append(name.as_str());
        s.append(": ");
        s.append(f.ty.as_str());
        let ghost prev = builder_fields@;
        builder_fields.push(s);
        proof {
            let g = |f: FieldDef| public_field_text(f, views(excluded_fields.fields@));
            assert(s@ =~= g(fields@[i as int]));
            assert(views(builder_fields@) =~= views(prev).push(s@));
            assert(fields@.take(i + 1).map_values(g) =~= fields@.take(i as int).map_values(g).push(
                g(fields@[i as int]),
            ));
        }
    }
    proof {
        assert(fields@.take(n as int) =~= fields@);
    }
    let mut out = String::from_str("pub struct ");
    out.append(item.name.as_str());
    out.append(" { ");
    append_each(&mut out, &builder_fields, ", ");
    out.append("}");
    assert(out@ =~= public_struct_text(attr@, *item));
    out
}

/// Without arguments the attribute excludes nothing: every field of the
/// struct is written public.
pub proof fn no_arguments_make_every_field_public(item: DeriveDef)
    ensures
        !has_leftover(Seq::empty()),
        public_struct_text(Seq::empty(), item) == "pub struct "@ + item.name@ + " { "@ + concat_each(
            item.named_fields().map_values(|f: FieldDef| "pub "@ + f.name_text() + ": "@ + f.ty@),
            ", "@,
        ) + "}"@,
{
    let toks = Seq::<Tok>::empty();
    assert(!colon2_at(toks, 0));
    assert(meta_list(toks) == (0int, false));
    assert(spec_excluded_fields(toks) == Seq::<Seq<char>>::empty());
    let fs = item.named_fields();
    assert(fs.map_values(|f: FieldDef| public_field_text(f, Seq::empty())) =~= fs.map_values(
        |f: FieldDef| "pub "@ + f.name_text() + ": "@ + f.ty@,
    ));
}

/// With `exclude(a1, .., an)` as the arguments and nothing left over,
/// every field whose name is one of `a1`..`an` is written with its own
/// visibility and every other field is written `pub`; arguments of another
/// shape make every field `pub`.
pub proof fn listed_fields_keep_their_visibility(attr: Seq<Tok>, item: DeriveDef)
    requires
        !has_leftover(attr),
        lists_exclusions(attr) ==> ident_list(group_tokens(attr[meta_list(attr).0 - 1])) is Some,
    ensures
        lists_exclusions(attr) ==> public_struct_text(attr, item) == "pub struct "@ + item.name@ + " { "@ + concat_each(
            item.named_fields().map_values(
                |f: FieldDef| if f.name matches Some(n) && ident_list(
                    group_tokens(attr[meta_list(attr).0 - 1]),
                )->Some_0.contains(n@) {
                    f.vis@ + " "@ + f.name_text() + ": "@ + f.ty@
                } else {
                    "pub "@ + f.name_text() + ": "@ + f.ty@
                },
            ),
            ", "@,
        ) + "}"@,
        !lists_exclusions(attr) ==> public_struct_text(attr, item) == "pub struct "@ + item.name@ + " { "@ + concat_each(
            item.named_fields().map_values(|f: FieldDef| "pub "@ + f.name_text() + ": "@ + f.ty@),
            ", "@,
        ) + "}"@,
{
    let fs = item.named_fields();
    if lists_exclusions(attr) {
        let l = ident_list(group_tokens(attr[meta_list(attr).0 - 1]))->Some_0;
        assert(spec_excluded_fields(attr) == l);
        assert(fs.map_values(|f: FieldDef| public_field_text(f, l)) =~= fs.map_values(
            |f: FieldDef| if f.name matches Some(n) && ident_list(
                group_tokens(attr[meta_list(attr).0 - 1]),
            )->Some_0.contains(n@) {
                f.vis@ + " "@ + f.name_text() + ": "@ + f.ty@
            } else {
                "pub "@ + f.name_text() + ": "@ + f.ty@
            },
        ));
    } else {
        assert(spec_excluded_fields(attr) == Seq::<Seq<char>>::empty());
        assert(fs.map_values(|f: FieldDef| public_field_text(f, Seq::empty())) =~= fs.map_values(
            |f: FieldDef| "pub "@ + f.name_text() + ": "@ + f.ty@,
        ));
    }
}

/// A field named in `exclude(..)` keeps its visibility; every other field
/// is made public.
pub proof fn excluded_fields_keep_their_visibility(f: FieldDef, excluded: Seq<Seq<char>>)
    ensures
        (f.name matches Some(n) && excluded.contains(n@)) ==> public_field_text(f, excluded) == f.vis@ + " "@ + f.name_text() + ": "@ + f.ty@,
        !(f.name matches Some(n) && excluded.contains(n@)) ==> public_field_text(f, excluded) == "pub "@ + f.name_text() + ": "@ + f.ty@,
{
}

/// A struct as the attribute leaves it: `first` and `second` public,
/// `third` excluded. Because `third` is private, Verus keeps the struct's
/// fields opaque outside this module; its contents are stated through the
/// spec functions below.
#[derive(Debug)]
pub struct Example {
    pub first: String,
    pub second: u32,
    third: bool,
}

impl Example {
    /// The text of the public `first` field.
    pub closed spec fn first_value(self) -> Seq<char> {
        self.first@
    }

    /// The public `second` field.
    pub closed spec fn second_value(self) -> u32 {
        self.second
    }

    /// The excluded `third` field.
    pub closed spec fn third_value(self) -> bool {
        self.third
    }

    /// `first`, 5 and `true`.
    pub fn new() -> (res: Self)
        ensures
            res.first_value() == "first"@,
            res.second_value() == 5,
            res.third_value(),
    {
        Self { first: String::from_str("first"), second: 5, third: true }
    }

    /// Whether the excluded field is set.
    pub fn third(&self) -> (res: bool)
        ensures
            res == self.third_value(),
    {
        self.third
    }
}

} // verus!
