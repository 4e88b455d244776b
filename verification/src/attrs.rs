//! Finding attributes on a field and reading the `rename = "name"` entries
//! of a nested attribute list such as `#[builder(rename = "tops_of")]`.

use vstd::prelude::*;
use crate::model::{AttrDef, FieldDef};
use crate::syntax::{lit_str_value, syn_lit_str_value};
use crate::tokens::{
    is_ident_named, is_joint_punct, is_punct, opt_view, str_is, tok_is_ident, tok_is_ident_named, tok_is_joint_punct,
    tok_is_punct, Tok,
};

verus! {

/// The attribute's path is the single identifier `name` (no leading `::`).
pub open spec fn attr_is(a: AttrDef, name: Seq<char>) -> bool {
    &&& !a.leading_colon
    &&& a.path@.len() == 1
    &&& a.path@[0]@ == name
}

/// The first attribute whose path is the identifier `name`.
pub open spec fn first_attr(attrs: Seq<AttrDef>, name: Seq<char>) -> Option<AttrDef>
    decreases attrs.len(),
{
    if attrs.len() == 0 {
        None
    } else if attr_is(attrs[0], name) {
        Some(attrs[0])
    } else {
        first_attr(attrs.drop_first(), name)
    }
}

/// Whether the attribute's path is the identifier `name`.
pub fn attr_path_is(a: &AttrDef, name: &str) -> (res: bool)
    ensures
        res == attr_is(*a, name@),
{
    !a.leading_colon && a.path.len() == 1 && str_is(&a.path[0], name)
}

/// The first attribute of `f` whose path is the identifier `name`.
pub fn extract_attribute_from_field<'a>(f: &'a FieldDef, name: &str) -> (res: Option<&'a AttrDef>)
    ensures
        match res {
            Some(a) => first_attr(f.attrs@, name@) == Some(*a),
            None => first_attr(f.attrs@, name@) is None,
        },
{
    find_attribute(&f.attrs, name)
}

/// The first attribute of `attrs` whose path is the identifier `name`.
pub fn find_attribute<'a>(attrs: &'a Vec<AttrDef>, name: &str) -> (res: Option<&'a AttrDef>)
    ensures
        match res {
            Some(a) => first_attr(attrs@, name@) == Some(*a),
            None => first_attr(attrs@, name@) is None,
        },
{
    let n = attrs.len();
    let mut i: usize = 0;
    assert(attrs@.skip(0) =~= attrs@);
    while i < n
        invariant
            n == attrs@.len(),
            i <= n,
            first_attr(attrs@, name@) == first_attr(attrs@.skip(i as int), name@),
        decreases n - i,
    {
        assert(attrs@.skip(i as int).drop_first() =~= attrs@.skip(i + 1));
        if attr_path_is(&attrs[i], name) {
            return Some(&attrs[i]);
        }
        i = i + 1;
    }
    None
}

/// `::` starts at position `i`.
pub open spec fn colon2_at(toks: Seq<Tok>, i: int) -> bool {
    &&& 0 <= i
    &&& i + 1 < toks.len()
    &&& is_joint_punct(toks[i], ':')
    &&& is_punct(toks[i + 1], ':')
}

/// The end of the `(:: ident)*` tail of a path that continues at `i`, or
/// `None` when a `::` is not followed by an identifier.
pub open spec fn meta_path_rest(toks: Seq<Tok>, i: int) -> Option<int>
    decreases toks.len() - i,
{
    if colon2_at(toks, i) {
        if i + 2 < toks.len() && toks[i + 2] is Ident {
            meta_path_rest(toks, i + 3)
        } else {
            None
        }
    } else {
        Some(i)
    }
}

/// The end of the path of a nested attribute entry starting at `i`:
/// an optional `::`, an identifier (keywords allowed), then `:: ident` pairs.
pub open spec fn meta_path_end(toks: Seq<Tok>, i: int) -> Option<int> {
    let j = if colon2_at(toks, i) { i + 2 } else { i };
    if 0 <= j < toks.len() && toks[j] is Ident {
        meta_path_rest(toks, j + 1)
    } else {
        None
    }
}

/// A path's end lies past its start.
pub proof fn lemma_meta_path_rest_advances(toks: Seq<Tok>, i: int)
    ensures
        meta_path_rest(toks, i) matches Some(e) ==> e >= i,
    decreases toks.len() - i,
{
    if colon2_at(toks, i) && i + 2 < toks.len() && toks[i + 2] is Ident {
        lemma_meta_path_rest_advances(toks, i + 3);
    }
}

/// The string value of the literal token at `k`, when it is a string literal.
pub open spec fn lit_str_at(toks: Seq<Tok>, k: int) -> Option<Seq<char>> {
    if 0 <= k < toks.len() && toks[k] is Literal {
        syn_lit_str_value(toks[k]->Literal_0@)
    } else {
        None
    }
}

/// Reads the comma-separated entries of a nested attribute list from `i` on:
/// every entry is a path; an entry that is exactly `rename` must be followed
/// by `= "string literal"`, whose value becomes the current rename (the last
/// one wins); other entries must stand alone. The result is `None` when the
/// list does not follow this shape, else the rename found (if any).
pub open spec fn rename_entries(toks: Seq<Tok>, i: int, cur: Option<Seq<char>>) -> Option<Option<Seq<char>>>
    decreases toks.len() - i,
{
    match meta_path_end(toks, i) {
        None => None,
        Some(e) => {
            let renames = !colon2_at(toks, i) && e == i + 1 && is_ident_named(toks[i], "rename"@);
            let after = if renames { e + 2 } else { e };
            let value_ok = !renames || (e < toks.len() && is_punct(toks[e], '=') && lit_str_at(toks, e + 1) is Some);
            let cur2 = if renames { lit_str_at(toks, e + 1) } else { cur };
            if !value_ok {
                None
            } else if after >= toks.len() {
                Some(cur2)
            } else if !is_punct(toks[after], ',') {
                None
            } else if after + 1 >= toks.len() {
                Some(cur2)
            } else {
                proof {
                    lemma_meta_path_rest_advances(toks, if colon2_at(toks, i) { i + 3 } else { i + 1 });
                }
                rename_entries(toks, after + 1, cur2)
            }
        },
    }
}

/// The `(:: ident)*` tail of a path from `i` on.
fn meta_path_rest_exec(toks: &Vec<Tok>, i: usize) -> (res: Option<usize>)
    requires
        i <= toks@.len(),
    ensures
        match res {
            Some(e) => meta_path_rest(toks@, i as int) == Some(e as int) && e <= toks@.len(),
            None => meta_path_rest(toks@, i as int) is None,
        },
{
    let n = toks.len();
    let mut k = i;
    while k < n && k + 1 < n && tok_is_joint_punct(&toks[k], ':') && tok_is_punct(&toks[k + 1], ':')
        invariant
            n == toks@.len(),
            i <= k <= n,
            meta_path_rest(toks@, i as int) == meta_path_rest(toks@, k as int),
        decreases n - k,
    {
        if k + 2 < n && tok_is_ident(&toks[k + 2]) {
            k = k + 3;
        } else {
            return None;
        }
    }
    Some(k)
}

/// The end of the path of a nested attribute entry starting at `i`.
fn meta_path_end_exec(toks: &Vec<Tok>, i: usize) -> (res: Option<usize>)
    requires
        i <= toks@.len(),
    ensures
        match res {
            Some(e) => meta_path_end(toks@, i as int) == Some(e as int) && i < e <= toks@.len(),
            None => meta_path_end(toks@, i as int) is None,
        },
{
    let n = toks.len();
    let j = if i < n && i + 1 < n && tok_is_joint_punct(&toks[i], ':') && tok_is_punct(&toks[i + 1], ':') {
        i + 2
    } else {
        i
    };
    if j < n && tok_is_ident(&toks[j]) {
        proof {
            lemma_meta_path_rest_advances(toks@, j + 1);
        }
        meta_path_rest_exec(toks, j + 1)
    } else {
        None
    }
}

/// The string value of the literal token at `k`.
fn lit_str_at_exec(toks: &Vec<Tok>, k: usize) -> (res: Option<String>)
    ensures
        match res {
            Some(v) => lit_str_at(toks@, k as int) == Some(v@),
            None => lit_str_at(toks@, k as int) is None,
        },
{
    if k < toks.len() {
        match &toks[k] {
            Tok::Literal(l) => lit_str_value(l.as_str()),
            _ => None,
        }
    } else {
        None
    }
}

/// Reads the entries of a nested attribute list: `None` when it is not a
/// list of entries as [`rename_entries`] describes, else the last rename.
pub fn parse_rename_entries(toks: &Vec<Tok>) -> (res: Option<Option<String>>)
    ensures
        match res {
            Some(Some(v)) => rename_entries(toks@, 0, None) == Some(Some(v@)),
            Some(None) => rename_entries(toks@, 0, None) == Some(None::<Seq<char>>),
            None => rename_entries(toks@, 0, None) is None,
        },
{
    let n = toks.len();
    let mut i: usize = 0;
    let mut cur: Option<String> = None;
    loop
        invariant
            n == toks@.len(),
            i < n || (i == 0 && n == 0),
            rename_entries(toks@, 0, None) == rename_entries(toks@, i as int, opt_view(cur)),
        decreases n - i,
    {
        let ghost curv = opt_view(cur);
        let e = match meta_path_end_exec(toks, i) {
            None => {
                return None;
            },
            Some(e) => e,
        };
        let starts_colon = i + 1 < n && tok_is_joint_punct(&toks[i], ':') && tok_is_punct(&toks[i + 1], ':');
        let renames = !starts_colon && e == i + 1 && tok_is_ident_named(&toks[i], "rename");
        let mut after = e;
        if renames {
            if !(e < n && tok_is_punct(&toks[e], '=')) {
                return None;
            }
            match lit_str_at_exec(toks, e + 1) {
                None => {
                    return None;
                },
                Some(v) => {
                    cur = Some(v);
                },
            }
            after = e + 2;
        }
        let ghost cur2 = opt_view(cur);
        assert(rename_entries(toks@, i as int, curv) == if after >= n {
            Some(cur2)
        } else if !is_punct(toks@[after as int], ',') {
            None
        } else if after + 1 >= n {
            Some(cur2)
        } else {
            rename_entries(toks@, after + 1, cur2)
        });
        if after >= n {
            return Some(cur);
        }
        if !tok_is_punct(&toks[after], ',') {
            return None;
        }
        if after + 1 >= n {
            return Some(cur);
        }
        i = after + 1;
    }
}

} // verus!
