//! A plain image of a token stream, as the macro front ends receive it.
//!
//! Identifiers, punctuation, literals and delimited groups are kept with the
//! text the tokenizer gave them; the grammars of this library read this form.

use vstd::prelude::*;

verus! {

/// The delimiter of a token group.
#[derive(Clone, Copy, Debug, PartialEq, Eq, Structural)]
pub enum Delimiter {
    Parenthesis,
    Brace,
    Bracket,
    Invisible,
}

/// Whether a punctuation character is glued to the next one (as the first
/// `:` of `::`).
#[derive(Clone, Copy, Debug, PartialEq, Eq, Structural)]
pub enum Spacing {
    Alone,
    Joint,
}

/// One token tree.
#[derive(Debug)]
pub enum Tok {
    Ident(String),
    Punct(char, Spacing),
    Literal(String),
    Group(Delimiter, Vec<Tok>),
}

/// The identifiers that the identifier grammar refuses (Rust's keywords,
/// strict and reserved, and `_`).
pub open spec fn is_keyword(s: Seq<char>) -> bool {
    ||| s == "_"@ ||| s == "abstract"@ ||| s == "as"@ ||| s == "async"@
    ||| s == "await"@ ||| s == "become"@ ||| s == "box"@ ||| s == "break"@
    ||| s == "const"@ ||| s == "continue"@ ||| s == "crate"@ ||| s == "do"@
    ||| s == "dyn"@ ||| s == "else"@ ||| s == "enum"@ ||| s == "extern"@
    ||| s == "false"@ ||| s == "final"@ ||| s == "fn"@ ||| s == "for"@
    ||| s == "if"@ ||| s == "impl"@ ||| s == "in"@ ||| s == "let"@
    ||| s == "loop"@ ||| s == "macro"@ ||| s == "match"@ ||| s == "mod"@
    ||| s == "move"@ ||| s == "mut"@ ||| s == "override"@ ||| s == "priv"@
    ||| s == "pub"@ ||| s == "ref"@ ||| s == "return"@ ||| s == "Self"@
    ||| s == "self"@ ||| s == "static"@ ||| s == "struct"@ ||| s == "super"@
    ||| s == "trait"@ ||| s == "true"@ ||| s == "try"@ ||| s == "type"@
    ||| s == "typeof"@ ||| s == "unsafe"@ ||| s == "unsized"@ ||| s == "use"@
    ||| s == "virtual"@ ||| s == "where"@ ||| s == "while"@ ||| s == "yield"@
}

/// `t` is the identifier `name`.
pub open spec fn is_ident_named(t: Tok, name: Seq<char>) -> bool {
    t matches Tok::Ident(s) && s@ == name
}

/// `t` is an identifier that the identifier grammar accepts (no keyword).
pub open spec fn is_plain_ident(t: Tok) -> bool {
    t matches Tok::Ident(s) && !is_keyword(s@)
}

/// `t` is the punctuation character `c`, whatever its spacing.
pub open spec fn is_punct(t: Tok, c: char) -> bool {
    t matches Tok::Punct(p, _) && p == c
}

/// `t` is the punctuation character `c` glued to the next token.
pub open spec fn is_joint_punct(t: Tok, c: char) -> bool {
    t matches Tok::Punct(p, sp) && p == c && sp == Spacing::Joint
}

/// The text of an identifier or literal token (empty for other tokens).
pub open spec fn tok_text(t: Tok) -> Seq<char> {
    match t {
        Tok::Ident(s) => s@,
        Tok::Literal(s) => s@,
        _ => Seq::empty(),
    }
}

/// The characters of each string.
pub open spec fn views(v: Seq<String>) -> Seq<Seq<char>> {
    v.map_values(|s: String| s@)
}

/// The characters of an optional string.
pub open spec fn opt_view(o: Option<String>) -> Option<Seq<char>> {
    match o {
        Some(s) => Some(s@),
        None => None,
    }
}

/// A list of identifiers separated by the punctuation `sep`, a trailing
/// separator allowed (the grammar `(ident (sep ident)*)? sep?`): the
/// identifiers, or `None`.
pub open spec fn ident_list_sep(toks: Seq<Tok>, sep: char) -> Option<Seq<Seq<char>>>
    decreases toks.len(),
{
    if toks.len() == 0 {
        Some(Seq::empty())
    } else if !is_plain_ident(toks[0]) {
        None
    } else if toks.len() == 1 {
        Some(seq![tok_text(toks[0])])
    } else if !is_punct(toks[1], sep) {
        None
    } else {
        match ident_list_sep(toks.subrange(2, toks.len() as int), sep) {
            Some(rest) => Some(seq![tok_text(toks[0])] + rest),
            None => None,
        }
    }
}

/// A comma-separated list of identifiers, a trailing comma allowed.
pub open spec fn ident_list(toks: Seq<Tok>) -> Option<Seq<Seq<char>>> {
    ident_list_sep(toks, ',')
}

/// Whether the string holds the same characters as the literal.
pub fn str_is(s: &String, lit: &str) -> (res: bool)
    ensures
        res == (s@ == lit@),
{
    let t = String::from_str(lit);
    *s == t
}

/// Whether two strings hold the same characters.
pub fn str_eq(a: &String, b: &String) -> (res: bool)
    ensures
        res == (a@ == b@),
{
    *a == *b
}

/// Whether `s` is a keyword.
pub fn is_keyword_exec(s: &String) -> (res: bool)
    ensures
        res == is_keyword(s@),
{
    str_is(s, "_") || str_is(s, "abstract") || str_is(s, "as") || str_is(s, "async")
        || str_is(s, "await") || str_is(s, "become") || str_is(s, "box") || str_is(s, "break")
        || str_is(s, "const") || str_is(s, "continue") || str_is(s, "crate") || str_is(s, "do")
        || str_is(s, "dyn") || str_is(s, "else") || str_is(s, "enum") || str_is(s, "extern")
        || str_is(s, "false") || str_is(s, "final") || str_is(s, "fn") || str_is(s, "for")
        || str_is(s, "if") || str_is(s, "impl") || str_is(s, "in") || str_is(s, "let")
        || str_is(s, "loop") || str_is(s, "macro") || str_is(s, "match") || str_is(s, "mod")
        || str_is(s, "move") || str_is(s, "mut") || str_is(s, "override") || str_is(s, "priv")
        || str_is(s, "pub") || str_is(s, "ref") || str_is(s, "return") || str_is(s, "Self")
        || str_is(s, "self") || str_is(s, "static") || str_is(s, "struct") || str_is(s, "super")
        || str_is(s, "trait") || str_is(s, "true") || str_is(s, "try") || str_is(s, "type")
        || str_is(s, "typeof") || str_is(s, "unsafe") || str_is(s, "unsized") || str_is(s, "use")
        || str_is(s, "virtual") || str_is(s, "where") || str_is(s, "while") || str_is(s, "yield")
}

/// Whether `t` is the identifier `name`.
pub fn tok_is_ident_named(t: &Tok, name: &str) -> (res: bool)
    ensures
        res == is_ident_named(*t, name@),
{
    match t {
        Tok::Ident(s) => str_is(s, name),
        _ => false,
    }
}

/// Whether `t` is an identifier (keywords included).
pub fn tok_is_ident(t: &Tok) -> (res: bool)
    ensures
        res == (*t is Ident),
{
    match t {
        Tok::Ident(_) => true,
        _ => false,
    }
}

/// Whether `t` is an identifier that is not a keyword.
pub fn tok_is_plain_ident(t: &Tok) -> (res: bool)
    ensures
        res == is_plain_ident(*t),
{
    match t {
        Tok::Ident(s) => !is_keyword_exec(s),
        _ => false,
    }
}

/// Whether `t` is the punctuation character `c`.
pub fn tok_is_punct(t: &Tok, c: char) -> (res: bool)
    ensures
        res == is_punct(*t, c),
{
    match t {
        Tok::Punct(p, _) => *p == c,
        _ => false,
    }
}

/// Whether `t` is the punctuation character `c` glued to the next token.
pub fn tok_is_joint_punct(t: &Tok, c: char) -> (res: bool)
    ensures
        res == is_joint_punct(*t, c),
{
    match t {
        Tok::Punct(p, Spacing::Joint) => *p == c,
        _ => false,
    }
}

/// The text of an identifier or literal token.
pub fn tok_text_exec(t: &Tok) -> (res: String)
    ensures
        res@ == tok_text(*t),
{
    match t {
        Tok::Ident(s) => s.clone(),
        Tok::Literal(s) => s.clone(),
        _ => String::new(),
    }
}

/// Parses a comma-separated list of identifiers (a trailing comma allowed).
pub fn parse_ident_list(toks: &Vec<Tok>) -> (res: Option<Vec<String>>)
    ensures
        match res {
            Some(v) => ident_list(toks@) == Some(views(v@)),
            None => ident_list(toks@) is None,
        },
{
    assert(toks@.skip(0) =~= toks@);
    parse_ident_list_sep(toks, 0, ',')
}

/// Parses the tokens from `start` on as identifiers separated by `sep`
/// (a trailing separator allowed).
pub fn parse_ident_list_sep(toks: &Vec<Tok>, start: usize, sep: char) -> (res: Option<Vec<String>>)
    requires
        start <= toks@.len(),
    ensures
        match res {
            Some(v) => ident_list_sep(toks@.skip(start as int), sep) == Some(views(v@)),
            None => ident_list_sep(toks@.skip(start as int), sep) is None,
        },
{
    let n = toks.len();
    let mut acc: Vec<String> = Vec::new();
    let mut i: usize = start;
    assert(toks@.subrange(start as int, n as int) =~= toks@.skip(start as int));
    assert(views(acc@) =~= Seq::<Seq<char>>::empty());
    while i < n
        invariant
            n == toks@.len(),
            start <= i <= n,
            ident_list_sep(toks@.skip(start as int), sep) == match ident_list_sep(toks@.subrange(i as int, n as int), sep) {
                Some(rest) => Some(views(acc@) + rest),
                None => None::<Seq<Seq<char>>>,
            },
        decreases n - i,
    {
        let ghost tail = toks@.subrange(i as int, n as int);
        let ghost old_acc = acc@;
        if !tok_is_plain_ident(&toks[i]) {
            return None;
        }
        let name = tok_text_exec(&toks[i]);
        acc.push(name);
        assert(views(acc@) =~= views(old_acc) + seq![tok_text(tail[0])]);
        if i + 1 == n {
            assert(toks@.subrange(n as int, n as int) =~= Seq::<Tok>::empty());
            assert(views(acc@) + Seq::<Seq<char>>::empty() =~= views(acc@));
            i = n;
        } else {
            if !tok_is_punct(&toks[i + 1], sep) {
                return None;
            }
            assert(tail.subrange(2, tail.len() as int) =~= toks@.subrange(i + 2, n as int));
            proof {
                match ident_list_sep(toks@.subrange(i + 2, n as int), sep) {
                    Some(rest) => {
                        assert(views(old_acc) + (seq![tok_text(tail[0])] + rest)
                            =~= views(acc@) + rest);
                    },
                    None => {},
                }
            }
            i = i + 2;
        }
    }
    Some(acc)
}

} // verus!
