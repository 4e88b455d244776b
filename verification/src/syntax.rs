//! Computations that the `syn` and `proc-macro2` crates perform for this
//! library: reading string literals and writing them.

use vstd::prelude::*;

verus! {

/// What `syn` reads from the text of a literal token when it parses it as a
/// string literal: the unescaped contents, or `None` when the text is not a
/// string literal.
pub uninterp spec fn syn_lit_str_value(literal: Seq<char>) -> Option<Seq<char>>;

/// A string every character of which is printable ASCII other than `"` and
/// `\`: such a string needs no escape inside a string literal.
pub open spec fn needs_no_escape(s: Seq<char>) -> bool {
    forall|i: int| 0 <= i < s.len() ==> {
        let c = #[trigger] s[i];
        ' ' <= c <= '~' && c != '"' && c != '\\'
    }
}

/// Reads a string-literal token: calls `syn::parse_str::<syn::LitStr>` on the
/// token's text and, when that succeeds, `LitStr::value`. The contract only
/// names the outcome ([`syn_lit_str_value`]); the unescaping rules are syn's.
#[verifier::external_body]
pub(crate) fn lit_str_value(literal: &str) -> (res: Option<String>)
    ensures
        match res {
            Some(v) => syn_lit_str_value(literal@) == Some(v@),
            None => syn_lit_str_value(literal@) is None,
        },
{
    match syn::parse_str::<syn::LitStr>(literal) {
        Ok(lit) => Some(lit.value()),
        Err(_) => None,
    }
}

/// `lit` is a text for the string literal of `s`: `syn` reads it back as
/// `s`, and it is `s` between double quotes when `s` needs no escape.
pub open spec fn renders(lit: Seq<char>, s: Seq<char>) -> bool {
    &&& syn_lit_str_value(lit) == Some(s)
    &&& needs_no_escape(s) ==> lit == seq!['"'] + s + seq!['"']
}

/// Writes a string literal: `proc_macro2::Literal::string(s).to_string()`.
/// Inside a procedural macro the compiler renders it, elsewhere
/// `proc-macro2` does, and the two escape some characters differently; the
/// contract states what holds of both: the text reads back as `s`, and a
/// string that needs no escape is written between double quotes as it is.
/// Which escapes are used is left unsaid.
#[verifier::external_body]
pub(crate) fn string_literal_text(s: &str) -> (res: String)
    ensures
        renders(res@, s@),
{
    proc_macro2::Literal::string(s).to_string()
}

} // verus!
