//! Errors a macro reports to the compiler instead of code.

use vstd::prelude::*;
use crate::syntax::{renders, string_literal_text, syn_lit_str_value};
use crate::text::concat_each;
use crate::tokens::views;

verus! {

/// The place in the macro's input that a diagnostic, or generated code,
/// points at. The front end keeps the span of each place and turns the site
/// back into that span.
#[derive(Debug, Clone, Copy, PartialEq, Eq, Structural)]
pub enum Site {
    /// The macro's call site.
    CallSite,
    /// The signature of the function the attribute is applied to.
    Signature,
    /// The name of the struct's field at this position.
    FieldName(usize),
    /// The type of the struct's field at this position.
    FieldType(usize),
    /// A statement of the function's body at position `stmt`.
    Stmt(usize),
    /// The statement at position `branch` in the then-branch of the `if`
    /// at position `stmt` of the function's body.
    Branch { stmt: usize, branch: usize },
    /// The token at this position of the macro's arguments.
    Token(usize),
}

/// One or more error messages, reported in order; `sites[i]` is where
/// `messages[i]` points.
#[derive(Debug)]
pub struct MacroError {
    pub messages: Vec<String>,
    pub sites: Vec<Site>,
}

/// `::core::compile_error! { "message" }`: how one message reaches the
/// compiler, given the text `lit` of the message's string literal.
pub open spec fn compile_error_text(lit: Seq<char>) -> Seq<char> {
    "::core::compile_error! { "@ + lit + " }"@
}

/// Each text of `lits` renders the string at the same position of `ss`.
pub open spec fn renders_each(lits: Seq<Seq<char>>, ss: Seq<Seq<char>>) -> bool {
    &&& lits.len() == ss.len()
    &&& forall|i: int| 0 <= i < lits.len() ==> renders(#[trigger] lits[i], ss[i])
}

/// One `compile_error!` per literal text, in order, each followed by a space.
pub open spec fn compile_errors_text(lits: Seq<Seq<char>>) -> Seq<char> {
    concat_each(lits.map_values(|l: Seq<char>| compile_error_text(l)), " "@)
}

/// `t` is the code that reports `messages`, one `compile_error!` each.
pub open spec fn is_compile_errors(t: Seq<char>, messages: Seq<Seq<char>>) -> bool {
    exists|lits: Seq<Seq<char>>| #[trigger] renders_each(lits, messages) && t == compile_errors_text(lits)
}

/// `t` is the code that reports `message` alone.
pub open spec fn is_compile_error(t: Seq<char>, message: Seq<char>) -> bool {
    exists|lit: Seq<char>| #[trigger] renders(lit, message) && t == compile_error_text(lit) + " "@
}

impl MacroError {
    /// An error with a single message, pointing at `at`.
    pub fn new(at: Site, message: String) -> (res: MacroError)
        ensures
            views(res.messages@) == seq![message@],
            res.sites@ == seq![at],
    {
        let mut messages = Vec::new();
        messages.push(message);
        let mut sites = Vec::new();
        sites.push(at);
        proof {
            assert(views(messages@) =~= seq![message@]);
            assert(sites@ =~= seq![at]);
        }
        MacroError { messages, sites }
    }

    /// Adds the messages of `other`, with their sites, after those of `self`.
    pub fn combine(&mut self, other: MacroError)
        ensures
            views(final(self).messages@) == views(old(self).messages@) + views(other.messages@),
            final(self).sites@ == old(self).sites@ + other.sites@,
    {
        let mut other = other;
        let ghost a = self.messages@;
        let ghost b = other.messages@;
        let ghost sa = self.sites@;
        let ghost sb = other.sites@;
        self.messages.append(&mut other.messages);
        self.sites.append(&mut other.sites);
        proof {
            assert(views(self.messages@) =~= views(a) + views(b));
        }
    }

    /// The error as code: one `compile_error!` invocation per message.
    pub fn to_compile_error(&self) -> (res: String)
        ensures
            is_compile_errors(res@, views(self.messages@)),
    {
        let n = self.messages.len();
        let mut out = String::new();
        let ghost mut lits: Seq<Seq<char>> = Seq::empty();
        for i in 0..n
            invariant
                n == self.messages@.len(),
                renders_each(lits, views(self.messages@).take(i as int)),
                out@ == compile_errors_text(lits),
        {
            let lit = string_literal_text(self.messages[i].as_str());
            out.append("::core::compile_error! { ");
            out.append(lit.as_str());
            out.append(" }");
            out.append(" ");
            proof {
                let old_lits = lits;
                lits = lits.push(lit@);
                let f = |l: Seq<char>| compile_error_text(l);
                assert(lits.map_values(f).drop_last() =~= old_lits.map_values(f));
                assert(out@ =~= compile_errors_text(lits));
                let ms = views(self.messages@);
                assert forall|k: int| 0 <= k < lits.len() implies renders(#[trigger] lits[k], ms.take(i + 1)[k]) by {
                    if k < i {
                        assert(renders(old_lits[k], ms.take(i as int)[k]));
                    }
                }
            }
        }
        proof {
            assert(views(self.messages@).take(n as int) =~= views(self.messages@));
        }
        out
    }
}

/// An error reaches the compiler as `::core::compile_error! { lit }` whose
/// string literal reads back as the message, followed by a space.
pub proof fn compile_error_carries_the_message(t: Seq<char>, message: Seq<char>)
    requires
        is_compile_error(t, message),
    ensures
        exists|lit: Seq<char>| #[trigger] syn_lit_str_value(lit) == Some(message) && t == "::core::compile_error! { "@
            + lit + " }"@ + " "@,
{
    let lit = choose|lit: Seq<char>| #[trigger] renders(lit, message) && t == compile_error_text(lit) + " "@;
    assert(syn_lit_str_value(lit) == Some(message));
}

/// The code for a single message is one `compile_error!`.
pub proof fn lemma_one_message(t: Seq<char>, ms: Seq<Seq<char>>)
    requires
        ms.len() == 1,
        is_compile_errors(t, ms),
    ensures
        is_compile_error(t, ms[0]),
{
    let lits = choose|lits: Seq<Seq<char>>| #[trigger] renders_each(lits, ms) && t == compile_errors_text(lits);
    let cs = lits.map_values(|l: Seq<char>| compile_error_text(l));
    assert(cs.drop_last() =~= Seq::<Seq<char>>::empty());
    assert(concat_each(cs.drop_last(), " "@) == Seq::<char>::empty());
    assert(t =~= compile_error_text(lits[0]) + " "@);
    assert(renders(lits[0], ms[0]));
}

} // verus!
