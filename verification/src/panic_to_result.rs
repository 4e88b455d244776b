//! An attribute macro that turns a function which may `panic!` into one that
//! returns `Result<T, String>`: every `panic!(message)` directly inside the
//! then-branch of a top-level `if` becomes `return Err(message.to_string());`,
//! the function's final expression is wrapped in `Ok(..)`, and the return type
//! `T` becomes `Result<T, String>`.

use vstd::prelude::*;
use crate::error::{MacroError, Site};
use crate::text::{append_each, concat_each, contains_text, text_contains};
use crate::tokens::{str_is, views};

verus! {

/// A macro invocation used as a statement, such as `panic!("too old");`.
#[derive(Debug)]
pub struct MacroStmt {
    /// The segments of the macro's path (`panic` for `panic!`).
    pub path: Vec<String>,
    /// The tokens between the macro's delimiters, as text.
    pub tokens: String,
    /// The invocation as text, without a trailing semicolon.
    pub text: String,
    /// Whether a semicolon follows.
    pub semi: bool,
    /// Where the invocation stands in the function.
    pub at: Site,
}

/// A statement inside the then-branch of an `if`.
#[derive(Debug)]
pub enum BranchStmt {
    Macro(MacroStmt),
    /// Any other statement, as text (its semicolon included).
    Other(String),
}

/// A statement of the function's body.
#[derive(Debug)]
pub enum FnStmt {
    /// `if cond { then_branch } rest`, where `rest` is the text of an `else`
    /// part (empty when there is none).
    If { cond: String, then_branch: Vec<BranchStmt>, rest: String, semi: bool },
    /// Another expression, as text.
    Expr { text: String, semi: bool },
    /// A macro invocation.
    Macro(MacroStmt),
    /// A `let` or an item, as text.
    Other(String),
}

/// The declared return type.
#[derive(Debug)]
pub enum ReturnDef {
    /// No `->`: the function returns `()`.
    Default,
    /// `-> Type`, with the type as text.
    Type(String),
}

/// A function the attribute is applied to.
#[derive(Debug)]
pub struct FnDef {
    /// Its attributes, as text.
    pub attrs: String,
    /// Its visibility, as text.
    pub vis: String,
    /// The signature up to the return type: `fn name<..>(args)` and any
    /// qualifiers before `fn`.
    pub sig_head: String,
    /// The return type.
    pub output: ReturnDef,
    /// The `where` clause, as text (empty when there is none).
    pub where_clause: String,
    /// The statements of the body.
    pub stmts: Vec<FnStmt>,
}

/// The semicolon a statement ends with, if any.
pub open spec fn semi_text(semi: bool) -> Seq<char> {
    if semi { ";"@ } else { Seq::empty() }
}

/// A macro statement as text.
pub open spec fn macro_text(m: MacroStmt) -> Seq<char> {
    m.text@ + semi_text(m.semi)
}

/// A then-branch statement as text.
pub open spec fn branch_text(b: BranchStmt) -> Seq<char> {
    match b {
        BranchStmt::Macro(m) => macro_text(m),
        BranchStmt::Other(t) => t@,
    }
}

/// An `if` statement as text, its then-branch given as statement texts.
pub open spec fn if_text(cond: Seq<char>, then_texts: Seq<Seq<char>>, rest: Seq<char>, semi: bool) -> Seq<char> {
    "if "@ + cond + " { "@ + concat_each(then_texts, " "@) + "} "@ + rest + semi_text(semi)
}

/// A body statement as text.
pub open spec fn stmt_text(s: FnStmt) -> Seq<char> {
    match s {
        FnStmt::If { cond, then_branch, rest, semi } => if_text(
            cond@,
            then_branch@.map_values(|b: BranchStmt| branch_text(b)),
            rest@,
            semi,
        ),
        FnStmt::Expr { text, semi } => text@ + semi_text(semi),
        FnStmt::Macro(m) => macro_text(m),
        FnStmt::Other(t) => t@,
    }
}

/// Some segment of the macro's path is `panic`.
pub open spec fn is_panic(m: MacroStmt) -> bool {
    exists|i: int| 0 <= i < m.path@.len() && (#[trigger] m.path@[i])@ == "panic"@
}

/// The message tokens of a `panic!`, `None` for another macro.
pub open spec fn panic_content(m: MacroStmt) -> Option<Seq<char>> {
    if is_panic(m) { Some(m.tokens@) } else { None }
}

/// The message for a `panic!` without a message.
pub open spec fn empty_panic_message(m: MacroStmt) -> Seq<char> {
    "please make sure every panic in your function has a message, check: "@ + m.text@
        + if m.semi { " ;"@ } else { Seq::empty() }
}

/// `return Err(message.to_string());`: what a `panic!(message)` becomes.
pub open spec fn early_return_text(message: Seq<char>) -> Seq<char> {
    "return Err("@ + message + ".to_string());"@
}

/// A then-branch statement after the rewrite, or the error it raises with
/// the place it points at.
pub open spec fn handle_branch(b: BranchStmt) -> Result<Seq<char>, (Seq<char>, Site)> {
    match b {
        BranchStmt::Macro(m) => match panic_content(m) {
            Some(t) => if t.len() == 0 {
                Err((empty_panic_message(m), m.at))
            } else {
                Ok(early_return_text(t))
            },
            None => Ok(macro_text(m)),
        },
        BranchStmt::Other(t) => Ok(t@),
    }
}

/// The then-branch after the rewrite, or the first error raised in it.
pub open spec fn handle_branches(bs: Seq<BranchStmt>) -> Result<Seq<Seq<char>>, (Seq<char>, Site)>
    decreases bs.len(),
{
    if bs.len() == 0 {
        Ok(Seq::empty())
    } else {
        match handle_branch(bs[0]) {
            Err(e) => Err(e),
            Ok(t) => match handle_branches(bs.drop_first()) {
                Ok(ts) => Ok(seq![t] + ts),
                Err(e) => Err(e),
            },
        }
    }
}

/// A body statement after the rewrite: only an `if` changes.
pub open spec fn handle_stmt(s: FnStmt) -> Result<Seq<char>, (Seq<char>, Site)> {
    match s {
        FnStmt::If { cond, then_branch, rest, semi } => match handle_branches(then_branch@) {
            Ok(ts) => Ok(if_text(cond@, ts, rest@, semi)),
            Err(e) => Err(e),
        },
        _ => Ok(stmt_text(s)),
    }
}

/// The body after the rewrite, or the first error raised in it.
pub open spec fn handle_stmts(ss: Seq<FnStmt>) -> Result<Seq<Seq<char>>, (Seq<char>, Site)>
    decreases ss.len(),
{
    if ss.len() == 0 {
        Ok(Seq::empty())
    } else {
        match handle_stmt(ss[0]) {
            Err(e) => Err(e),
            Ok(t) => match handle_stmts(ss.drop_first()) {
                Ok(ts) => Ok(seq![t] + ts),
                Err(e) => Err(e),
            },
        }
    }
}

/// The message for a function that already returns a `Result`.
pub open spec fn result_signature_message(ty: Seq<char>) -> Seq<char> {
    "this macro can only be applied to a function that does not return a Result.\nSignature: "@ + ty
}

/// The new return type, or the error when the declared type mentions `Result`.
pub open spec fn spec_signature_output(output: ReturnDef) -> Result<Seq<char>, Seq<char>> {
    match output {
        ReturnDef::Default => Ok("-> Result<(), String>"@),
        ReturnDef::Type(ty) => if text_contains(ty@, "Result"@) {
            Err(result_signature_message(ty@))
        } else {
            Ok("-> Result<"@ + ty@ + ", String>"@)
        },
    }
}

/// `Ok(statement)`: the final expression as the function's success value.
pub open spec fn ok_text(last: Seq<char>) -> Seq<char> {
    "Ok("@ + last + ")"@
}

/// The rewritten function.
pub open spec fn rewritten_fn_text(f: FnDef, output: Seq<char>, stmts: Seq<Seq<char>>) -> Seq<char> {
    let body = stmts.drop_last().push(ok_text(stmts.last()));
    f.attrs@ + " "@ + f.vis@ + " "@ + f.sig_head@ + " "@ + output + " "@ + f.where_clause@ + " { "@
        + concat_each(body, " "@) + "}"@
}

/// The errors the attribute reports, with where each points: the body's
/// first error, then the signature's (at the signature); none when both are
/// accepted.
pub open spec fn panic_to_result_errors(f: FnDef) -> Seq<(Seq<char>, Site)> {
    match (handle_stmts(f.stmts@), spec_signature_output(f.output)) {
        (Ok(_), Ok(_)) => Seq::empty(),
        (Ok(_), Err(e)) => seq![(e, Site::Signature)],
        (Err(e), Ok(_)) => seq![e],
        (Err(e1), Err(e2)) => seq![e1, (e2, Site::Signature)],
    }
}

/// The messages of a list of errors.
pub open spec fn error_messages(errs: Seq<(Seq<char>, Site)>) -> Seq<Seq<char>> {
    errs.map_values(|e: (Seq<char>, Site)| e.0)
}

/// The sites of a list of errors.
pub open spec fn error_sites(errs: Seq<(Seq<char>, Site)>) -> Seq<Site> {
    errs.map_values(|e: (Seq<char>, Site)| e.1)
}

/// The statement can stand as the function's final value inside `Ok(..)`:
/// an expression, an `if` or a macro, with no semicolon.
pub open spec fn is_value_stmt(s: FnStmt) -> bool {
    match s {
        FnStmt::If { semi, .. } => !semi,
        FnStmt::Expr { semi, .. } => !semi,
        FnStmt::Macro(m) => !m.semi,
        FnStmt::Other(_) => false,
    }
}

/// Whether the body ends with a statement that can become `Ok(..)`.
pub fn ends_with_value(item: &FnDef) -> (res: bool)
    ensures
        res == (item.stmts@.len() > 0 && is_value_stmt(item.stmts@.last())),
{
    let n = item.stmts.len();
    if n == 0 {
        return false;
    }
    match &item.stmts[n - 1] {
        FnStmt::If { semi, .. } => !*semi,
        FnStmt::Expr { semi, .. } => !*semi,
        FnStmt::Macro(m) => !m.semi,
        FnStmt::Other(_) => false,
    }
}

/// The message tokens of a `panic!`, `None` for another macro.
pub fn extract_panic_content(expr_macro: &MacroStmt) -> (res: Option<String>)
    ensures
        match res {
            Some(t) => panic_content(*expr_macro) == Some(t@),
            None => panic_content(*expr_macro) is None,
        },
{
    let n = expr_macro.path.len();
    let mut does_panic = false;
    for i in 0..n
        invariant
            n == expr_macro.path@.len(),
            does_panic == exists|k: int| 0 <= k < i && (#[trigger] expr_macro.path@[k])@ == "panic"@,
    {
        if str_is(&expr_macro.path[i], "panic") {
            does_panic = true;
        }
    }
    if does_panic {
        Some(expr_macro.tokens.clone())
    } else {
        None
    }
}

/// A macro statement as text.
fn macro_text_of(m: &MacroStmt) -> (res: String)
    ensures
        res@ == macro_text(*m),
{
    let mut s = m.text.clone();
    if m.semi {
        s.append(";");
    }
    assert(s@ =~= macro_text(*m));
    s
}

/// A then-branch statement after the rewrite, or the error it raises.
fn handle_branch_stmt(b: &BranchStmt) -> (res: Result<String, MacroError>)
    ensures
        match res {
            Ok(t) => handle_branch(*b) == Ok::<Seq<char>, (Seq<char>, Site)>(t@),
            Err(e) => handle_branch(*b) matches Err(m) && views(e.messages@) == seq![m.0] && e.sites@ == seq![m.1],
        },
{
    match b {
        BranchStmt::Macro(m) => match extract_panic_content(m) {
            Some(t) => {
                if t.as_str().unicode_len() == 0 {
                    let mut msg = String::from_str(
                        "please make sure every panic in your function has a message, check: ",
                    );
                    msg.append(m.text.as_str());
                    if m.semi {
                        msg.append(" ;");
                    }
                    assert(msg@ =~= empty_panic_message(*m));
                    Err(MacroError::new(m.at, msg))
                } else {
                    let mut s = String::from_str("return Err(");
                    s.append(t.as_str());
                    s.append(".to_string());");
                    assert(s@ =~= early_return_text(t@));
                    Ok(s)
                }
            },
            None => Ok(macro_text_of(m)),
        },
        BranchStmt::Other(t) => Ok(t.clone()),
    }
}

/// Rewrites one body statement: in the then-branch of an `if`, each
/// `panic!(message)` becomes `return Err(message.to_string());`; a `panic!`
/// without a message is an error, pointing at that `panic!`. Other
/// statements are kept.
pub fn handle_expression(stmt: &FnStmt) -> (res: Result<String, MacroError>)
    ensures
        match res {
            Ok(t) => handle_stmt(*stmt) == Ok::<Seq<char>, (Seq<char>, Site)>(t@),
            Err(e) => handle_stmt(*stmt) matches Err(m) && views(e.messages@) == seq![m.0] && e.sites@ == seq![m.1],
        },
{
    match stmt {
        FnStmt::If { cond, then_branch, rest, semi } => {
            let n = then_branch.len();
            let mut texts: Vec<String> = Vec::new();
            let mut i: usize = 0;
            assert(then_branch@.skip(0) =~= then_branch@);
            while i < n
                invariant
                    n == then_branch@.len(),
                    *stmt is If,
                    stmt->If_then_branch == *then_branch,
                    i <= n,
                    handle_branches(then_branch@) == match handle_branches(then_branch@.skip(i as int)) {
                        Ok(ts) => Ok(views(texts@) + ts),
                        Err(e) => Err::<Seq<Seq<char>>, (Seq<char>, Site)>(e),
                    },
                decreases n - i,
            {
                let ghost tail = then_branch@.skip(i as int);
                assert(tail.drop_first() =~= then_branch@.skip(i + 1));
                assert(tail[0] == then_branch@[i as int]);
                match handle_branch_stmt(&then_branch[i]) {
                    Err(e) => {
                        proof {
                            let m = handle_branch(tail[0])->Err_0;
                            assert(handle_branches(tail) == Err::<Seq<Seq<char>>, (Seq<char>, Site)>(m));
                            assert(handle_branches(then_branch@) == Err::<Seq<Seq<char>>, (Seq<char>, Site)>(m));
                            assert(handle_stmt(*stmt) == Err::<Seq<char>, (Seq<char>, Site)>(m));
                        }
                        return Err(e);
                    },
                    Ok(t) => {
                        let ghost prev = views(texts@);
                        texts.push(t);
                        proof {
                            assert(views(texts@) =~= prev.push(t@));
                            match handle_branches(then_branch@.skip(i + 1)) {
                                Ok(ts) => {
                                    assert(prev + (seq![t@] + ts) =~= views(texts@) + ts);
                                },
                                Err(_) => {},
                            }
                        }
                    },
                }
                i = i + 1;
            }
            assert(then_branch@.skip(n as int) =~= Seq::<BranchStmt>::empty());
            assert(views(texts@) + Seq::<Seq<char>>::empty() =~= views(texts@));
            let mut s = String::from_str("if ");
            s.append(cond.as_str());
            s.append(" { ");
            append_each(&mut s, &texts, " ");
            s.append("} ");
            s.append(rest.as_str());
            if *semi {
                s.append(";");
            }
            assert(s@ =~= if_text(cond@, views(texts@), rest@, *semi));
            Ok(s)
        },
        FnStmt::Expr { text, semi } => {
            let mut s = text.clone();
            if *semi {
                s.append(";");
            }
            assert(s@ =~= stmt_text(*stmt));
            Ok(s)
        },
        FnStmt::Macro(m) => Ok(macro_text_of(m)),
        FnStmt::Other(t) => Ok(t.clone()),
    }
}

/// `Ok(statement)`.
pub fn last_stmt_as_result(last: String) -> (res: String)
    ensures
        res@ == ok_text(last@),
{
    let mut s = String::from_str("Ok(");
    s.append(last.as_str());
    s.append(")");
    assert(s@ =~= ok_text(last@));
    s
}

/// The new return type `-> Result<T, String>`, or an error, pointing at
/// the function's signature, when the declared type already mentions
/// `Result`.
pub fn signature_output_as_result(item: &FnDef) -> (res: Result<String, MacroError>)
    ensures
        match res {
            Ok(t) => spec_signature_output(item.output) == Ok::<Seq<char>, Seq<char>>(t@),
            Err(e) => spec_signature_output(item.output) matches Err(m) && views(e.messages@) == seq![m]
                && e.sites@ == seq![Site::Signature],
        },
{
    match &item.output {
        ReturnDef::Default => Ok(String::from_str("-> Result<(), String>")),
        ReturnDef::Type(ty) => {
            if contains_text(ty.as_str(), "Result") {
                let mut msg = String::from_str(
                    "this macro can only be applied to a function that does not return a Result.\nSignature: ",
                );
                msg.append(ty.as_str());
                assert(msg@ =~= result_signature_message(ty@));
                return Err(MacroError::new(Site::Signature, msg));
            }
            let mut s = String::from_str("-> Result<");
            s.append(ty.as_str());
            s.append(", String>");
            assert(s@ =~= "-> Result<"@ + ty@ + ", String>"@);
            Ok(s)
        },
    }
}

/// Rewrites the body's statements, stopping at the first error.
fn handle_statements(stmts: &Vec<FnStmt>) -> (res: Result<Vec<String>, MacroError>)
    ensures
        match res {
            Ok(v) => handle_stmts(stmts@) == Ok::<Seq<Seq<char>>, (Seq<char>, Site)>(views(v@)),
            Err(e) => handle_stmts(stmts@) matches Err(m) && views(e.messages@) == seq![m.0] && e.sites@ == seq![m.1],
        },
{
    let n = stmts.len();
    let mut texts: Vec<String> = Vec::new();
    let mut i: usize = 0;
    assert(stmts@.skip(0) =~= stmts@);
    while i < n
        invariant
            n == stmts@.len(),
            i <= n,
            handle_stmts(stmts@) == match handle_stmts(stmts@.skip(i as int)) {
                Ok(ts) => Ok(views(texts@) + ts),
                Err(e) => Err::<Seq<Seq<char>>, (Seq<char>, Site)>(e),
            },
        decreases n - i,
    {
        let ghost tail = stmts@.skip(i as int);
        assert(tail.drop_first() =~= stmts@.skip(i + 1));
        assert(tail[0] == stmts@[i as int]);
        match handle_expression(&stmts[i]) {
            Err(e) => {
                proof {
                    let m = handle_stmt(tail[0])->Err_0;
                    assert(handle_stmts(tail) == Err::<Seq<Seq<char>>, (Seq<char>, Site)>(m));
                }
                return Err(e);
            },
            Ok(t) => {
                let ghost prev = views(texts@);
                texts.push(t);
                proof {
                    assert(views(texts@) =~= prev.push(t@));
                    match handle_stmts(stmts@.skip(i + 1)) {
                        Ok(ts) => {
                            assert(prev + (seq![t@] + ts) =~= views(texts@) + ts);
                        },
                        Err(_) => {},
                    }
                }
            },
        }
        i = i + 1;
    }
    assert(stmts@.skip(n as int) =~= Seq::<FnStmt>::empty());
    assert(views(texts@) + Seq::<Seq<char>>::empty() =~= views(texts@));
    Ok(texts)
}

/// Rewrites a function so that it returns `Result<T, String>` in place of
/// panicking (see the module's documentation), or reports why it cannot:
/// the body's first error, then the signature's.
pub fn panic_to_result(item: &FnDef) -> (res: Result<String, MacroError>)
    requires
        (handle_stmts(item.stmts@) is Ok && spec_signature_output(item.output) is Ok) ==> item.stmts@.len() > 0
            && is_value_stmt(item.stmts@.last()),
    ensures
        match res {
            Ok(t) => handle_stmts(item.stmts@) matches Ok(ts) && spec_signature_output(item.output) matches Ok(o)
                && t@ == rewritten_fn_text(*item, o, ts)
                && (item.attrs@ + " "@ + item.vis@ + " "@ + item.sig_head@ + " "@ + o + " "@ + item.where_clause@
                + " { "@).is_prefix_of(t@),
            Err(e) => panic_to_result_errors(*item).len() > 0
                && views(e.messages@) == error_messages(panic_to_result_errors(*item))
                && e.sites@ == error_sites(panic_to_result_errors(*item)),
        },
{
    let signature_output = signature_output_as_result(item);
    let statements_output = handle_statements(&item.stmts);
    match (statements_output, signature_output) {
        (Ok(stmts), Ok(sig)) => {
            let mut stmts = stmts;
            let ghost all = views(stmts@);
            proof {
                lemma_handle_stmts_len(item.stmts@);
            }
            let last = stmts.pop().unwrap();
            stmts.push(last_stmt_as_result(last));
            assert(views(stmts@) =~= all.drop_last().push(ok_text(all.last())));
            let mut out = item.attrs.clone();
            out.append(" ");
            out.append(item.vis.as_str());
            out.append(" ");
            out.append(item.sig_head.as_str());
            out.append(" ");
            out.append(sig.as_str());
            out.append(" ");
            out.append(item.where_clause.as_str());
            out.append(" { ");
            append_each(&mut out, &stmts, " ");
            out.append("}");
            assert(out@ =~= rewritten_fn_text(*item, sig@, all));
            proof {
                rewrite_keeps_visibility_and_signature(*item, sig@, all);
            }
            Ok(out)
        },
        (Ok(_), Err(err)) => {
            proof {
                let errs = panic_to_result_errors(*item);
                assert(error_messages(errs) =~= views(err.messages@));
                assert(error_sites(errs) =~= err.sites@);
            }
            Err(err)
        },
        (Err(err), Ok(_)) => {
            proof {
                let errs = panic_to_result_errors(*item);
                assert(error_messages(errs) =~= views(err.messages@));
                assert(error_sites(errs) =~= err.sites@);
            }
            Err(err)
        },
        (Err(stmt_error), Err(sig_error)) => {
            let mut stmt_error = stmt_error;
            stmt_error.combine(sig_error);
            proof {
                let errs = panic_to_result_errors(*item);
                assert(error_messages(errs) =~= views(stmt_error.messages@));
                assert(error_sites(errs) =~= stmt_error.sites@);
            }
            Err(stmt_error)
        },
    }
}

/// A `panic!` with a message, directly in the then-branch of an `if`,
/// becomes an early return of that message as the error; a `panic!` without
/// a message is refused, the error pointing at that `panic!`.
pub proof fn panic_becomes_early_error(m: MacroStmt)
    requires
        is_panic(m),
    ensures
        m.tokens@.len() > 0 ==> handle_branch(BranchStmt::Macro(m)) == Ok::<Seq<char>, (Seq<char>, Site)>(
            "return Err("@ + m.tokens@ + ".to_string());"@,
        ),
        m.tokens@.len() == 0 ==> handle_branch(BranchStmt::Macro(m)) == Err::<Seq<char>, (Seq<char>, Site)>(
            (empty_panic_message(m), m.at),
        ),
{
}

/// An `if` keeps its condition, its `else` part and its semicolon; its
/// then-branch is rewritten statement by statement, in order.
pub proof fn if_keeps_its_condition_and_else(cond: String, then_branch: Vec<BranchStmt>, rest: String, semi: bool)
    ensures
        handle_branches(then_branch@) matches Ok(ts) ==> handle_stmt(
            FnStmt::If { cond, then_branch, rest, semi },
        ) == Ok::<Seq<char>, (Seq<char>, Site)>(
            "if "@ + cond@ + " { "@ + concat_each(ts, " "@) + "} "@ + rest@ + if semi { ";"@ } else { Seq::empty() },
        ),
        handle_branches(then_branch@) matches Ok(ts) ==> ts.len() == then_branch@.len() && forall|i: int|
            0 <= i < ts.len() ==> handle_branch(then_branch@[i]) == Ok::<Seq<char>, (Seq<char>, Site)>(#[trigger] ts[i]),
{
    lemma_handle_branches_each(then_branch@);
}

/// Each rewritten then-branch statement is the rewrite of the statement at
/// the same position.
proof fn lemma_handle_branches_each(bs: Seq<BranchStmt>)
    ensures
        handle_branches(bs) matches Ok(ts) ==> ts.len() == bs.len() && forall|i: int|
            0 <= i < ts.len() ==> handle_branch(bs[i]) == Ok::<Seq<char>, (Seq<char>, Site)>(#[trigger] ts[i]),
    decreases bs.len(),
{
    if bs.len() > 0 {
        lemma_handle_branches_each(bs.drop_first());
        if let Ok(ts) = handle_branches(bs) {
            let rest = handle_branches(bs.drop_first())->Ok_0;
            assert(ts == seq![handle_branch(bs[0])->Ok_0] + rest);
            assert forall|i: int| 0 <= i < ts.len() implies handle_branch(bs[i]) == Ok::<Seq<char>, (Seq<char>, Site)>(
                #[trigger] ts[i],
            ) by {
                if i > 0 {
                    assert(ts[i] == rest[i - 1]);
                    assert(bs[i] == bs.drop_first()[i - 1]);
                }
            }
        }
    }
}

/// Only the then-branches of top-level `if`s change: any other statement,
/// a `panic!` at the top level included, is written back as it was, with its
/// semicolon; and a macro is a panic exactly when a segment of its path is
/// `panic`, whose message is the macro's tokens.
pub proof fn other_statements_are_kept(s: FnStmt, m: MacroStmt)
    ensures
        s matches FnStmt::Expr { text, semi } ==> handle_stmt(s) == Ok::<Seq<char>, (Seq<char>, Site)>(
            text@ + if semi { ";"@ } else { Seq::empty() },
        ),
        s matches FnStmt::Macro(mm) ==> handle_stmt(s) == Ok::<Seq<char>, (Seq<char>, Site)>(
            mm.text@ + if mm.semi { ";"@ } else { Seq::empty() },
        ),
        s matches FnStmt::Other(t) ==> handle_stmt(s) == Ok::<Seq<char>, (Seq<char>, Site)>(t@),
        (exists|i: int| 0 <= i < m.path@.len() && (#[trigger] m.path@[i])@ == "panic"@) ==> panic_content(m)
            == Some(m.tokens@),
        !(exists|i: int| 0 <= i < m.path@.len() && (#[trigger] m.path@[i])@ == "panic"@) ==> panic_content(m) is None,
        !(exists|i: int| 0 <= i < m.path@.len() && (#[trigger] m.path@[i])@ == "panic"@) ==> handle_branch(
            BranchStmt::Macro(m),
        ) == Ok::<Seq<char>, (Seq<char>, Site)>(m.text@ + if m.semi { ";"@ } else { Seq::empty() }),
{
}

/// The rewrite changes only the return type and the body: the output opens
/// with the function's attributes, its own visibility and its signature
/// head, copied as they are, then the new return type and the `where`
/// clause; it closes with the last statement wrapped in `Ok(..)`.
pub proof fn rewrite_keeps_visibility_and_signature(f: FnDef, output: Seq<char>, stmts: Seq<Seq<char>>)
    requires
        stmts.len() > 0,
    ensures
        (f.attrs@ + " "@ + f.vis@ + " "@ + f.sig_head@ + " "@ + output + " "@ + f.where_clause@ + " { "@).is_prefix_of(
            rewritten_fn_text(f, output, stmts),
        ),
        ("Ok("@ + stmts.last() + ") }"@).is_suffix_of(rewritten_fn_text(f, output, stmts)),
{
    let head = f.attrs@ + " "@ + f.vis@ + " "@ + f.sig_head@ + " "@ + output + " "@ + f.where_clause@ + " { "@;
    let body = stmts.drop_last().push("Ok("@ + stmts.last() + ")"@);
    let t = rewritten_fn_text(f, output, stmts);
    assert(body.drop_last() =~= stmts.drop_last());
    assert(body.last() == "Ok("@ + stmts.last() + ")"@);
    assert(t =~= head + (concat_each(body.drop_last(), " "@) + body.last() + " "@) + "}"@);
    assert(t.subrange(0, head.len() as int) =~= head);
    let tail = "Ok("@ + stmts.last() + ") }"@;
    let front = head + concat_each(stmts.drop_last(), " "@);
    reveal_strlit(") }");
    reveal_strlit(")");
    reveal_strlit(" ");
    reveal_strlit("}");
    assert(concat_each(body.drop_last(), " "@) == concat_each(stmts.drop_last(), " "@));
    assert(t == head + (concat_each(stmts.drop_last(), " "@) + ("Ok("@ + stmts.last() + ")"@) + " "@) + "}"@);
    assert(t =~= front + tail);
    assert(t.subrange(front.len() as int, t.len() as int) =~= tail);
}

/// A function whose declared return type mentions `Result` is refused; any
/// other return type `T` becomes `Result<T, String>`, and no return type
/// becomes `Result<(), String>`.
pub proof fn return_type_becomes_result(ty: String)
    ensures
        text_contains(ty@, "Result"@) <==> spec_signature_output(ReturnDef::Type(ty)) is Err,
        !text_contains(ty@, "Result"@) ==> spec_signature_output(ReturnDef::Type(ty)) == Ok::<Seq<char>, Seq<char>>(
            "-> Result<"@ + ty@ + ", String>"@,
        ),
        spec_signature_output(ReturnDef::Default) == Ok::<Seq<char>, Seq<char>>("-> Result<(), String>"@),
{
}

/// The rewritten body has one statement per original statement.
proof fn lemma_handle_stmts_len(ss: Seq<FnStmt>)
    ensures
        handle_stmts(ss) matches Ok(ts) ==> ts.len() == ss.len(),
    decreases ss.len(),
{
    if ss.len() > 0 {
        lemma_handle_stmts_len(ss.drop_first());
    }
}

} // verus!
