//! Macros that turn a YAML configuration file into a struct: the macro's
//! arguments name the file (`path = ".."`) or tune the output
//! (`exclude = "from"`); every key of the file becomes a `String` field
//! initialized with the key's value.

use vstd::prelude::*;
use crate::attrs::lit_str_at;
use crate::error::{MacroError, Site};
use crate::model::{AttrDef, DeriveDef};
use crate::syntax::{lit_str_value, renders, string_literal_text, syn_lit_str_value};
use crate::text::{append_each, concat_each};
use crate::tokens::{is_ident_named, is_punct, opt_view, tok_is_ident_named, tok_is_punct, views, Tok};

verus! {

/// The macro's arguments.
#[derive(Debug)]
pub struct ConfigInput {
    /// The configuration file, when given.
    pub path: Option<String>,
    /// Whether `exclude = "from"` was given.
    pub exclude_from: bool,
}

/// Reads `keyword = "value"` from the first token on: the value, or the
/// error message with the position of the token it points at (`keyword` is
/// checked by the caller; the reading takes three tokens).
pub open spec fn keyword_value(toks: Seq<Tok>, keyword: Seq<char>) -> Result<Seq<char>, (Seq<char>, Site)> {
    if !(toks.len() > 1 && is_punct(toks[1], '=')) {
        Err(("expected equals sign after "@ + keyword, Site::Token(1)))
    } else {
        match lit_str_at(toks, 2) {
            None => Err(("expected value after the equals sign"@, Site::Token(2))),
            Some(v) => Ok(v),
        }
    }
}

/// The arguments read: nothing, `path = "file"` or `exclude = "value"`,
/// as (path, exclude_from); or the error message and where it points.
/// Tokens after what was read are left to the caller.
pub open spec fn spec_config_input(toks: Seq<Tok>) -> Result<(Option<Seq<char>>, bool), (Seq<char>, Site)> {
    if toks.len() == 0 {
        Ok((None, false))
    } else if is_ident_named(toks[0], "path"@) {
        match keyword_value(toks, "path"@) {
            Ok(v) => Ok((Some(v), false)),
            Err(e) => Err(e),
        }
    } else if is_ident_named(toks[0], "exclude"@) {
        match keyword_value(toks, "exclude"@) {
            Ok(v) => Ok((None, v == "from"@)),
            Err(e) => Err(e),
        }
    } else {
        Err(("config macro only allows for 'path' or 'exclude' input"@, Site::Token(0)))
    }
}

/// The macro's arguments as the macro takes them: read as
/// [`spec_config_input`] reads them, and an error at the first token left
/// over after a successful reading.
pub open spec fn spec_config_arguments(toks: Seq<Tok>) -> Result<(Option<Seq<char>>, bool), (Seq<char>, Site)> {
    match spec_config_input(toks) {
        Ok(c) => if toks.len() > 3 {
            Err(("unexpected token"@, Site::Token(3)))
        } else {
            Ok(c)
        },
        Err(e) => Err(e),
    }
}

/// Reads `keyword = "value"`: the value or the error.
fn parse_keyword_value(toks: &Vec<Tok>, keyword: &str) -> (res: Result<String, MacroError>)
    ensures
        match res {
            Ok(v) => keyword_value(toks@, keyword@) == Ok::<Seq<char>, (Seq<char>, Site)>(v@),
            Err(e) => keyword_value(toks@, keyword@) matches Err(m) && views(e.messages@) == seq![m.0]
                && e.sites@ == seq![m.1],
        },
{
    let n = toks.len();
    if !(n > 1 && tok_is_punct(&toks[1], '=')) {
        let mut msg = String::from_str("expected equals sign after ");
        msg.append(keyword);
        return Err(MacroError::new(Site::Token(1), msg));
    }
    let value = if n > 2 {
        match &toks[2] {
            Tok::Literal(l) => lit_str_value(l.as_str()),
            _ => None,
        }
    } else {
        None
    };
    match value {
        None => Err(MacroError::new(Site::Token(2), String::from_str("expected value after the equals sign"))),
        Some(v) => Ok(v),
    }
}

impl ConfigInput {
    /// Reads the macro's arguments: nothing, `path = "file"` or
    /// `exclude = "value"` (`exclude_from` holds when the value is `from`).
    pub fn parse(input: &Vec<Tok>) -> (res: Result<ConfigInput, MacroError>)
        ensures
            match res {
                Ok(c) => spec_config_input(input@) == Ok::<(Option<Seq<char>>, bool), (Seq<char>, Site)>(
                    (opt_view(c.path), c.exclude_from),
                ),
                Err(e) => spec_config_input(input@) matches Err(m) && views(e.messages@) == seq![m.0]
                    && e.sites@ == seq![m.1],
            },
    {
        if input.len() == 0 {
            return Ok(ConfigInput { path: None, exclude_from: false });
        }
        if tok_is_ident_named(&input[0], "path") {
            let value = parse_keyword_value(input, "path")?;
            Ok(ConfigInput { path: Some(value), exclude_from: false })
        } else if tok_is_ident_named(&input[0], "exclude") {
            let value = parse_keyword_value(input, "exclude")?;
            let exclude_from = crate::tokens::str_is(&value, "from");
            Ok(ConfigInput { path: None, exclude_from })
        } else {
            Err(
                MacroError::new(
                    Site::Token(0),
                    String::from_str("config macro only allows for 'path' or 'exclude' input"),
                ),
            )
        }
    }
}

/// Reads the macro's arguments and refuses tokens left over after them.
pub fn parse_arguments(input: &Vec<Tok>) -> (res: Result<ConfigInput, MacroError>)
    ensures
        match res {
            Ok(c) => spec_config_arguments(input@) == Ok::<(Option<Seq<char>>, bool), (Seq<char>, Site)>(
                (opt_view(c.path), c.exclude_from),
            ),
            Err(e) => spec_config_arguments(input@) matches Err(m) && views(e.messages@) == seq![m.0]
                && e.sites@ == seq![m.1],
        },
{
    let c = ConfigInput::parse(input)?;
    if input.len() > 3 {
        return Err(MacroError::new(Site::Token(3), String::from_str("unexpected token")));
    }
    Ok(c)
}

/// The configuration file read: the given path, else `./configuration/config.yaml`.
pub open spec fn spec_config_file_name(path: Option<String>) -> Seq<char> {
    match path {
        Some(p) => p@,
        None => "./configuration/config.yaml"@,
    }
}

/// The file read is exactly the path the arguments give; the default
/// `./configuration/config.yaml` is read only when no path is given.
pub proof fn given_path_is_read(path: Option<String>)
    ensures
        path matches Some(p) ==> spec_config_file_name(path) == p@,
        path is None ==> spec_config_file_name(path) == "./configuration/config.yaml"@,
{
}

/// The configuration file the macro reads.
pub fn config_file_name(input: &ConfigInput) -> (res: String)
    ensures
        res@ == spec_config_file_name(input.path),
        input.path matches Some(p) ==> res@ == p@,
        input.path is None ==> res@ == "./configuration/config.yaml"@,
{
    match &input.path {
        Some(p) => p.clone(),
        None => String::from_str("./configuration/config.yaml"),
    }
}

/// The message when the file cannot be opened, given the error's text.
pub open spec fn read_error_message(file_name: Seq<char>, error: Seq<char>) -> Seq<char> {
    "could not read config with path "@ + file_name + ": "@ + error
}

/// The error reported, at the call site, when the configuration file cannot
/// be opened.
pub fn read_error(file_name: &String, error: &String) -> (res: MacroError)
    ensures
        views(res.messages@) == seq![read_error_message(file_name@, error@)],
        res.sites@ == seq![Site::CallSite],
{
    let mut msg = String::from_str("could not read config with path ");
    msg.append(file_name.as_str());
    msg.append(": ");
    msg.append(error.as_str());
    assert(msg@ =~= read_error_message(file_name@, error@));
    MacroError::new(Site::CallSite, msg)
}

/// What `serde_yaml` reads from a YAML document as a map from strings to
/// strings: the map, or the text of its error.
pub uninterp spec fn yaml_string_map(bytes: Seq<u8>) -> Result<Map<Seq<char>, Seq<char>>, Seq<char>>;

/// The pairs are exactly the entries of the map, each key once.
pub open spec fn pairs_are_map(pairs: Seq<(String, String)>, m: Map<Seq<char>, Seq<char>>) -> bool {
    &&& forall|i: int, j: int| 0 <= i < j < pairs.len() ==> (#[trigger] pairs[i]).0@ != (#[trigger] pairs[j]).0@
    &&& forall|i: int| 0 <= i < pairs.len() ==> m.contains_key((#[trigger] pairs[i]).0@) && m[pairs[i].0@] == pairs[i].1@
    &&& forall|k: Seq<char>| #[trigger] m.contains_key(k) ==> exists|i: int| 0 <= i < pairs.len() && (#[trigger] pairs[i]).0@ == k
}

/// Reads a YAML document as a map from strings to strings:
/// `serde_yaml::from_slice::<HashMap<String, String>>`, its entries handed
/// out as pairs, or its error's text. The contract names the outcome
/// ([`yaml_string_map`]); the order of the pairs, which follows the hash
/// map, is left unsaid.
#[verifier::external_body]
pub(crate) fn parse_yaml_string_map(bytes: &[u8]) -> (res: Result<Vec<(String, String)>, String>)
    ensures
        match res {
            Ok(v) => yaml_string_map(bytes@) matches Ok(m) && pairs_are_map(v@, m),
            Err(e) => yaml_string_map(bytes@) == Err::<Map<Seq<char>, Seq<char>>, Seq<char>>(e@),
        },
{
    match serde_yaml::from_slice::<std::collections::HashMap<String, String>>(bytes) {
        Ok(m) => Ok(m.into_iter().collect()),
        Err(e) => Err(e.to_string()),
    }
}

/// The configuration's key/value pairs, given what reading the file gave:
/// its bytes, or the text of the error that stopped the reading. Both a
/// failed reading and a document that is not a map of strings are reported
/// at the call site.
pub fn find_yaml_values(input: &ConfigInput, file: Result<Vec<u8>, String>) -> (res: Result<Vec<(String, String)>, MacroError>)
    ensures
        match file {
            Err(e) => res matches Err(x) && views(x.messages@) == seq![
                read_error_message(spec_config_file_name(input.path), e@),
            ] && x.sites@ == seq![Site::CallSite],
            Ok(b) => match yaml_string_map(b@) {
                Ok(m) => res matches Ok(v) && pairs_are_map(v@, m),
                Err(msg) => res matches Err(x) && views(x.messages@) == seq![msg] && x.sites@ == seq![Site::CallSite],
            },
        },
{
    let file_name = config_file_name(input);
    match file {
        Err(e) => Err(read_error(&file_name, &e)),
        Ok(bytes) => match parse_yaml_string_map(bytes.as_slice()) {
            Ok(v) => Ok(v),
            Err(msg) => Err(MacroError::new(Site::CallSite, msg)),
        },
    }
}

/// `pub key: String`.
pub open spec fn config_field_text(key: Seq<char>) -> Seq<char> {
    "pub "@ + key + ": String"@
}

/// `key: "value".to_string()`, given the text `lit` of the value's string
/// literal.
pub open spec fn config_init_text(key: Seq<char>, lit: Seq<char>) -> Seq<char> {
    key + ": "@ + lit + ".to_string()"@
}

/// `t` sets the key of `kv` to its value, for some text of the value's
/// string literal.
pub open spec fn is_config_init(t: Seq<char>, kv: (String, String)) -> bool {
    exists|lit: Seq<char>| #[trigger] renders(lit, kv.1@) && t == config_init_text(kv.0@, lit)
}

/// `inits` set the keys of `yaml_values` one by one to their values, for
/// some text of each value's string literal.
pub open spec fn are_config_inits(inits: Seq<Seq<char>>, yaml_values: Seq<(String, String)>) -> bool {
    &&& inits.len() == yaml_values.len()
    &&& forall|i: int| 0 <= i < yaml_values.len() ==> #[trigger] is_config_init(inits[i], yaml_values[i])
}

/// A `String` field for every key.
pub fn generate_fields(yaml_values: &Vec<(String, String)>) -> (res: Vec<String>)
    ensures
        views(res@) == yaml_values@.map_values(|kv: (String, String)| config_field_text(kv.0@)),
{
    let n = yaml_values.len();
    let mut res: Vec<String> = Vec::new();
    for i in 0..n
        invariant
            n == yaml_values@.len(),
            views(res@) == yaml_values@.take(i as int).map_values(|kv: (String, String)| config_field_text(kv.0@)),
    {
        let mut s = String::from_str("pub ");
        s.append(yaml_values[i].0.as_str());
        s.append(": String");
        let ghost prev = res@;
        res.push(s);
        proof {
            let g = |kv: (String, String)| config_field_text(kv.0@);
            assert(s@ =~= g(yaml_values@[i as int]));
            assert(views(res@) =~= views(prev).push(s@));
            assert(yaml_values@.take(i + 1).map_values(g) =~= yaml_values@.take(i as int).map_values(g).push(
                g(yaml_values@[i as int]),
            ));
        }
    }
    proof {
        assert(yaml_values@.take(n as int) =~= yaml_values@);
    }
    res
}

/// The initial value of every field: the key's value.
pub fn generate_inits(yaml_values: &Vec<(String, String)>) -> (res: Vec<String>)
    ensures
        are_config_inits(views(res@), yaml_values@),
{
    let n = yaml_values.len();
    let mut res: Vec<String> = Vec::new();
    for i in 0..n
        invariant
            n == yaml_values@.len(),
            are_config_inits(views(res@), yaml_values@.take(i as int)),
    {
        let value = string_literal_text(yaml_values[i].1.as_str());
        let mut s = yaml_values[i].0.clone();
        s.append(": ");
        s.append(value.as_str());
        s.append(".to_string()");
        let ghost prev = res@;
        res.push(s);
        proof {
            assert(s@ =~= config_init_text(yaml_values@[i as int].0@, value@));
            assert(views(res@) =~= views(prev).push(s@));
            let vs = yaml_values@.take(i + 1);
            assert forall|k: int| 0 <= k < vs.len() implies #[trigger] is_config_init(views(res@)[k], vs[k]) by {
                if k < i {
                    assert(yaml_values@.take(i as int)[k] == vs[k]);
                    assert(views(prev)[k] == views(res@)[k]);
                    assert(is_config_init(views(prev)[k], yaml_values@.take(i as int)[k]));
                } else {
                    assert(renders(value@, vs[k].1@));
                }
            }
        }
    }
    proof {
        assert(yaml_values@.take(n as int) =~= yaml_values@);
    }
    res
}

/// The text of every attribute.
pub open spec fn attr_texts(attrs: Seq<AttrDef>) -> Seq<Seq<char>> {
    attrs.map_values(|a: AttrDef| a.text@)
}

/// What the attribute writes: the struct's attributes, the struct with one
/// `String` field per key, and `new` setting the fields with `inits`.
pub open spec fn spec_annotation_struct(input: DeriveDef, yaml_values: Seq<(String, String)>, inits: Seq<Seq<char>>) -> Seq<char> {
    let name = input.name@;
    concat_each(attr_texts(input.attrs@), " "@) + "pub struct "@ + name + " { "@
        + concat_each(yaml_values.map_values(|kv: (String, String)| config_field_text(kv.0@)), ", "@)
        + "} impl "@ + name + " { pub fn new() -> Self { "@ + name + " { "@
        + concat_each(inits, ", "@)
        + "} } }"@
}

/// The struct keeps its attributes and has exactly one `pub key: String`
/// field per key, in order (any fields it had are replaced), and `new`
/// sets the fields with the given lines.
pub proof fn config_struct_has_a_field_per_key(input: DeriveDef, yaml_values: Seq<(String, String)>, inits: Seq<Seq<char>>)
    ensures
        spec_annotation_struct(input, yaml_values, inits) == concat_each(input.attrs@.map_values(|a: AttrDef| a.text@), " "@)
            + "pub struct "@ + input.name@ + " { "@ + concat_each(
            yaml_values.map_values(|kv: (String, String)| "pub "@ + kv.0@ + ": String"@),
            ", "@,
        ) + "} impl "@ + input.name@ + " { pub fn new() -> Self { "@ + input.name@ + " { "@ + concat_each(inits, ", "@)
            + "} } }"@,
{
    assert(yaml_values.map_values(|kv: (String, String)| config_field_text(kv.0@)) =~= yaml_values.map_values(
        |kv: (String, String)| "pub "@ + kv.0@ + ": String"@,
    ));
}

/// Each line of `new` sets a key's field to the key's value, written as a
/// string literal that reads back as the value.
pub proof fn config_init_sets_the_value(inits: Seq<Seq<char>>, yaml_values: Seq<(String, String)>, i: int)
    requires
        are_config_inits(inits, yaml_values),
        0 <= i < yaml_values.len(),
    ensures
        exists|lit: Seq<char>| #[trigger] renders(lit, yaml_values[i].1@) && syn_lit_str_value(lit) == Some(yaml_values[i].1@)
            && inits[i] == yaml_values[i].0@ + ": "@ + lit + ".to_string()"@,
{
    assert(is_config_init(inits[i], yaml_values[i]));
}

/// The arguments are read as the macro's grammar says: nothing gives no
/// path and no `exclude`; `path = "p"` gives the path `p`; `exclude = "v"`
/// gives no path, with `exclude_from` exactly when `v` is `from`; any other
/// first token is refused.
pub proof fn config_arguments_are_read(toks: Seq<Tok>, l: String, v: Seq<char>)
    ensures
        toks.len() == 0 ==> spec_config_input(toks) == Ok::<(Option<Seq<char>>, bool), (Seq<char>, Site)>((None, false)),
        toks.len() >= 3 && is_punct(toks[1], '=') && toks[2] == Tok::Literal(l)
            && syn_lit_str_value(l@) == Some(v) && is_ident_named(toks[0], "path"@)
            ==> spec_config_input(toks) == Ok::<(Option<Seq<char>>, bool), (Seq<char>, Site)>((Some(v), false)),
        toks.len() >= 3 && is_ident_named(toks[0], "exclude"@) && is_punct(toks[1], '=') && toks[2] == Tok::Literal(l)
            && syn_lit_str_value(l@) == Some(v)
            ==> spec_config_input(toks) == Ok::<(Option<Seq<char>>, bool), (Seq<char>, Site)>((None, v == "from"@)),
        toks.len() > 0 && !is_ident_named(toks[0], "path"@) && !is_ident_named(toks[0], "exclude"@)
            ==> spec_config_input(toks) is Err,
{
    reveal_strlit("path");
    reveal_strlit("exclude");
    assert("path"@.len() != "exclude"@.len());
    if toks.len() >= 3 && is_ident_named(toks[0], "exclude"@) && is_punct(toks[1], '=') && toks[2] == Tok::Literal(l)
        && syn_lit_str_value(l@) == Some(v) {
        assert(!is_ident_named(toks[0], "path"@));
        assert(lit_str_at(toks, 2) == Some(v));
        assert(keyword_value(toks, "exclude"@) == Ok::<Seq<char>, (Seq<char>, Site)>(v));
    }
}

/// Rewrites the annotated struct so that it holds the configuration's
/// key/value pairs (in the order given).
pub fn generate_annotation_struct(input: &DeriveDef, yaml_values: &Vec<(String, String)>) -> (res: String)
    ensures
        exists|inits: Seq<Seq<char>>| #[trigger] are_config_inits(inits, yaml_values@)
            && res@ == spec_annotation_struct(*input, yaml_values@, inits),
{
    let n = input.attrs.len();
    let mut attributes: Vec<String> = Vec::new();
    for i in 0..n
        invariant
            n == input.attrs@.len(),
            views(attributes@) == attr_texts(input.attrs@.take(i as int)),
    {
        let ghost prev = attributes@;
        attributes.push(input.attrs[i].text.clone());
        proof {
            assert(views(attributes@) =~= views(prev).push(input.attrs@[i as int].text@));
            assert(attr_texts(input.attrs@.take(i + 1)) =~= attr_texts(input.attrs@.take(i as int)).push(
                input.attrs@[i as int].text@,
            ));
        }
    }
    proof {
        assert(input.attrs@.take(n as int) =~= input.attrs@);
    }
    let fields = generate_fields(yaml_values);
    let inits = generate_inits(yaml_values);
    let name = &input.name;
    let mut out = String::new();
    append_each(&mut out, &attributes, " ");
    out.append("pub struct ");
    out.append(name.as_str());
    out.append(" { ");
    append_each(&mut out, &fields, ", ");
    out.append("} impl ");
    out.append(name.as_str());
    out.append(" { pub fn new() -> Self { ");
    out.append(name.as_str());
    out.append(" { ");
    append_each(&mut out, &inits, ", ");
    out.append("} } }");
    assert(out@ =~= spec_annotation_struct(*input, yaml_values@, views(inits@)));
    assert(are_config_inits(views(inits@), yaml_values@));
    out
}

} // verus!
