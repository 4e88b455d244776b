use macro_kit::model::{AttrDef, DataDef, DeriveDef, FieldsDef, Meta};
use macro_kit::tokens::{Spacing, Tok};
use macro_kit::error::Site;
use macro_kit::yaml_config::{
    config_file_name, find_yaml_values, generate_annotation_struct, generate_fields, generate_inits,
    parse_arguments, read_error, ConfigInput,
};

fn ident(s: &str) -> Tok {
    Tok::Ident(s.to_string())
}

fn lit(s: &str) -> Tok {
    Tok::Literal(s.to_string())
}

fn eq() -> Tok {
    Tok::Punct('=', Spacing::Alone)
}

#[test]
fn config_arguments_are_read() {
    let none = ConfigInput::parse(&vec![]).unwrap();
    assert_eq!((none.path, none.exclude_from), (None, false));
    let path = ConfigInput::parse(&vec![ident("path"), eq(), lit("\"./configuration/config.yaml\"")]).unwrap();
    assert_eq!(path.path.as_deref(), Some("./configuration/config.yaml"));
    assert_eq!(config_file_name(&path), "./configuration/config.yaml");
    let exclude = ConfigInput::parse(&vec![ident("exclude"), eq(), lit("\"from\"")]).unwrap();
    assert!(exclude.exclude_from);
    assert_eq!(config_file_name(&exclude), "./configuration/config.yaml");
    let other = ConfigInput::parse(&vec![ident("exclude"), eq(), lit("\"to\"")]).unwrap();
    assert!(!other.exclude_from);
    let escaped = ConfigInput::parse(&vec![ident("path"), eq(), lit("\"a\\tb\"")]).unwrap();
    assert_eq!(escaped.path.as_deref(), Some("a\tb"));
}

#[test]
fn config_argument_errors() {
    let msg = |toks: Vec<Tok>| ConfigInput::parse(&toks).unwrap_err().messages;
    assert_eq!(msg(vec![ident("path")]), vec!["expected equals sign after path".to_string()]);
    assert_eq!(msg(vec![ident("exclude"), lit("\"x\"")]), vec!["expected equals sign after exclude".to_string()]);
    assert_eq!(msg(vec![ident("path"), eq(), lit("1")]), vec!["expected value after the equals sign".to_string()]);
    assert_eq!(msg(vec![ident("path"), eq()]), vec!["expected value after the equals sign".to_string()]);
    let trailing = vec![ident("exclude"), eq(), lit("\"from\""), ident("x")];
    assert!(ConfigInput::parse(&trailing).unwrap().exclude_from);
    let err = parse_arguments(&trailing).unwrap_err();
    assert_eq!(err.messages, vec!["unexpected token".to_string()]);
    assert_eq!(err.sites, vec![Site::Token(3)]);
    assert_eq!(ConfigInput::parse(&vec![ident("path")]).unwrap_err().sites, vec![Site::Token(1)]);
    assert!(parse_arguments(&vec![ident("exclude"), eq(), lit("\"from\"")]).unwrap().exclude_from);
    assert_eq!(
        msg(vec![ident("file"), eq(), lit("\"a\"")]),
        vec!["config macro only allows for 'path' or 'exclude' input".to_string()]
    );
    assert_eq!(
        read_error(&"x.yaml".to_string(), &"not found".to_string()).messages,
        vec!["could not read config with path x.yaml: not found".to_string()]
    );
}

#[test]
fn yaml_file_is_read_as_string_pairs() {
    let input = ConfigInput { path: None, exclude_from: false };
    let mut values = find_yaml_values(&input, Ok(b"user: admin\npassword: secret\n".to_vec())).unwrap();
    values.sort();
    assert_eq!(
        values,
        vec![
            ("password".to_string(), "secret".to_string()),
            ("user".to_string(), "admin".to_string()),
        ]
    );
    let missing = find_yaml_values(&input, Err("not found".to_string())).unwrap_err();
    assert_eq!(
        missing.messages,
        vec!["could not read config with path ./configuration/config.yaml: not found".to_string()]
    );
    assert_eq!(missing.sites, vec![Site::CallSite]);
    let not_a_map = find_yaml_values(&input, Ok(b"- a\n- b\n".to_vec())).unwrap_err();
    assert_eq!(not_a_map.messages.len(), 1);
    assert_eq!(not_a_map.sites, vec![Site::CallSite]);
}

#[test]
fn yaml_values_become_fields() {
    let values = vec![
        ("user".to_string(), "admin".to_string()),
        ("password".to_string(), "say \"hi\"".to_string()),
    ];
    assert_eq!(generate_fields(&values), vec!["pub user: String", "pub password: String"]);
    assert_eq!(
        generate_inits(&values),
        vec!["user: \"admin\".to_string()", "password: \"say \\\"hi\\\"\".to_string()"]
    );
    let input = DeriveDef {
        attrs: vec![AttrDef {
            path: vec!["derive".to_string()],
            leading_colon: false,
            meta: Meta::Path,
            text: "#[derive(Debug)]".to_string(),
        }],
        vis: String::new(),
        name: "Example".to_string(),
        data: DataDef::Struct(FieldsDef::Named(vec![])),
    };
    let out = generate_annotation_struct(&input, &values);
    assert!(out.starts_with("#[derive(Debug)] pub struct Example { pub user: String, pub password: String, }"));
    let file = syn::parse_file(&out).expect("generated code parses");
    assert_eq!(file.items.len(), 2);
}
