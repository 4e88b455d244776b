use macro_kit::error::Site;
use macro_kit::make_public::{public, unexpected_token, Example, ExcludedFields};
use macro_kit::make_public::using_parse::{self, StructField};
use macro_kit::make_public::with_struct_field;
use macro_kit::model::{DataDef, DeriveDef, FieldDef, FieldsDef};
use macro_kit::private::{generate_methods, get_field_info, private};
use macro_kit::tokens::{Delimiter, Spacing, Tok};

fn ident(s: &str) -> Tok {
    Tok::Ident(s.to_string())
}

fn punct(c: char) -> Tok {
    Tok::Punct(c, Spacing::Alone)
}

fn field(vis: &str, name: Option<&str>, ty: &str, tokens: Vec<Tok>) -> FieldDef {
    FieldDef {
        attrs: vec![],
        vis: vis.to_string(),
        name: name.map(|n| n.to_string()),
        ty: ty.to_string(),
        ty_path_head: Some(ty.to_string()),
        tokens,
    }
}

fn example_struct() -> DeriveDef {
    DeriveDef {
        attrs: vec![],
        vis: String::new(),
        name: "Example".to_string(),
        data: DataDef::Struct(FieldsDef::Named(vec![
            field("", Some("first"), "String", vec![ident("first"), punct(':'), ident("String")]),
            field(
                "pub",
                Some("second"),
                "u32",
                vec![ident("pub"), ident("second"), punct(':'), ident("u32")],
            ),
            field("", Some("third"), "bool", vec![ident("third"), punct(':'), ident("bool")]),
        ])),
    }
}

#[test]
fn excluded_field_keeps_its_visibility() {
    let attr = vec![ident("exclude"), Tok::Group(Delimiter::Parenthesis, vec![ident("third")])];
    let out = public(&attr, &example_struct());
    assert_eq!(out, "pub struct Example { pub first: String, pub second: u32,  third: bool, }");
    assert!(syn::parse_file(&out).is_ok());
}

#[test]
fn no_arguments_make_every_field_public() {
    let out = public(&vec![], &example_struct());
    assert_eq!(out, "pub struct Example { pub first: String, pub second: u32, pub third: bool, }");
}

#[test]
fn other_paths_exclude_nothing_and_leftovers_are_errors() {
    let attr = vec![ident("other"), Tok::Group(Delimiter::Parenthesis, vec![ident("third")])];
    let fields = ExcludedFields::parse(&attr).unwrap();
    assert!(fields.fields.is_empty());
    let leftover = vec![
        ident("exclude"),
        Tok::Group(Delimiter::Parenthesis, vec![ident("third")]),
        punct(','),
    ];
    assert_eq!(ExcludedFields::parse(&leftover).unwrap().fields, vec!["third".to_string()]);
    let err = unexpected_token(2);
    assert_eq!(err.messages, vec!["unexpected token".to_string()]);
    assert_eq!(err.sites, vec![Site::Token(2)]);
    let literal = vec![Tok::Literal("\"third\"".to_string())];
    assert!(ExcludedFields::parse(&literal).unwrap().fields.is_empty());
    assert_eq!(
        public(&literal, &example_struct()),
        "::core::compile_error! { \"unexpected token\" } "
    );
    assert_eq!(
        public(&leftover, &example_struct()),
        "::core::compile_error! { \"unexpected token\" } "
    );
    let bare = vec![ident("exclude")];
    assert!(ExcludedFields::parse(&bare).unwrap().fields.is_empty());
}

#[test]
fn exclusions_are_matched_by_name() {
    let attr = vec![
        ident("exclude"),
        Tok::Group(
            Delimiter::Parenthesis,
            vec![ident("first"), punct(','), ident("third"), punct(',')],
        ),
    ];
    let fields = ExcludedFields::parse(&attr).unwrap();
    assert_eq!(fields.fields, vec!["first".to_string(), "third".to_string()]);
    assert!(fields.matches_ident(&Some("third".to_string())));
    assert!(!fields.matches_ident(&Some("second".to_string())));
    assert!(!fields.matches_ident(&None));
}

#[test]
fn example_keeps_its_values() {
    let e = Example::new();
    assert_eq!(e.first, "first");
    assert_eq!(e.second, 5);
    assert!(e.third());
}

#[test]
fn fields_are_read_from_their_tokens() {
    let plain = StructField::parse(&vec![ident("first"), punct(':'), ident("String")]);
    assert_eq!((plain.name.as_str(), plain.ty.as_str()), ("first", "String"));
    let restricted = StructField::parse(&vec![
        ident("pub"),
        Tok::Group(Delimiter::Parenthesis, vec![ident("crate")]),
        ident("second"),
        punct(':'),
        ident("u32"),
    ]);
    assert_eq!(restricted.to_tokens(), "pub second: u32");
    let out = using_parse::public(&example_struct());
    assert_eq!(out, "pub struct Example { pub first: String, pub second: u32, pub third: bool, }");
}

#[test]
fn tuple_structs_stay_tuple_structs() {
    let item = DeriveDef {
        attrs: vec![],
        vis: String::new(),
        name: "UnamedFieldsStruct".to_string(),
        data: DataDef::Struct(FieldsDef::Unnamed(vec![
            field("", None, "i32", vec![]),
            field("", None, "String", vec![]),
        ])),
    };
    let out = with_struct_field::public(&item);
    assert_eq!(out, "pub struct UnamedFieldsStruct ( pub i32, pub String, );");
    assert!(syn::parse_file(&out).is_ok());
    let named = with_struct_field::public(&example_struct());
    assert_eq!(named, "pub struct Example { pub first: String, pub second: u32, pub third: bool, }");
}

#[test]
fn private_fields_get_getters() {
    let item = example_struct();
    let info = get_field_info(&item);
    assert_eq!(info[1], ("second".to_string(), "u32".to_string()));
    assert_eq!(
        generate_methods(&info)[0],
        "fn get_first(&self) -> &String { &self.first }"
    );
    let out = private(&item);
    assert!(out.starts_with("pub struct Example { first: String, second: u32, third: bool, } impl Example { "));
    assert!(out.ends_with("pub fn hello(&self) { println!(\"Hello, World\"); } }"));
    let file = syn::parse_file(&out).expect("generated code parses");
    assert_eq!(file.items.len(), 2);
}
