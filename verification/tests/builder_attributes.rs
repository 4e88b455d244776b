use macro_kit::builder_exercise::fields::{
    builder_methods, default_fallback, optional_default_asserts, original_struct_setters,
    panic_fallback, try_builder_methods,
};
use macro_kit::builder_exercise::naming::snake_to_capitalized;
use macro_kit::builder_with_attribute::{builder_code, create_builder, try_create_builder, use_defaults};
use macro_kit::build_back_better::{create_builder_ident, create_field_struct_name};
use macro_kit::error::Site;
use macro_kit::model::{AttrDef, DataDef, DeriveDef, FieldDef, FieldsDef, Meta};
use macro_kit::tokens::{Delimiter, Spacing, Tok};

fn ident(s: &str) -> Tok {
    Tok::Ident(s.to_string())
}

fn lit(s: &str) -> Tok {
    Tok::Literal(s.to_string())
}

fn punct(c: char) -> Tok {
    Tok::Punct(c, Spacing::Alone)
}

fn attr(name: &str, meta: Meta) -> AttrDef {
    AttrDef { path: vec![name.to_string()], leading_colon: false, meta, text: format!("#[{}]", name) }
}

fn field(name: &str, ty: &str, head: Option<&str>, attrs: Vec<AttrDef>) -> FieldDef {
    FieldDef {
        attrs,
        vis: String::new(),
        name: Some(name.to_string()),
        ty: ty.to_string(),
        ty_path_head: head.map(|h| h.to_string()),
        tokens: vec![],
    }
}

fn rename_list(value: &str) -> AttrDef {
    attr(
        "builder",
        Meta::List(Delimiter::Parenthesis, vec![ident("rename"), punct('='), lit(value)]),
    )
}

fn named_struct(name: &str, attrs: Vec<AttrDef>, fields: Vec<FieldDef>) -> DeriveDef {
    DeriveDef {
        attrs,
        vis: String::new(),
        name: name.to_string(),
        data: DataDef::Struct(FieldsDef::Named(fields)),
    }
}

#[test]
fn snake_case_becomes_capitalized_words() {
    assert_eq!(snake_to_capitalized("roots_of".to_string()), "RootsOf");
    assert_eq!(snake_to_capitalized("breath_of_a_fish".to_string()), "BreathOfAFish");
    assert_eq!(snake_to_capitalized("_roots_of".to_string()), "RootsOf");
    assert_eq!(snake_to_capitalized("a__b_".to_string()), "AB");
    assert_eq!(snake_to_capitalized(String::new()), "");
    assert_eq!(snake_to_capitalized("straße".to_string()), "Straße");
    assert_eq!(snake_to_capitalized("ß_x".to_string()), "SSX");
}

#[test]
fn capitalizing_twice_changes_nothing() {
    let once = snake_to_capitalized("other_necessities".to_string());
    assert_eq!(snake_to_capitalized(once.clone()), once);
}

#[test]
fn field_struct_name_joins_field_and_builder() {
    assert_eq!(create_builder_ident(&"Gleipnir".to_string()), "GleipnirBuilder");
    assert_eq!(
        create_field_struct_name(&"GleipnirBuilder".to_string(), &"roots_of".to_string()),
        "RootsOfOfGleipnirBuilder"
    );
}

#[test]
fn renamed_setter_takes_the_new_name() {
    let fields = vec![
        field("roots_of", "String", Some("String"), vec![rename_list("\"tops_of\"")]),
        field("breath_of_a_fish", "u8", Some("u8"), vec![]),
    ];
    let methods = builder_methods(&fields);
    assert_eq!(
        methods[0],
        "pub fn tops_of(mut self, input: String) -> Self { self.roots_of = Some(input); self }"
    );
    assert!(methods[1].starts_with("pub fn breath_of_a_fish(mut self, input: u8)"));
}

#[test]
fn unreadable_builder_attribute_is_refused() {
    let no_rename = vec![field(
        "roots_of",
        "String",
        Some("String"),
        vec![attr("builder", Meta::List(Delimiter::Parenthesis, vec![ident("other")]))],
    )];
    assert!(try_builder_methods(&no_rename).is_none());
    let not_a_string = vec![field(
        "roots_of",
        "String",
        Some("String"),
        vec![attr(
            "builder",
            Meta::List(Delimiter::Parenthesis, vec![ident("rename"), punct('='), lit("1")]),
        )],
    )];
    assert!(try_builder_methods(&not_a_string).is_none());
    let bare = vec![field("roots_of", "String", Some("String"), vec![attr("builder", Meta::Path)])];
    assert!(try_builder_methods(&bare).is_none());
    let last_wins = vec![field(
        "roots_of",
        "String",
        Some("String"),
        vec![attr(
            "builder",
            Meta::List(
                Delimiter::Parenthesis,
                vec![
                    ident("rename"),
                    punct('='),
                    lit("\"a\""),
                    punct(','),
                    ident("skip"),
                    punct(','),
                    ident("rename"),
                    punct('='),
                    lit("\"b\""),
                    punct(','),
                ],
            ),
        )],
    )];
    let methods = try_builder_methods(&last_wins).unwrap();
    assert!(methods[0].starts_with("pub fn b(mut self"));
}

#[test]
fn uppercase_on_a_non_string_field_is_an_error() {
    let fields = vec![
        field("roots_of", "String", Some("String"), vec![attr("uppercase", Meta::Path)]),
        field("breath_of_a_fish", "u8", Some("u8"), vec![attr("uppercase", Meta::Path)]),
    ];
    let err = original_struct_setters(&fields, false).unwrap_err();
    assert_eq!(err.messages, vec!["uppercase attribute only works on String fields".to_string()]);
    assert_eq!(err.sites, vec![Site::FieldName(1)]);
}

#[test]
fn setters_uppercase_and_fall_back() {
    let fields = vec![
        field("roots_of", "String", Some("String"), vec![attr("uppercase", Meta::Path)]),
        field("_roots_of", "String", Some("String"), vec![]),
    ];
    let strict = original_struct_setters(&fields, false).unwrap();
    assert_eq!(
        strict[0],
        "roots_of: self.roots_of.map(|v| v.to_uppercase()).expect(concat!(\"field not set: \", \"roots_of\"))"
    );
    assert!(strict[1].contains("\"field not set: \", \"_roots_of\""));
    let lenient = original_struct_setters(&fields, true).unwrap();
    assert_eq!(lenient[1], "_roots_of: self._roots_of.unwrap_or_default()");
    assert_eq!(default_fallback(), "unwrap_or_default()");
    assert_eq!(panic_fallback("x".to_string()), "expect(concat!(\"field not set: \", \"x\"))");
}

#[test]
fn default_assertions_name_each_field() {
    let fields = vec![
        field("string_value", "String", Some("String"), vec![]),
        field("int_value", "i32", Some("i32"), vec![]),
    ];
    assert_eq!(
        optional_default_asserts(&fields),
        vec![
            (
                "struct __StringValueDefaultAssertion where String: core::default::Default;".to_string(),
                Site::FieldType(0),
            ),
            (
                "struct __IntValueDefaultAssertion where i32: core::default::Default;".to_string(),
                Site::FieldType(1),
            ),
        ]
    );
}

#[test]
fn builder_defaults_attribute_is_recognized() {
    assert!(use_defaults(&vec![attr("builder_defaults", Meta::Path)]));
    assert!(!use_defaults(&vec![attr("builder", Meta::Path)]));
    let mut global = attr("builder_defaults", Meta::Path);
    global.leading_colon = true;
    assert!(!use_defaults(&vec![global]));
}

#[test]
fn attribute_builder_writes_consuming_setters_and_defaults() {
    let item = named_struct(
        "ExampleStructTwoFields",
        vec![attr("builder_defaults", Meta::Path)],
        vec![
            field("string_value", "String", Some("String"), vec![]),
            field(
                "int_value",
                "i32",
                Some("i32"),
                vec![attr("rename", Meta::NameValue(vec![lit("\"number\"")]))],
            ),
        ],
    );
    let out = create_builder(&item);
    assert!(out.starts_with("struct ExampleStructTwoFieldsBuilder { "));
    assert!(out.contains("pub fn number(mut self, input: i32) -> Self { self.int_value = Some(input); self }"));
    assert!(out.contains("string_value: self.string_value.unwrap_or_default()"));
    assert!(out.contains("pub(crate) fn build(self) -> ExampleStructTwoFields"));
    let file = syn::parse_file(&out).expect("generated code parses");
    assert_eq!(file.items.len(), 3);
}

#[test]
fn attribute_builder_reports_uppercase_misuse() {
    let item = named_struct(
        "Gleipnir",
        vec![],
        vec![field("breath_of_a_fish", "u8", Some("u8"), vec![attr("uppercase", Meta::Path)])],
    );
    let out = create_builder(&item);
    assert_eq!(
        out,
        "::core::compile_error! { \"uppercase attribute only works on String fields\" } "
    );
    assert_eq!(builder_code(&item).unwrap_err().sites, vec![Site::FieldName(0)]);
}

#[test]
fn attribute_builder_refuses_a_bare_rename() {
    let item = named_struct(
        "Gleipnir",
        vec![],
        vec![field("roots_of", "String", Some("String"), vec![attr("rename", Meta::Path)])],
    );
    assert!(try_create_builder(&item).is_none());
    let listed = named_struct(
        "Gleipnir",
        vec![],
        vec![field(
            "roots_of",
            "String",
            Some("String"),
            vec![attr("rename", Meta::List(Delimiter::Parenthesis, vec![lit("\"tops_of\"")]))],
        )],
    );
    assert!(try_create_builder(&listed).unwrap().contains("pub fn tops_of(mut self"));
}

#[test]
fn rename_forms_name_the_same_setter() {
    let name_value = vec![field(
        "roots_of",
        "String",
        Some("String"),
        vec![attr("rename", Meta::NameValue(vec![lit("\"tops_of\"")]))],
    )];
    let list = vec![field(
        "roots_of",
        "String",
        Some("String"),
        vec![attr("rename", Meta::List(Delimiter::Parenthesis, vec![lit("\"tops_of\"")]))],
    )];
    let a = macro_kit::builder_with_attribute::fields::try_builder_methods(&name_value).unwrap();
    let b = macro_kit::builder_with_attribute::fields::try_builder_methods(&list).unwrap();
    assert_eq!(a, b);
    assert!(a[0].starts_with("pub fn tops_of(mut self"));
}

#[test]
fn exercise_derive_renames_and_uppercases() {
    let item = named_struct(
        "Gleipnir",
        vec![],
        vec![field(
            "roots_of",
            "String",
            Some("String"),
            vec![rename_list("\"tops_of\""), attr("uppercase", Meta::Path)],
        )],
    );
    let out = macro_kit::builder_exercise::create_builder(&item);
    assert!(out.starts_with("struct GleipnirBuilder { roots_of: Option<String>, }"));
    assert!(out.contains("pub fn tops_of(mut self, input: String) -> Self { self.roots_of = Some(input); self }"));
    assert!(out.contains(
        "roots_of: self.roots_of.map(|v| v.to_uppercase()).expect(concat!(\"field not set: \", \"roots_of\"))"
    ));
    let file = syn::parse_file(&out).expect("generated code parses");
    assert_eq!(file.items.len(), 3);
}

#[test]
fn exercise_derive_with_defaults_asserts_each_type() {
    let item = named_struct(
        "ExampleStructTwoFields",
        vec![attr("builder_defaults", Meta::Path)],
        vec![
            field("string_value", "String", Some("String"), vec![]),
            field("int_value", "i32", Some("i32"), vec![]),
        ],
    );
    let (code, asserts) = macro_kit::builder_exercise::builder_code(&item).unwrap();
    assert!(code.contains("string_value: self.string_value.unwrap_or_default()"));
    assert_eq!(asserts.len(), 2);
    assert_eq!(asserts[1].1, Site::FieldType(1));
    let out = macro_kit::builder_exercise::create_builder(&item);
    assert!(out.ends_with(
        "struct __StringValueDefaultAssertion where String: core::default::Default; \
         struct __IntValueDefaultAssertion where i32: core::default::Default; "
    ));
    let file = syn::parse_file(&out).expect("generated code parses");
    assert_eq!(file.items.len(), 5);
    let empty = named_struct("ExampleStructNoFields", vec![], vec![]);
    let out = macro_kit::builder_exercise::create_builder(&empty);
    assert_eq!(syn::parse_file(&out).expect("generated code parses").items.len(), 3);
}

#[test]
fn exercise_derive_reports_uppercase_misuse_at_the_field() {
    let item = named_struct(
        "Gleipnir",
        vec![],
        vec![
            field("roots_of", "String", Some("String"), vec![]),
            field("breath_of_a_fish", "u8", Some("u8"), vec![attr("uppercase", Meta::Path)]),
        ],
    );
    let err = macro_kit::builder_exercise::builder_code(&item).unwrap_err();
    assert_eq!(err.sites, vec![Site::FieldName(1)]);
    assert_eq!(
        macro_kit::builder_exercise::create_builder(&item),
        "::core::compile_error! { \"uppercase attribute only works on String fields\" } "
    );
}
