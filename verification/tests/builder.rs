use macro_kit::builder::create_builder;
use macro_kit::builder::fields::{
    builder_field_definitions, builder_inits_values, builder_methods, get_name_and_type,
    matches_type, original_struct_setters,
};
use macro_kit::model::{DataDef, DeriveDef, FieldDef, FieldsDef};

fn field(name: &str, ty: &str, head: Option<&str>) -> FieldDef {
    FieldDef {
        attrs: vec![],
        vis: String::new(),
        name: Some(name.to_string()),
        ty: ty.to_string(),
        ty_path_head: head.map(|h| h.to_string()),
        tokens: vec![],
    }
}

fn named_struct(name: &str, fields: Vec<FieldDef>) -> DeriveDef {
    DeriveDef {
        attrs: vec![],
        vis: String::new(),
        name: name.to_string(),
        data: DataDef::Struct(FieldsDef::Named(fields)),
    }
}

#[test]
fn fields_get_name_and_type_give_back_name() {
    let f = field("example_field", "String", Some("String"));
    let (actual_name, _) = get_name_and_type(&f);
    assert_eq!(actual_name.as_ref().unwrap().to_string(), "example_field");
}

#[test]
fn lib_builder_struct_name_should_be_present_in_output() {
    let input = named_struct("Gleipnir", vec![]);
    let output = create_builder(&input);
    assert!(output.to_string().contains("GleipnirBuilder"));
    let with_attribute = macro_kit::builder_with_attribute::create_builder(&input);
    assert!(with_attribute.to_string().contains("GleipnirBuilder"));
}

#[test]
fn builder_struct_with_expected_methods_should_be_present_in_output() {
    let input = named_struct("StructWithNoFields", vec![]);
    let expected: proc_macro2::TokenStream = "struct StructWithNoFieldsBuilder {}".parse().unwrap();
    let output: proc_macro2::TokenStream = create_builder(&input).parse().unwrap();
    assert_eq!(output.to_string(), expected.to_string());
}

#[test]
fn assert_with_parsing() {
    let input = named_struct("StructWithNoFields", vec![]);
    let actual: proc_macro2::TokenStream = create_builder(&input).parse().unwrap();
    let derived: syn::DeriveInput = syn::parse2(actual).unwrap();
    assert_eq!(derived.ident.to_string(), "StructWithNoFieldsBuilder");
}

#[test]
fn builder_output_for_one_field_is_exact() {
    let input = named_struct("Gleipnir", vec![field("roots_of", "String", Some("String"))]);
    let output = create_builder(&input);
    assert_eq!(
        output,
        "struct GleipnirBuilder { roots_of: Option<String>, } impl GleipnirBuilder { \
         pub fn roots_of(&mut self, input: String) -> &mut Self { self.roots_of = Some(input); self } \
         pub fn build(&self) -> Gleipnir { Gleipnir { roots_of: self.roots_of.as_ref()\
         .expect(&format!(\"{} is not set\", \"roots_of\")).to_string(), } } } \
         impl Gleipnir { pub fn builder() -> GleipnirBuilder { GleipnirBuilder { roots_of: None, } } }"
    );
}

#[test]
fn builder_output_is_valid_rust() {
    let input = named_struct(
        "Gleipnir",
        vec![
            field("roots_of", "String", Some("String")),
            field("breath_of_a_fish", "u8", Some("u8")),
        ],
    );
    let output = create_builder(&input);
    let file = syn::parse_file(&output).expect("generated code parses");
    assert_eq!(file.items.len(), 3);
}

#[test]
fn builder_pieces_follow_the_fields() {
    let fields = vec![
        field("roots_of", "String", Some("String")),
        field("breath_of_a_fish", "u8", Some("u8")),
    ];
    assert_eq!(
        builder_field_definitions(&fields),
        vec!["roots_of: Option<String>", "breath_of_a_fish: Option<u8>"]
    );
    assert_eq!(builder_inits_values(&fields), vec!["roots_of: None", "breath_of_a_fish: None"]);
    let methods = builder_methods(&fields);
    assert_eq!(methods.len(), 2);
    assert!(methods[1].starts_with("pub fn breath_of_a_fish(&mut self, input: u8) -> &mut Self"));
}

#[test]
fn string_fields_are_cloned_other_fields_moved() {
    let fields = vec![
        field("roots_of", "String", Some("String")),
        field("breath_of_a_fish", "u8", Some("u8")),
        field("other", "Vec < String >", Some("Vec")),
    ];
    let setters = original_struct_setters(&fields);
    assert_eq!(
        setters[0],
        "roots_of: self.roots_of.as_ref().expect(&format!(\"{} is not set\", \"roots_of\")).to_string()"
    );
    assert_eq!(
        setters[1],
        "breath_of_a_fish: self.breath_of_a_fish.expect(&format!(\"{} is not set\", \"breath_of_a_fish\"))"
    );
    assert!(!setters[2].contains("as_ref"));
}

#[test]
fn matches_type_reads_the_first_path_segment() {
    assert!(matches_type(&field("a", "String", Some("String")), "String"));
    assert!(!matches_type(&field("a", "std :: string :: String", Some("std")), "String"));
    assert!(!matches_type(&field("a", "& str", None), "String"));
}
