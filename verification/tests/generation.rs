use typegen::languages::{Rust, TypeSection};
use typegen::schema_types::{
    check_types, EnumValue, Field, InputValue, Type, TypeKind,
};
use typegen::Error;

fn named(kind: TypeKind, name: &str) -> Type {
    Type {
        kind,
        name: Some(name.to_string()),
        description: None,
        fields: None,
        interfaces: None,
        possible_types: None,
        enum_values: None,
        input_fields: None,
        of_type: Box::new(None),
    }
}

fn wrapper(kind: TypeKind, inner: Type) -> Type {
    Type {
        kind,
        name: None,
        description: None,
        fields: None,
        interfaces: None,
        possible_types: None,
        enum_values: None,
        input_fields: None,
        of_type: Box::new(Some(inner)),
    }
}

fn field(name: &str, schema_type: Type) -> Field {
    Field {
        name: Some(name.to_string()),
        description: None,
        args: Vec::new(),
        schema_type,
        is_deprecated: false,
        deprecation_reason: None,
    }
}

fn input_value(name: &str, schema_type: Type) -> InputValue {
    InputValue {
        name: name.to_string(),
        description: None,
        schema_type,
        default_value: None,
    }
}

fn enum_value(name: &str) -> EnumValue {
    EnumValue {
        name: name.to_string(),
        description: None,
        is_deprecated: false,
        deprecation_reason: None,
    }
}

fn object(name: &str, fields: Vec<Field>) -> Type {
    let mut t = named(TypeKind::Object, name);
    t.fields = Some(fields);
    t
}

fn input_object(name: &str, input_fields: Vec<InputValue>) -> Type {
    let mut t = named(TypeKind::InputObject, name);
    t.input_fields = Some(input_fields);
    t
}

#[test]
fn builtin_scalars_emit_nothing() {
    for name in ["Int", "Float", "String", "Boolean", "ID"] {
        let types = vec![named(TypeKind::Scalar, name)];
        assert_eq!(Rust::generate_types(&types), "");
    }
}

#[test]
fn custom_scalar_emits_newtype() {
    let types = vec![named(TypeKind::Scalar, "DateTime")];
    assert_eq!(Rust::generate_types(&types), "pub struct DateTime(String);\n\n");
}

#[test]
fn nullability_bare_leaf() {
    let t = named(TypeKind::Object, "Foo");
    assert_eq!(Rust::get_type_name_without_option(&t), "Option<Foo>");
}

#[test]
fn nullability_non_null_leaf() {
    let t = wrapper(TypeKind::NonNull, named(TypeKind::Object, "Foo"));
    assert_eq!(Rust::get_type_name_without_option(&t), "Foo");
}

#[test]
fn nullability_list_of_leaf() {
    let t = wrapper(TypeKind::List, named(TypeKind::Object, "Foo"));
    assert_eq!(Rust::get_type_name_without_option(&t), "Option<Vec<Option<Foo>>>");
}

#[test]
fn nullability_list_of_non_null() {
    let t = wrapper(
        TypeKind::List,
        wrapper(TypeKind::NonNull, named(TypeKind::Object, "Foo")),
    );
    assert_eq!(Rust::get_type_name_without_option(&t), "Option<Vec<Foo>>");
}

#[test]
fn nullability_non_null_list() {
    let t = wrapper(
        TypeKind::NonNull,
        wrapper(TypeKind::List, named(TypeKind::Object, "Foo")),
    );
    assert_eq!(Rust::get_type_name_without_option(&t), "Vec<Option<Foo>>");
}

#[test]
fn nullability_non_null_list_of_non_null() {
    let t = wrapper(
        TypeKind::NonNull,
        wrapper(
            TypeKind::List,
            wrapper(TypeKind::NonNull, named(TypeKind::Object, "Foo")),
        ),
    );
    assert_eq!(Rust::get_type_name_without_option(&t), "Vec<Foo>");
}

#[test]
fn builtin_names_map_to_primitives() {
    assert_eq!(Rust::get_type_name(&named(TypeKind::Scalar, "Int")), "Option<isize>");
    assert_eq!(Rust::get_type_name(&named(TypeKind::Scalar, "Float")), "Option<f64>");
    assert_eq!(Rust::get_type_name(&named(TypeKind::Scalar, "Boolean")), "Option<bool>");
    assert_eq!(Rust::get_type_name(&named(TypeKind::Scalar, "ID")), "Option<String>");
    assert_eq!(Rust::get_type_name(&named(TypeKind::Scalar, "String")), "Option<String>");
}

#[test]
fn object_member_keeps_default_nullability() {
    let required_id = wrapper(TypeKind::NonNull, named(TypeKind::Scalar, "ID"));
    let types = vec![object("User", vec![field("userId", required_id)])];
    assert_eq!(
        Rust::generate_types(&types),
        "pub struct User {\n    #[serde(rename = \"userId\")]\n    pub user_id: Option<String>,\n}\n\n"
    );
}

#[test]
fn input_object_member_is_required() {
    let required_id = wrapper(TypeKind::NonNull, named(TypeKind::Scalar, "ID"));
    let types = vec![input_object("UserInput", vec![input_value("userId", required_id)])];
    assert_eq!(
        Rust::generate_types(&types),
        "pub struct UserInput {\n    #[serde(rename = \"userId\")]\n    pub user_id: String,\n}\n\n"
    );
}

#[test]
fn interface_emits_sum_type_over_possible_types() {
    let mut iface = named(TypeKind::Interface, "Node");
    iface.possible_types = Some(vec![
        named(TypeKind::Object, "A"),
        named(TypeKind::Object, "B"),
    ]);
    let types = vec![iface];
    assert_eq!(
        Rust::generate_types(&types),
        "pub enum Node {\n    A(A),\n    B(B),\n}\n\n"
    );
}

#[test]
fn union_emits_sum_type_over_possible_types() {
    let mut u = named(TypeKind::Union, "SearchResult");
    u.possible_types = Some(vec![
        named(TypeKind::Object, "User"),
        named(TypeKind::Object, "Group"),
    ]);
    let types = vec![u];
    assert_eq!(
        Rust::generate_types(&types),
        "pub enum SearchResult {\n    User(User),\n    Group(Group),\n}\n\n"
    );
}

#[test]
fn enum_variants_keep_declaration_order() {
    let mut e = named(TypeKind::Enum, "Color");
    e.enum_values = Some(vec![enum_value("RED"), enum_value("GREEN"), enum_value("BLUE")]);
    let types = vec![e];
    assert_eq!(
        Rust::generate_types(&types),
        "pub enum Color {\n    RED,\n    GREEN,\n    BLUE,\n}\n\n"
    );
}

#[test]
fn declarations_follow_input_order() {
    let mut e = named(TypeKind::Enum, "Color");
    e.enum_values = Some(vec![enum_value("RED")]);
    let types = vec![named(TypeKind::Scalar, "DateTime"), e];
    assert_eq!(
        Rust::generate_types(&types),
        "pub struct DateTime(String);\n\npub enum Color {\n    RED,\n}\n\n"
    );
}

#[test]
fn builtin_scalar_adds_no_separator() {
    let types = vec![
        named(TypeKind::Scalar, "Int"),
        named(TypeKind::Scalar, "DateTime"),
        named(TypeKind::Scalar, "Boolean"),
    ];
    assert_eq!(Rust::generate_types(&types), "pub struct DateTime(String);\n\n");
}

#[test]
fn top_level_wrapper_defers_to_inner() {
    let types = vec![wrapper(TypeKind::NonNull, named(TypeKind::Scalar, "DateTime"))];
    assert_eq!(Rust::generate_types(&types), "pub struct DateTime(String);\n\n");
}

#[test]
fn repeated_generation_is_byte_identical() {
    let build = || {
        let required_id = wrapper(TypeKind::NonNull, named(TypeKind::Scalar, "ID"));
        let mut e = named(TypeKind::Enum, "Color");
        e.enum_values = Some(vec![enum_value("RED"), enum_value("GREEN")]);
        vec![
            object("User", vec![field("userId", required_id)]),
            e,
            named(TypeKind::Scalar, "DateTime"),
        ]
    };
    let first = Rust::generate_types(&build());
    let second = Rust::generate_types(&build());
    assert_eq!(first, second);
}

#[test]
fn empty_types_give_empty_output() {
    let types: Vec<Type> = Vec::new();
    assert_eq!(Rust::generate_types(&types), "");
}

#[test]
fn localize_name_snake_cases_interior_capitals() {
    assert_eq!(Rust::localize_name("userId"), "user_id");
    assert_eq!(Rust::localize_name("createdAtTime"), "created_at_time");
}

#[test]
fn localize_name_leading_capital_gets_no_separator() {
    assert_eq!(Rust::localize_name("UserName"), "user_name");
}

#[test]
fn localize_name_consecutive_capitals() {
    assert_eq!(Rust::localize_name("URL"), "u_r_l");
}

#[test]
fn localize_name_lowercases_unicode_capitals() {
    assert_eq!(Rust::localize_name("\u{c4}b"), "\u{e4}b");
    assert_eq!(Rust::localize_name("a\u{c4}"), "a_\u{e4}");
}

#[test]
fn localize_name_passes_other_characters_through() {
    assert_eq!(Rust::localize_name("already_snake9"), "already_snake9");
    assert_eq!(Rust::localize_name(""), "");
}

#[test]
fn check_types_accepts_well_formed_collections() {
    let required_id = wrapper(TypeKind::NonNull, named(TypeKind::Scalar, "ID"));
    let mut e = named(TypeKind::Enum, "Color");
    e.enum_values = Some(vec![enum_value("RED")]);
    let types = vec![object("User", vec![field("userId", required_id)]), e];
    assert!(check_types(&types));
}

#[test]
fn check_types_rejects_wrapper_without_inner() {
    let mut broken = named(TypeKind::List, "broken");
    broken.name = None;
    *broken.of_type = None;
    assert!(!check_types(&vec![broken]));
}

#[test]
fn check_types_rejects_enum_without_values() {
    let e = named(TypeKind::Enum, "Color");
    assert!(!check_types(&vec![e]));
}

#[test]
fn check_types_rejects_object_without_fields() {
    let t = named(TypeKind::Object, "User");
    assert!(!check_types(&vec![t]));
}

#[test]
fn print_indents_nested_groups() {
    let sections = vec![
        TypeSection::Line("a".to_string()),
        TypeSection::Indent(vec![
            TypeSection::Line("b".to_string()),
            TypeSection::Indent(vec![TypeSection::Line("c".to_string())]),
        ]),
        TypeSection::Line("d".to_string()),
    ];
    assert_eq!(typegen::languages::print(&sections, 2, 0), "a\n  b\n    c\nd\n");
}

#[test]
fn error_carries_its_message() {
    let e = Error::new("bad schema".to_string());
    assert_eq!(e.message(), "bad schema");
}
