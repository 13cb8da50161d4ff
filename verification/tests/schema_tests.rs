use zetro::enums::ZetroEnum;
use zetro::errors::ErrorKind;
use zetro::fields::{FieldKind, ZetroField};
use zetro::json::JsonValue;
use zetro::schema::ZetroSchema;
use zetro::structs::{generate_nested_struct_name, ZetroStruct};

fn jstr(text: &str) -> JsonValue {
    JsonValue::Str(String::from(text))
}

fn jobj(pairs: Vec<(&str, JsonValue)>) -> JsonValue {
    JsonValue::Object(pairs.into_iter().map(|(k, v)| (String::from(k), v)).collect())
}

/// Ensure field parsing works correctly
#[test]
fn check_field_parsing() {
    let struct_name = String::from("ExampleStruct");
    let field_name = String::from("exampleField");

    // 1. Parse a non-null string field
    let string_non_null = ZetroField::from_value(
        struct_name.clone(),
        field_name.clone(),
        &jstr("string; a non-null string"),
    )
    .unwrap();

    match string_non_null.kind {
        FieldKind::StringValue => {}
        _ => {
            panic!("expected type to be string");
        }
    }
    assert_eq!(string_non_null.is_nullable, false);
    assert_eq!(string_non_null.is_multiple, false);
    assert_eq!(
        string_non_null.description,
        Some(String::from("a non-null string"))
    );

    // 2. Parse nullable list of enums
    let enum_list_nullable = ZetroField::from_value(
        struct_name.clone(),
        field_name.clone(),
        &jstr("?[]enum~EnumName; a nullable enum"),
    )
    .unwrap();

    match enum_list_nullable.kind {
        FieldKind::EnumValue(enum_name) => {
            assert_eq!(enum_name, String::from("EnumName"));
        }
        _ => {
            panic!("expected type to be enum");
        }
    }
    assert_eq!(enum_list_nullable.is_nullable, true);
    assert_eq!(enum_list_nullable.is_multiple, true);
    assert_eq!(
        enum_list_nullable.description,
        Some(String::from("a nullable enum"))
    );

    // 3. Parse nested struct
    let nested_struct = ZetroField::from_value(
        struct_name.clone(),
        field_name.clone(),
        &jobj(vec![
            ("description", jstr("nested struct")),
            ("fields", jobj(vec![("first", jstr("i8"))])),
        ]),
    )
    .unwrap();

    match nested_struct.kind {
        FieldKind::NestedObject(zetro_struct) => {
            match zetro_struct.fields[0].kind {
                FieldKind::Int8 => {}
                _ => {
                    panic!("expected type to be Int8");
                }
            }
            assert_eq!(zetro_struct.fields[0].description, None);
            assert_eq!(zetro_struct.fields[0].is_multiple, false);
            assert_eq!(zetro_struct.fields[0].is_nullable, false);
            assert_eq!(zetro_struct.is_nullable, false);
            assert_eq!(zetro_struct.description, String::from("nested struct"));
        }
        _ => {
            panic!("expected type to be enum");
        }
    }
    assert_eq!(nested_struct.is_nullable, false);
    assert_eq!(nested_struct.is_multiple, false);
}

/// Ensure invalid references are declined
#[test]
fn invalid_references() {
    // Structs
    let err = ZetroSchema::from_value(&jobj(vec![
        (
            "structs",
            jobj(vec![(
                "SomeStruct",
                jobj(vec![
                    ("description", jstr("A valid description")),
                    ("fields", jobj(vec![("invalidRef", jstr("struct~InvalidRef"))])),
                ]),
            )]),
        ),
        ("enums", jobj(vec![])),
        ("routes", jobj(vec![])),
    ]))
    .err()
    .expect("expected schema error(struct)");

    match &err.kind {
        &ErrorKind::InvalidReference(_) => {}
        _ => panic!(
            "expected schema error(struct) to be 'invalid reference'. Got: {:#?}",
            err
        ),
    }

    // Enums
    let err = ZetroSchema::from_value(&jobj(vec![
        (
            "structs",
            jobj(vec![(
                "SomeStruct",
                jobj(vec![
                    ("description", jstr("A valid description")),
                    ("fields", jobj(vec![("invalidRef", jstr("enum~InvalidRef"))])),
                ]),
            )]),
        ),
        ("enums", jobj(vec![])),
        ("routes", jobj(vec![])),
    ]))
    .err()
    .expect("expected schema error(enum)");

    match &err.kind {
        &ErrorKind::InvalidReference(_) => {}
        _ => panic!(
            "expected schema error(enum) to be 'invalid reference'. Got: {:#?}",
            err
        ),
    }

    // Nested structs
    let err = ZetroSchema::from_value(&jobj(vec![
        (
            "structs",
            jobj(vec![(
                "SomeStruct",
                jobj(vec![
                    ("description", jstr("A valid description")),
                    (
                        "fields",
                        jobj(vec![(
                            "nestedObj",
                            jobj(vec![
                                ("description", jstr("Another valid description")),
                                ("fields", jobj(vec![("someField", jstr("enum~InvalidRef"))])),
                            ]),
                        )]),
                    ),
                ]),
            )]),
        ),
        ("enums", jobj(vec![])),
        ("routes", jobj(vec![])),
    ]))
    .err()
    .expect("expected schema error(nested struct)");

    match &err.kind {
        &ErrorKind::InvalidReference(_) => {}
        _ => panic!(
            "expected schema error(nested struct) to be 'invalid reference'. Got: {:#?}",
            err
        ),
    }
}

/// Fields must be sorted alphabetically to ensure deterministic array
/// generation
#[test]
fn order_alphabetically() {
    let struct_json = jobj(vec![
        ("description", jstr("")),
        (
            "fields",
            jobj(vec![
                ("bbb", jstr("[]u32")),
                ("aac", jstr("?struct~StructName")),
                ("zzz", jstr("?[]enum~EnumName")),
                (
                    "abc",
                    jobj(vec![
                        ("description", jstr("nested abc struct")),
                        (
                            "fields",
                            jobj(vec![("abc", jstr("?i64")), ("aaa", jstr("string"))]),
                        ),
                    ]),
                ),
                ("aaa", jstr("?string")),
                ("AAA", jstr("?string")),
            ]),
        ),
    ]);

    let obj = ZetroStruct::from_value(String::from("MyStruct"), &struct_json).unwrap();

    assert_eq!(obj.fields[0].name, String::from("AAA"));
    assert_eq!(obj.fields[1].name, String::from("aaa"));
    assert_eq!(obj.fields[2].name, String::from("aac"));
    assert_eq!(obj.fields[3].name, String::from("abc"));
    match &obj.fields[3].kind {
        FieldKind::NestedObject(obj) => {
            assert_eq!(obj.fields[0].name, String::from("aaa"));
            assert_eq!(obj.fields[1].name, String::from("abc"));
        }
        _ => {
            panic!("expected field to be a nested object");
        }
    }
    assert_eq!(obj.fields[4].name, String::from("bbb"));
    assert_eq!(obj.fields[5].name, String::from("zzz"));
}

/// Description is a mandatory field in structs. Reject structs with no
/// description
#[test]
fn reject_no_description() {
    let json = jobj(vec![(
        "fields",
        jobj(vec![("example", jstr("string; example field"))]),
    )]);
    assert_eq!(
        ZetroStruct::from_value("TestStruct".to_string(), &json).is_err(),
        true
    );
}

/// Description is a mandatory field in structs. Reject nested structs with
/// no description
#[test]
fn reject_nested_no_description() {
    let json = jobj(vec![(
        "fields",
        jobj(vec![
            ("example", jstr("string; example field")),
            (
                "nested",
                jobj(vec![("example2", jstr("string; another example field"))]),
            ),
        ]),
    )]);
    assert_eq!(
        ZetroStruct::from_value("TestStruct".to_string(), &json).is_err(),
        true
    );
}

/// A nullable, multiple enum field string parses into all its pieces.
#[test]
fn field_string_full_grammar() {
    let field = ZetroField::from_value(
        String::from("Scene"),
        String::from("hue"),
        &jstr("?[]enum~Color; a hue"),
    )
    .unwrap();
    match &field.kind {
        FieldKind::EnumValue(name) => assert_eq!(name, "Color"),
        _ => panic!("expected an enum reference"),
    }
    assert_eq!(field.is_nullable, true);
    assert_eq!(field.is_multiple, true);
    assert_eq!(field.is_recursive, false);
    assert_eq!(field.description, Some(String::from("a hue")));
}

/// A self-referential struct is accepted when the field is nullable or
/// multiple, and rejected when it is neither.
#[test]
fn recursive_struct_guard() {
    let ok_schema = jobj(vec![
        (
            "structs",
            jobj(vec![(
                "Node",
                jobj(vec![
                    ("description", jstr("a tree node")),
                    ("fields", jobj(vec![("children", jstr("?[]struct~Node"))])),
                ]),
            )]),
        ),
        ("enums", jobj(vec![])),
        ("routes", jobj(vec![])),
    ]);
    let parsed = ZetroSchema::from_value(&ok_schema).unwrap();
    assert_eq!(parsed.structs.len(), 1);
    assert_eq!(parsed.structs[0].fields[0].is_recursive, true);

    let bad_schema = jobj(vec![
        (
            "structs",
            jobj(vec![(
                "Node",
                jobj(vec![
                    ("description", jstr("a tree node")),
                    ("fields", jobj(vec![("next", jstr("struct~Node"))])),
                ]),
            )]),
        ),
        ("enums", jobj(vec![])),
        ("routes", jobj(vec![])),
    ]);
    let err = ZetroSchema::from_value(&bad_schema).err().expect("expected an error");
    match &err.kind {
        ErrorKind::BadFieldValue(field, expected) => {
            assert_eq!(field, "next");
            assert_eq!(expected, "nullable and/or multiple to avoid an infinite loop.");
        }
        _ => panic!("expected a bad field value error. Got: {:#?}", err),
    }
}

/// A top-level struct may be neither nullable nor multiple.
#[test]
fn reject_top_level_modifiers() {
    let nullable_schema = jobj(vec![
        (
            "structs",
            jobj(vec![(
                "Thing",
                jobj(vec![
                    ("description", jstr("a thing")),
                    ("nullable", JsonValue::Bool(true)),
                    ("fields", jobj(vec![])),
                ]),
            )]),
        ),
        ("enums", jobj(vec![])),
        ("routes", jobj(vec![])),
    ]);
    let err = ZetroSchema::from_value(&nullable_schema).err().expect("expected an error");
    match &err.kind {
        ErrorKind::BadFieldValue(field, expected) => {
            assert_eq!(field, "nullable");
            assert_eq!(expected, "[empty]");
        }
        _ => panic!("expected a bad field value error. Got: {:#?}", err),
    }

    let multiple_schema = jobj(vec![
        (
            "structs",
            jobj(vec![(
                "Thing",
                jobj(vec![
                    ("description", jstr("a thing")),
                    ("multiple", JsonValue::Bool(true)),
                    ("fields", jobj(vec![])),
                ]),
            )]),
        ),
        ("enums", jobj(vec![])),
        ("routes", jobj(vec![])),
    ]);
    let err = ZetroSchema::from_value(&multiple_schema).err().expect("expected an error");
    match &err.kind {
        ErrorKind::BadFieldValue(field, expected) => {
            assert_eq!(field, "multiple");
            assert_eq!(expected, "[empty]");
        }
        _ => panic!("expected a bad field value error. Got: {:#?}", err),
    }
}

/// The description is the text between the first separator and the next
/// one; a second separator cuts it short.
#[test]
fn description_stops_at_next_separator() {
    let field = ZetroField::from_value(
        String::from("S"),
        String::from("f"),
        &jstr("string; first part; second part"),
    )
    .unwrap();
    assert_eq!(field.description, Some(String::from("first part")));

    // a semicolon without the following space is no separator: the whole
    // text is taken as the dtype token and rejected
    let err = ZetroField::from_value(String::from("S"), String::from("f"), &jstr("string;x"))
        .err()
        .expect("expected an error");
    assert!(matches!(err.kind, ErrorKind::BadFieldValue(_, _)));
}

/// A field value that is neither a string nor an object is rejected.
#[test]
fn reject_non_string_field_value() {
    let err = ZetroField::from_value(String::from("S"), String::from("f"), &JsonValue::Number)
        .err()
        .expect("expected an error");
    match &err.kind {
        ErrorKind::BadFieldValue(field, expected) => {
            assert_eq!(field, "f");
            assert_eq!(expected, "string or object");
        }
        _ => panic!("expected a bad field value error"),
    }
}

/// A struct or enum dtype with no referent after it is rejected.
#[test]
fn reject_missing_referent() {
    let err = ZetroField::from_value(String::from("S"), String::from("f"), &jstr("enum"))
        .err()
        .expect("expected an error");
    assert!(matches!(err.kind, ErrorKind::BadFieldValue(_, _)));

    let err = ZetroField::from_value(String::from("S"), String::from("f"), &jstr("struct"))
        .err()
        .expect("expected an error");
    assert!(matches!(err.kind, ErrorKind::BadFieldValue(_, _)));
}

/// An unknown dtype is rejected with the expected shape.
#[test]
fn reject_unknown_dtype() {
    let err = ZetroField::from_value(String::from("S"), String::from("f"), &jstr("float"))
        .err()
        .expect("expected an error");
    match &err.kind {
        ErrorKind::BadFieldValue(field, expected) => {
            assert_eq!(field, "f");
            assert_eq!(expected, "string or object");
        }
        _ => panic!("expected a bad field value error"),
    }
}

/// An enum section entry must be an array of strings.
#[test]
fn enum_parsing() {
    let ok = ZetroEnum::from_value(
        String::from("Color"),
        &JsonValue::Array(vec![jstr("Red"), jstr("Green")]),
    )
    .unwrap();
    assert_eq!(ok.name, "Color");
    assert_eq!(ok.variants, vec![String::from("Red"), String::from("Green")]);

    let err = ZetroEnum::from_value(String::from("Color"), &jstr("Red"))
        .err()
        .expect("expected an error");
    assert!(matches!(err.kind, ErrorKind::BadFieldValue(_, _)));

    let err = ZetroEnum::from_value(
        String::from("Color"),
        &JsonValue::Array(vec![jstr("Red"), JsonValue::Number]),
    )
    .err()
    .expect("expected an error");
    assert!(matches!(err.kind, ErrorKind::BadFieldValue(_, _)));
}

/// Unknown members are rejected at every level.
#[test]
fn reject_unrecognized_members() {
    let err = ZetroSchema::from_value(&jobj(vec![("gadgets", jobj(vec![]))]))
        .err()
        .expect("expected an error");
    match &err.kind {
        ErrorKind::UnrecognizedField(name) => assert_eq!(name, "gadgets"),
        _ => panic!("expected an unrecognized field error"),
    }

    let err = ZetroStruct::from_value(
        String::from("S"),
        &jobj(vec![
            ("description", jstr("a struct")),
            ("fields", jobj(vec![])),
            ("extras", jobj(vec![])),
        ]),
    )
    .err()
    .expect("expected an error");
    match &err.kind {
        ErrorKind::UnrecognizedField(name) => assert_eq!(name, "extras"),
        _ => panic!("expected an unrecognized field error"),
    }
}

/// A missing route member is reported by name.
#[test]
fn route_missing_members() {
    let err = zetro::routes::ZetroRoute::from_value(
        String::from("getRooms"),
        &jobj(vec![("kind", jstr("query"))]),
    )
    .err()
    .expect("expected an error");
    match &err.kind {
        ErrorKind::MissingField(name) => assert_eq!(name, "description"),
        _ => panic!("expected a missing field error. Got: {:#?}", err),
    }

    let err = zetro::routes::ZetroRoute::from_value(
        String::from("getRooms"),
        &jobj(vec![("description", jstr("lists rooms"))]),
    )
    .err()
    .expect("expected an error");
    match &err.kind {
        ErrorKind::MissingField(name) => assert_eq!(name, "kind"),
        _ => panic!("expected a missing field error. Got: {:#?}", err),
    }
}

/// The derived nested name joins parent and field with an underscore, and
/// is what a lifted nested struct is called.
#[test]
fn nested_struct_naming() {
    assert_eq!(generate_nested_struct_name("MyStruct", "abc"), "MyStruct_abc");

    let field = ZetroField::from_value(
        String::from("MyStruct"),
        String::from("abc"),
        &jobj(vec![
            ("description", jstr("nested")),
            ("fields", jobj(vec![])),
        ]),
    )
    .unwrap();
    match &field.kind {
        FieldKind::NestedObject(s) => assert_eq!(s.name, "MyStruct_abc"),
        _ => panic!("expected a nested object"),
    }
}

/// The rendered error text carries both the kind and the offender.
#[test]
fn error_message_text() {
    let err = ZetroStruct::from_value(
        String::from("TestStruct"),
        &jobj(vec![("fields", jobj(vec![]))]),
    )
    .err()
    .expect("expected an error");
    assert_eq!(
        err.to_message(),
        "Missing required field 'description'\nOffender was: Struct 'TestStruct'"
    );
}
