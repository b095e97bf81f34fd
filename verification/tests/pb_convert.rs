use protobuf_convert::convert::{ConvEntry, NamedConverter};
use protobuf_convert::decl::{
    FieldDecl, OptionValue, RawOption, TypeDecl, TypeExpr, TypeShape, VariantDecl, VariantFields,
};
use protobuf_convert::descriptor::{
    ParsedVariant, ProtobufConvert, ProtobufConvertEnum, ValueType,
};
use protobuf_convert::error::GenError;
use protobuf_convert::implement_protobuf_convert;
use protobuf_convert::options::RenamePolicy;
use protobuf_convert::value::{ExternalValue, NativeValue};

fn opt_text(name: &str, value: &str) -> RawOption {
    RawOption { name: name.to_string(), value: OptionValue::Text(value.to_string()) }
}

fn opt_flag(name: &str) -> RawOption {
    RawOption { name: name.to_string(), value: OptionValue::Flag }
}

fn opt_rename_snake() -> RawOption {
    RawOption {
        name: "rename".to_string(),
        value: OptionValue::List(vec![opt_text("case", "snake_case")]),
    }
}

fn field(name: &str, options: Vec<RawOption>, ty: TypeExpr) -> FieldDecl {
    FieldDecl { name: name.to_string(), options, ty }
}

/// The plain two-field message: `id: u32`, `name: String`.
fn message_decl() -> TypeDecl {
    TypeDecl {
        name: "Message".to_string(),
        options: vec![opt_text("source", "proto::SimpleMessage")],
        shape: TypeShape::Struct(vec![
            field("id", vec![], TypeExpr::U32),
            field("name", vec![], TypeExpr::Text),
        ]),
    }
}

/// The message whose `name` field carries the skip directive.
fn skip_fields_message_decl() -> TypeDecl {
    TypeDecl {
        name: "SkipFieldsMessage".to_string(),
        options: vec![opt_text("source", "proto::SkipFieldsMessage")],
        shape: TypeShape::Struct(vec![
            field("id", vec![], TypeExpr::U32),
            field("name", vec![opt_flag("skip")], TypeExpr::Text),
        ]),
    }
}

/// The message whose `id` field goes through a custom converter.
fn custom_message_decl() -> TypeDecl {
    TypeDecl {
        name: "CustomMessage".to_string(),
        options: vec![opt_text("source", "proto::SimpleMessage")],
        shape: TypeShape::Struct(vec![
            field("id", vec![opt_text("with", "custom_id_pb_convert")], TypeExpr::U32),
            field("name", vec![], TypeExpr::Text),
        ]),
    }
}

/// The enum over the two messages, with variant conversions and
/// snake-case renaming.
fn enum_message_decl() -> TypeDecl {
    TypeDecl {
        name: "EnumMessage".to_string(),
        options: vec![
            opt_text("source", "proto::EnumMessage"),
            opt_flag("impl_from_trait"),
            opt_rename_snake(),
        ],
        shape: TypeShape::Enum(vec![
            VariantDecl {
                name: "Simple".to_string(),
                fields: VariantFields::Unnamed(vec![TypeExpr::Message(Box::new(message_decl()))]),
            },
            VariantDecl {
                name: "Skip".to_string(),
                fields: VariantFields::Unnamed(vec![TypeExpr::Message(Box::new(
                    skip_fields_message_decl(),
                ))]),
            },
        ]),
    }
}

/// The same enum with the serialization shim requested.
fn enum_message_with_serde_decl() -> TypeDecl {
    TypeDecl {
        name: "EnumMessageWithSerde".to_string(),
        options: vec![
            opt_text("source", "proto::EnumMessage"),
            opt_rename_snake(),
            opt_flag("serde_pb_convert"),
        ],
        shape: TypeShape::Enum(vec![
            VariantDecl {
                name: "Simple".to_string(),
                fields: VariantFields::Unnamed(vec![TypeExpr::Message(Box::new(message_decl()))]),
            },
            VariantDecl {
                name: "Skip".to_string(),
                fields: VariantFields::Unnamed(vec![TypeExpr::Message(Box::new(
                    skip_fields_message_decl(),
                ))]),
            },
        ]),
    }
}

/// The registry holding the custom `id` converter: the discriminants of
/// the optional custom id, with the text its failure report starts with.
fn custom_id_registry() -> Vec<NamedConverter> {
    // None maps to wire 0; Some(First | Second | Third) map to 5, 15, 35.
    let entries = vec![
        ConvEntry { native: opt_id_none(), wire: 0 },
        ConvEntry { native: opt_id_some(5), wire: 5 },
        ConvEntry { native: opt_id_some(15), wire: 15 },
        ConvEntry { native: opt_id_some(35), wire: 35 },
    ];
    vec![NamedConverter {
        path: "custom_id_pb_convert".to_string(),
        entries,
        error_prefix: "Unknown enum discriminant: ".to_string(),
    }]
}

fn opt_id_none() -> NativeValue {
    NativeValue::Variant(0, Box::new(NativeValue::U32(0)))
}

fn opt_id_some(d: u32) -> NativeValue {
    NativeValue::Variant(1, Box::new(NativeValue::U32(d)))
}

fn record(values: Vec<NativeValue>) -> NativeValue {
    NativeValue::Record(values)
}

fn text(s: &str) -> NativeValue {
    NativeValue::Text(s.to_string())
}

fn no_converters() -> Vec<NamedConverter> {
    Vec::new()
}

#[test]
fn simple_message_roundtrip() {
    let desc = implement_protobuf_convert(&message_decl()).unwrap();
    let reg = no_converters();
    let message = record(vec![NativeValue::U32(1), text("SimpleMessage")]);

    let pb_message = desc.to_external(&message, &reg);
    let de_message = desc.from_external(&pb_message, &reg).unwrap();

    assert_eq!(message, de_message);
}

#[test]
fn skip_field_message() {
    let desc = implement_protobuf_convert(&skip_fields_message_decl()).unwrap();
    let reg = no_converters();
    let message = record(vec![NativeValue::U32(1), text("SimpleMessage")]);

    let pb_message = desc.to_external(&message, &reg);
    let de_message = desc.from_external(&pb_message, &reg).unwrap();

    match &de_message {
        NativeValue::Record(fields) => {
            assert_eq!(fields[0], NativeValue::U32(1));
            assert!(fields[1] == NativeValue::Text(String::new()));
        },
        _ => panic!("deserialized value is not a record"),
    }
}

#[test]
fn custom_message_roundtrip() {
    let desc = implement_protobuf_convert(&custom_message_decl()).unwrap();
    let reg = custom_id_registry();
    let message = record(vec![opt_id_none(), text("SimpleMessage")]);

    let pb_message = desc.to_external(&message, &reg);
    let de_message = desc.from_external(&pb_message, &reg).unwrap();

    assert_eq!(message, de_message);

    // Check `from_external` with the unknown enum discriminant.
    let plain_desc = implement_protobuf_convert(&message_decl()).unwrap();
    let message = record(vec![NativeValue::U32(12), text("Weird message")]);
    let pb_message = plain_desc.to_external(&message, &reg);

    let e = desc.from_external(&pb_message, &reg).unwrap_err();
    assert_eq!(e.message, "Unknown enum discriminant: 12");
}

#[test]
fn enum_message() {
    let desc = implement_protobuf_convert(&enum_message_decl()).unwrap();
    let reg = no_converters();
    let message = record(vec![NativeValue::U32(1), text("SimpleMessage")]);

    let enum_message = NativeValue::Variant(1, Box::new(message));

    let pb_message = desc.to_external(&enum_message, &reg);
    let de_message = desc.from_external(&pb_message, &reg).unwrap();

    match de_message {
        NativeValue::Variant(1, msg) => match *msg {
            NativeValue::Record(fields) => assert_eq!(fields[0], NativeValue::U32(1)),
            _ => panic!("payload is not a record"),
        },
        _ => panic!("Deserialized message has wrong type"),
    }
}

#[test]
fn from_trait() {
    let desc = implement_protobuf_convert(&enum_message_decl()).unwrap();
    let enum_desc: ProtobufConvertEnum = match desc {
        ProtobufConvert::Enum(e) => e,
        _ => panic!("not an enum descriptor"),
    };
    let message = record(vec![NativeValue::U32(1), text("message")]);
    let converted = enum_desc.wrap_variant(0, message);

    match &converted {
        NativeValue::Variant(0, msg) => match &**msg {
            NativeValue::Record(fields) => assert_eq!(fields[0], NativeValue::U32(1)),
            _ => panic!("payload is not a record"),
        },
        _ => panic!("Converted message has wrong type"),
    };

    let skip = record(vec![NativeValue::U32(1), text("skip")]);
    let converted = enum_desc.wrap_variant(1, skip);
    let err = enum_desc.try_unwrap_variant(0, converted).unwrap_err();

    assert!(err.message.contains("Expected variant Simple, but got Skip"));
}

#[test]
fn serde_serialize_message() {
    let desc = implement_protobuf_convert(&enum_message_with_serde_decl()).unwrap();
    let reg = no_converters();
    let message = record(vec![NativeValue::U32(1), text("SimpleMessage")]);

    let enum_message = NativeValue::Variant(1, Box::new(message));
    let pb_message = desc.serde_encode(&enum_message, &reg);
    let de_message = desc.serde_decode(&pb_message, &reg).unwrap();

    match de_message {
        NativeValue::Variant(1, msg) => match *msg {
            NativeValue::Record(fields) => assert_eq!(fields[0], NativeValue::U32(1)),
            _ => panic!("payload is not a record"),
        },
        _ => panic!("Deserialized message has wrong type"),
    }
}

#[test]
fn skipped_field_never_reaches_external() {
    let desc = implement_protobuf_convert(&skip_fields_message_decl()).unwrap();
    let reg = no_converters();
    let message = record(vec![NativeValue::U32(7), text("whatever")]);

    let pb_message = desc.to_external(&message, &reg);
    match &pb_message {
        ExternalValue::Message(slots) => {
            assert_eq!(slots.len(), 1);
            assert_eq!(slots[0].name, "id");
            assert_eq!(slots[0].value, ExternalValue::U32(7));
        },
        _ => panic!("external value is not a message"),
    }
}

#[test]
fn enum_sets_exactly_one_renamed_case() {
    let desc = implement_protobuf_convert(&enum_message_decl()).unwrap();
    let reg = no_converters();
    let message = record(vec![NativeValue::U32(3), text("x")]);
    let enum_message = NativeValue::Variant(1, Box::new(message));

    let pb_message = desc.to_external(&enum_message, &reg);
    match &pb_message {
        ExternalValue::Oneof(Some(case)) => {
            assert_eq!(case.slot, "skip");
        },
        _ => panic!("external value does not hold exactly one populated case"),
    }
}

#[test]
fn missing_discriminant_names_the_type() {
    let desc = implement_protobuf_convert(&enum_message_decl()).unwrap();
    let reg = no_converters();

    let e = desc.from_external(&ExternalValue::Oneof(None), &reg).unwrap_err();
    assert_eq!(e.message, "Failed to decode EnumMessage from protobuf");
}

#[test]
fn unwrap_same_variant_returns_payload() {
    let desc = implement_protobuf_convert(&enum_message_decl()).unwrap();
    let enum_desc = match desc {
        ProtobufConvert::Enum(e) => e,
        _ => panic!("not an enum descriptor"),
    };
    let message = record(vec![NativeValue::U32(9), text("hello")]);
    let expected = record(vec![NativeValue::U32(9), text("hello")]);

    let converted = enum_desc.wrap_variant(0, message);
    let back = enum_desc.try_unwrap_variant(0, converted).unwrap();

    assert_eq!(back, expected);
}

#[test]
fn rename_policy_resolves_slot_names() {
    let snake = ProtobufConvertEnum {
        name: "Sample".to_string(),
        source: "proto::Sample".to_string(),
        serde_pb_convert: false,
        impl_from_trait: false,
        rename: RenamePolicy::SnakeCase,
        oneof_field: "kind".to_string(),
        variants: vec![],
    };
    let identity = ProtobufConvertEnum { rename: RenamePolicy::Identity, ..snake };
    let variant = ParsedVariant { name: "CamelCaseName".to_string(), payload: ValueType::U32 };

    let snake = ProtobufConvertEnum { rename: RenamePolicy::SnakeCase, ..identity };
    assert_eq!(snake.get_variant_name(&variant), "camel_case_name");

    let identity = ProtobufConvertEnum { rename: RenamePolicy::Identity, ..snake };
    assert_eq!(identity.get_variant_name(&variant), "CamelCaseName");
}

#[test]
fn oneof_field_defaults_to_kind() {
    let mut decl = enum_message_decl();
    let desc = implement_protobuf_convert(&decl).unwrap();
    match &desc {
        ProtobufConvert::Enum(e) => {
            assert_eq!(e.oneof_field, "kind");
            assert!(e.impl_from_trait);
            assert_eq!(e.rename, RenamePolicy::SnakeCase);
            assert_eq!(e.source, "proto::EnumMessage");
        },
        _ => panic!("not an enum descriptor"),
    }

    decl.options.push(opt_text("oneof_field", "message"));
    let desc = implement_protobuf_convert(&decl).unwrap();
    match &desc {
        ProtobufConvert::Enum(e) => assert_eq!(e.oneof_field, "message"),
        _ => panic!("not an enum descriptor"),
    }
}

#[test]
fn unknown_option_fails_generation() {
    let mut decl = message_decl();
    decl.options.push(opt_flag("frobnicate"));
    let e = implement_protobuf_convert(&decl).unwrap_err();
    assert_eq!(e, GenError::UnknownOption { name: "frobnicate".to_string() });
    assert_eq!(e.message(), "Unknown option `frobnicate`");
}

#[test]
fn missing_source_fails_generation() {
    let decl = TypeDecl {
        name: "NoSource".to_string(),
        options: vec![],
        shape: TypeShape::Struct(vec![field("id", vec![], TypeExpr::U32)]),
    };
    let e = implement_protobuf_convert(&decl).unwrap_err();
    assert_eq!(e, GenError::MissingSource { ty: "NoSource".to_string() });
    assert_eq!(e.message(), "`source` attribute is required for `NoSource`");
}

#[test]
fn undefined_case_fails_generation() {
    let decl = TypeDecl {
        name: "BadCase".to_string(),
        options: vec![
            opt_text("source", "proto::BadCase"),
            RawOption {
                name: "rename".to_string(),
                value: OptionValue::List(vec![opt_text("case", "kebab-case")]),
            },
        ],
        shape: TypeShape::Enum(vec![]),
    };
    let e = implement_protobuf_convert(&decl).unwrap_err();
    assert_eq!(e, GenError::UndefinedCase { value: "kebab-case".to_string() });
    assert_eq!(e.message(), "Undefined case type `kebab-case`");
}

#[test]
fn too_many_variant_fields_fails_generation() {
    let decl = TypeDecl {
        name: "Wide".to_string(),
        options: vec![opt_text("source", "proto::Wide")],
        shape: TypeShape::Enum(vec![VariantDecl {
            name: "Pair".to_string(),
            fields: VariantFields::Unnamed(vec![TypeExpr::U32, TypeExpr::Text]),
        }]),
    };
    let e = implement_protobuf_convert(&decl).unwrap_err();
    assert_eq!(e, GenError::TooManyFields { variant: "Pair".to_string() });
    assert_eq!(e.message(), "Too many fields in the enum variant `Pair`");
}

#[test]
fn unsupported_variant_shape_fails_generation() {
    let decl = TypeDecl {
        name: "Odd".to_string(),
        options: vec![opt_text("source", "proto::Odd")],
        shape: TypeShape::Enum(vec![VariantDecl {
            name: "Unitary".to_string(),
            fields: VariantFields::Unit,
        }]),
    };
    let e = implement_protobuf_convert(&decl).unwrap_err();
    assert_eq!(e, GenError::UnsupportedShape { variant: "Unitary".to_string() });

    let decl = TypeDecl {
        name: "Odd".to_string(),
        options: vec![opt_text("source", "proto::Odd")],
        shape: TypeShape::Enum(vec![VariantDecl {
            name: "Tupled".to_string(),
            fields: VariantFields::Unnamed(vec![TypeExpr::Tuple(vec![TypeExpr::U32])]),
        }]),
    };
    let e = implement_protobuf_convert(&decl).unwrap_err();
    assert_eq!(e, GenError::UnsupportedShape { variant: "Tupled".to_string() });
}

#[test]
fn unsupported_field_type_fails_generation() {
    let decl = TypeDecl {
        name: "Tangled".to_string(),
        options: vec![opt_text("source", "proto::Tangled")],
        shape: TypeShape::Struct(vec![field(
            "pair",
            vec![],
            TypeExpr::Tuple(vec![TypeExpr::U32, TypeExpr::U32]),
        )]),
    };
    let e = implement_protobuf_convert(&decl).unwrap_err();
    assert_eq!(e, GenError::UnsupportedField { field: "pair".to_string() });
}

#[test]
fn union_input_fails_generation() {
    let decl = TypeDecl {
        name: "Blob".to_string(),
        options: vec![],
        shape: TypeShape::Union,
    };
    let e = implement_protobuf_convert(&decl).unwrap_err();
    assert_eq!(e, GenError::UnsupportedInput);
    assert_eq!(e.message(), "Only for enums and structs.");
}

#[test]
fn unknown_converter_path_fails_conversion() {
    let desc = implement_protobuf_convert(&custom_message_decl()).unwrap();
    let reg = no_converters();
    let pb_message = ExternalValue::Message(vec![]);

    let e = desc.from_external(&pb_message, &reg).unwrap_err();
    assert_eq!(e.message, "Unknown converter `custom_id_pb_convert`");
}

#[test]
fn absent_slots_read_as_defaults() {
    let desc = implement_protobuf_convert(&message_decl()).unwrap();
    let reg = no_converters();
    let pb_message = ExternalValue::Message(vec![]);

    let de_message = desc.from_external(&pb_message, &reg).unwrap();
    assert_eq!(de_message, record(vec![NativeValue::U32(0), text("")]));
}

#[test]
fn nested_enum_default_is_missing_discriminant() {
    // A struct holding an enum-typed field: an external message with the
    // enum slot absent decodes the slot as an empty oneof carrier, which
    // fails naming the enum type.
    let decl = TypeDecl {
        name: "Holder".to_string(),
        options: vec![opt_text("source", "proto::Holder")],
        shape: TypeShape::Struct(vec![field(
            "inner",
            vec![],
            TypeExpr::Message(Box::new(enum_message_decl())),
        )]),
    };
    let desc = implement_protobuf_convert(&decl).unwrap();
    let reg = no_converters();

    let e = desc.from_external(&ExternalValue::Message(vec![]), &reg).unwrap_err();
    assert_eq!(e.message, "Failed to decode EnumMessage from protobuf");
}

#[test]
fn skip_takes_precedence_over_with() {
    let decl = TypeDecl {
        name: "Both".to_string(),
        options: vec![opt_text("source", "proto::Both")],
        shape: TypeShape::Struct(vec![field(
            "id",
            vec![opt_flag("skip"), opt_text("with", "some_converter")],
            TypeExpr::U32,
        )]),
    };
    let desc = implement_protobuf_convert(&decl).unwrap();
    let reg = no_converters();
    let message = record(vec![NativeValue::U32(42)]);

    // The field is skipped: nothing reaches the external message, and the
    // unregistered converter is never consulted.
    let pb_message = desc.to_external(&message, &reg);
    assert_eq!(pb_message, ExternalValue::Message(vec![]));
    let de_message = desc.from_external(&pb_message, &reg).unwrap();
    assert_eq!(de_message, record(vec![NativeValue::U32(0)]));

    match &desc {
        ProtobufConvert::Struct(s) => {
            assert_eq!(
                s.fields[0].attrs.directive(),
                protobuf_convert::options::ConversionDirective::Skip
            );
        },
        _ => panic!("not a struct descriptor"),
    }
}

#[test]
fn unknown_discriminant_renders_decimal() {
    assert_eq!(protobuf_convert::error::u32_to_decimal(0), "0");
    assert_eq!(protobuf_convert::error::u32_to_decimal(12), "12");
    assert_eq!(protobuf_convert::error::u32_to_decimal(4294967295), "4294967295");
}

#[test]
fn deep_equality_and_clone_agree() {
    let a = record(vec![NativeValue::U32(1), text("x"), NativeValue::Variant(
        2,
        Box::new(record(vec![text("y")])),
    )]);
    let b = a.deep_clone();
    assert!(a.value_eq(&b));
    assert_eq!(a, b);

    let c = record(vec![NativeValue::U32(1), text("x"), NativeValue::Variant(
        2,
        Box::new(record(vec![text("z")])),
    )]);
    assert!(!a.value_eq(&c));
}

#[test]
fn derive_entry_matches_driver() {
    let a = protobuf_convert::generate_protobuf_convert(&message_decl()).unwrap();
    let b = implement_protobuf_convert(&message_decl()).unwrap();
    assert_eq!(a, b);
}

#[test]
fn repeated_option_last_occurrence_governs() {
    let mut decl = message_decl();
    decl.options.push(opt_text("source", "proto::Overridden"));
    let desc = implement_protobuf_convert(&decl).unwrap();
    match &desc {
        ProtobufConvert::Struct(s) => assert_eq!(s.source, "proto::Overridden"),
        _ => panic!("not a struct descriptor"),
    }
}

#[test]
fn option_of_the_wrong_form_is_unknown() {
    let mut decl = message_decl();
    decl.options = vec![opt_flag("source")];
    let e = implement_protobuf_convert(&decl).unwrap_err();
    assert_eq!(e, GenError::UnknownOption { name: "source".to_string() });
}

#[test]
fn oneof_case_uses_identity_without_rename() {
    let decl = TypeDecl {
        name: "Plain".to_string(),
        options: vec![opt_text("source", "proto::Plain")],
        shape: TypeShape::Enum(vec![VariantDecl {
            name: "Simple".to_string(),
            fields: VariantFields::Unnamed(vec![TypeExpr::Message(Box::new(message_decl()))]),
        }]),
    };
    let desc = implement_protobuf_convert(&decl).unwrap();
    let reg = no_converters();
    let message = record(vec![NativeValue::U32(2), text("y")]);
    let enum_message = NativeValue::Variant(0, Box::new(message));

    let pb_message = desc.to_external(&enum_message, &reg);
    match &pb_message {
        ExternalValue::Oneof(Some(case)) => assert_eq!(case.slot, "Simple"),
        _ => panic!("external value does not hold exactly one populated case"),
    }
}
