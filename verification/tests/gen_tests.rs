//! Checks of type identity, naming, the declaration models, and literal
//! rendering.

use uniffi_dart::gen::codecs::generate_codec;
use uniffi_dart::gen::codecs::collect_codecs;
use uniffi_dart::gen::codecs::request_codec;
use uniffi_dart::gen::codecs::CodecShape;
use uniffi_dart::gen::enums::generate_enum;
use uniffi_dart::gen::functions::generate_function;
use uniffi_dart::gen::literals::render_literal;
use uniffi_dart::gen::objects::generate_object;
use uniffi_dart::gen::records::generate_record;
use uniffi_dart::gen::runtime::runtime_preamble;
use uniffi_dart::gen::types::generate_ffi_dart_type;
use uniffi_dart::gen::types::generate_ffi_type;
use uniffi_dart::gen::types::generate_type;
use uniffi_dart::gen::types::render;
use uniffi_dart::interface::ArgDesc;
use uniffi_dart::interface::EnumDesc;
use uniffi_dart::interface::FfiTypeDesc;
use uniffi_dart::interface::FieldDesc;
use uniffi_dart::interface::FnDesc;
use uniffi_dart::interface::InterfaceDesc;
use uniffi_dart::interface::LiteralDesc;
use uniffi_dart::interface::ObjectDesc;
use uniffi_dart::interface::ObjectImplKind;
use uniffi_dart::interface::RadixDesc;
use uniffi_dart::interface::RecordDesc;
use uniffi_dart::interface::TypeDesc;
use uniffi_dart::interface::VariantDesc;
use uniffi_dart::naming::class_name;
use uniffi_dart::naming::enum_variant_name;
use uniffi_dart::naming::fn_name;
use uniffi_dart::naming::var_name;
use uniffi_dart::numerals::dec_i32;
use uniffi_dart::numerals::dec_i64;
use uniffi_dart::numerals::dec_u64;
use uniffi_dart::registry::resolve;
use uniffi_dart::registry::TypeRegistry;

#[test]
fn casing_follows_the_surface_conventions() {
    assert_eq!(class_name("my_enum"), "MyEnum");
    assert_eq!(class_name("HTTPError"), "HttpError");
    assert_eq!(var_name("some_field"), "someField");
    assert_eq!(fn_name("say_after"), "sayAfter");
    assert_eq!(enum_variant_name("dog_kind"), "DogKind");
}

#[test]
fn identities_are_structural() {
    let t = TypeDesc::Optional { inner: Box::new(TypeDesc::Int32) };
    let id = resolve(&t);
    assert_eq!(id.canonical_name, "OptionalInt32");
    assert_eq!(id.type_label, "int?");
    assert_eq!(id.converter_name, "FfiConverterOptionalInt32");

    let seq_ty = TypeDesc::Sequence { inner: Box::new(TypeDesc::Str) };
    let id2 = resolve(&seq_ty);
    assert_eq!(id2.canonical_name, "SequenceString");
    assert_eq!(id2.type_label, "List<String>");

    let map_ty = TypeDesc::MapOf {
        key: Box::new(TypeDesc::Str),
        value: Box::new(TypeDesc::UInt64),
    };
    let id3 = resolve(&map_ty);
    assert_eq!(id3.canonical_name, "MapStringUInt64");
    assert_eq!(id3.type_label, "Map<String, BigInt>");

    let enum_ty = TypeDesc::Enum { name: String::from("my_enum"), variants: vec![], flat: true };
    assert_eq!(resolve(&enum_ty).converter_name, "FfiConverterMyEnum");

    let cb = TypeDesc::Object {
        name: String::from("Watcher"),
        imp: ObjectImplKind::CallbackTrait,
    };
    assert_eq!(resolve(&cb).converter_name, "FfiConverterCallbackInterfaceWatcher");
    let obj = TypeDesc::Object { name: String::from("Watcher"), imp: ObjectImplKind::Struct };
    assert_eq!(resolve(&obj).converter_name, "Watcher");
}

#[test]
fn registry_records_each_name_once() {
    let mut reg = TypeRegistry::new();
    assert!(!reg.include_once_check("OptionalInt32"));
    assert!(reg.include_once_check("OptionalInt32"));
    assert!(reg.check("OptionalInt32"));
    assert!(!reg.check("SequenceString"));
    assert!(reg.register_once("SequenceString"));
    assert!(!reg.register_once("SequenceString"));
}

#[test]
fn codec_dispatch_fixes_widths_and_getters() {
    match generate_codec(&TypeDesc::UInt32).shape {
        CodecShape::FixedScalar { width, getter } => {
            assert_eq!(width, 4);
            assert_eq!(getter, "Uint32");
        },
        other => panic!("unexpected shape: {:?}", other),
    }
    match generate_codec(&TypeDesc::Float64).shape {
        CodecShape::FixedScalar { width, getter } => {
            assert_eq!(width, 8);
            assert_eq!(getter, "Float64");
        },
        other => panic!("unexpected shape: {:?}", other),
    }
    match generate_codec(&TypeDesc::Sequence { inner: Box::new(TypeDesc::Int8) }).shape {
        CodecShape::SequenceOf { inner } => assert_eq!(inner.converter_name, "FfiConverterInt8"),
        other => panic!("unexpected shape: {:?}", other),
    }
}

#[test]
fn codec_requests_deduplicate() {
    let mut reg = TypeRegistry::new();
    let mut out = Vec::new();
    let t = TypeDesc::Optional { inner: Box::new(TypeDesc::Int32) };
    request_codec(&t, &mut reg, &mut out);
    // The compound and its nested codec, once each.
    assert_eq!(out.len(), 2);
    assert_eq!(out[0].identity.canonical_name, "OptionalInt32");
    assert_eq!(out[1].identity.canonical_name, "Int32");
    let t2 = TypeDesc::Optional { inner: Box::new(TypeDesc::Int32) };
    request_codec(&t2, &mut reg, &mut out);
    assert_eq!(out.len(), 2);
}

#[test]
fn enum_model_numbers_variants_from_one() {
    let d = EnumDesc {
        name: String::from("animal_kind"),
        variants: vec![
            VariantDesc { name: String::from("dog"), fields: vec![] },
            VariantDesc {
                name: String::from("cat"),
                fields: vec![FieldDesc { name: String::from("lives"), ty: TypeDesc::UInt8 }],
            },
        ],
        flat: false,
    };
    let g = generate_enum(&d);
    assert_eq!(g.class_name, "AnimalKind");
    assert_eq!(g.converter_name, "FfiConverterAnimalKind");
    assert_eq!(g.variants.len(), 2);
    assert_eq!(g.variants[0].discriminant, 1);
    assert_eq!(g.variants[1].discriminant, 2);
    assert_eq!(g.variants[1].name, "Cat");
    assert_eq!(g.variants[1].class_name, "CatAnimalKind");
    assert_eq!(g.variants[1].fields[0].name, "lives");
    assert_eq!(g.variants[1].fields[0].converter_name, "FfiConverterUInt8");
}

#[test]
fn record_model_keeps_field_order() {
    let d = RecordDesc {
        name: String::from("my_record"),
        fields: vec![
            FieldDesc { name: String::from("first_one"), ty: TypeDesc::Str },
            FieldDesc { name: String::from("second_one"), ty: TypeDesc::Boolean },
        ],
    };
    let g = generate_record(&d);
    assert_eq!(g.class_name, "MyRecord");
    assert_eq!(g.converter_name, "FfiConverterMyRecord");
    assert_eq!(g.fields[0].name, "firstOne");
    assert_eq!(g.fields[0].converter_name, "FfiConverterString");
    assert_eq!(g.fields[1].name, "secondOne");
    assert_eq!(g.fields[1].type_label, "bool");
}

fn sample_fn() -> FnDesc {
    FnDesc {
        name: String::from("say_after"),
        ffi_name: String::from("uniffi_demo_fn_func_say_after"),
        args: vec![
            ArgDesc { name: String::from("ms"), ty: TypeDesc::UInt16 },
            ArgDesc { name: String::from("who"), ty: TypeDesc::Str },
        ],
        ret: Some(TypeDesc::Str),
        throws: Some(TypeDesc::Enum {
            name: String::from("basic_error"),
            variants: vec![VariantDesc { name: String::from("oops"), fields: vec![] }],
            flat: true,
        }),
        is_async: true,
        ffi_ret: Some(FfiTypeDesc::RustBuffer { inner: None }),
    }
}

#[test]
fn function_model_fixes_the_whole_call_sequence() {
    let g = generate_function(&sample_fn(), "demo");
    assert_eq!(g.dart_name, "sayAfter");
    assert_eq!(g.ffi_name, "uniffi_demo_fn_func_say_after");
    assert!(g.is_async);
    assert_eq!(g.args[0].name, "ms");
    assert_eq!(g.args[1].type_label, "String");
    assert_eq!(g.ret_label.as_deref(), Some("String"));
    assert_eq!(g.ret_converter.as_deref(), Some("FfiConverterString"));
    assert_eq!(g.error_handler.as_deref(), Some("basicErrorErrorHandler"));
    assert_eq!(g.future_poll.as_deref(), Some("ffi_demo_rust_future_poll_rust_buffer"));
    assert_eq!(g.future_complete.as_deref(), Some("ffi_demo_rust_future_complete_rust_buffer"));
    assert_eq!(g.future_free.as_deref(), Some("ffi_demo_rust_future_free_rust_buffer"));
}

#[test]
fn object_model_names_its_lifecycle_entry_points() {
    let d = ObjectDesc {
        name: String::from("megaphone"),
        imp: ObjectImplKind::Struct,
        constructors: vec![],
        methods: vec![FnDesc {
            name: String::from("say_now"),
            ffi_name: String::from("uniffi_demo_fn_method_megaphone_say_now"),
            args: vec![ArgDesc { name: String::from("who"), ty: TypeDesc::Str }],
            ret: Some(TypeDesc::Str),
            throws: None,
            is_async: false,
            ffi_ret: Some(FfiTypeDesc::RustBuffer { inner: None }),
        }],
        ffi_free_name: String::from("uniffi_demo_fn_free_megaphone"),
        ffi_clone_name: String::from("uniffi_demo_fn_clone_megaphone"),
    };
    let g = generate_object(&d, "demo");
    assert_eq!(g.class_name, "Megaphone");
    assert_eq!(g.finalizer_name, "MegaphoneFinalizer");
    assert_eq!(g.ffi_free_name, "uniffi_demo_fn_free_megaphone");
    assert_eq!(g.ffi_clone_name, "uniffi_demo_fn_clone_megaphone");
    assert!(!g.is_callback);
    assert_eq!(g.methods[0].dart_name, "sayNow");
    assert_eq!(g.methods[0].error_handler, None);
    assert_eq!(g.methods[0].future_poll, None);
}

#[test]
fn surface_and_ffi_types_follow_the_tables() {
    assert_eq!(generate_type(&TypeDesc::Int64), "int");
    assert_eq!(generate_type(&TypeDesc::Duration), "int");
    assert_eq!(
        generate_type(&TypeDesc::Optional { inner: Box::new(TypeDesc::Boolean) }),
        "bool?"
    );
    assert_eq!(
        generate_type(&TypeDesc::Sequence { inner: Box::new(TypeDesc::Float32) }),
        "List<double>"
    );
    assert_eq!(generate_ffi_type(None), "Void");
    assert_eq!(generate_ffi_type(Some(&FfiTypeDesc::Float32)), "Float");
    assert_eq!(generate_ffi_type(Some(&FfiTypeDesc::RustArcPtr)), "Pointer<Void>");
    assert_eq!(generate_ffi_dart_type(None), "void");
    assert_eq!(generate_ffi_dart_type(Some(&FfiTypeDesc::UInt64)), "int");
    assert_eq!(
        generate_ffi_dart_type(Some(&FfiTypeDesc::RustBuffer { inner: None })),
        "RustBuffer"
    );
}

#[test]
fn preamble_names_its_buffer_entry_points() {
    let p = runtime_preamble("demo");
    assert!(p.contains("ffi_demo_rustbuffer_from_bytes"));
    assert!(p.contains("ffi_demo_rustbuffer_alloc"));
    assert!(p.contains("ffi_demo_rustbuffer_free"));
    assert!(p.contains("const int CALL_SUCCESS = 0;"));
    assert!(p.contains("const int CALL_ERROR = 1;"));
    assert!(p.contains("const int CALL_PANIC = 2;"));
    assert!(p.contains("class UniffiInternalError"));
}

#[test]
fn whole_interface_render() {
    let ci = InterfaceDesc {
        namespace: String::from("demo"),
        records: vec![RecordDesc {
            name: String::from("point"),
            fields: vec![FieldDesc { name: String::from("x"), ty: TypeDesc::Int32 }],
        }],
        enums: vec![EnumDesc {
            name: String::from("color"),
            variants: vec![VariantDesc { name: String::from("red"), fields: vec![] }],
            flat: true,
        }],
        objects: vec![],
        functions: vec![sample_fn()],
    };
    let m = render(&ci);
    assert!(m.preamble.contains("ffi_demo_rustbuffer_alloc"));
    assert_eq!(m.records.len(), 1);
    assert_eq!(m.records[0].class_name, "Point");
    assert_eq!(m.enums[0].variants[0].discriminant, 1);
    assert_eq!(m.functions[0].dart_name, "sayAfter");
}

#[test]
fn literals_render_as_source_text() {
    assert_eq!(render_literal(&LiteralDesc::Boolean(true)), "true");
    assert_eq!(render_literal(&LiteralDesc::Str(String::from("hi"))), "\"hi\"");
    assert_eq!(
        render_literal(&LiteralDesc::Int(-42, RadixDesc::Decimal, TypeDesc::Int32)),
        "-42"
    );
    assert_eq!(
        render_literal(&LiteralDesc::Int(255, RadixDesc::Hexadecimal, TypeDesc::Int32)),
        "0xff"
    );
    assert_eq!(
        render_literal(&LiteralDesc::UInt(123, RadixDesc::Decimal, TypeDesc::UInt32)),
        "123"
    );
    assert_eq!(render_literal(&LiteralDesc::NullValue), "null");
    assert_eq!(render_literal(&LiteralDesc::EmptySequence), "[]");
    assert_eq!(render_literal(&LiteralDesc::EmptyMap), "{}");
    assert_eq!(render_literal(&LiteralDesc::EnumVariant(String::from("red_kind"))), "RedKind");
}

#[test]
fn numeral_images_are_exact() {
    assert_eq!(dec_u64(0), "0");
    assert_eq!(dec_u64(18446744073709551615), "18446744073709551615");
    assert_eq!(dec_i64(-9223372036854775808), "-9223372036854775808");
    assert_eq!(dec_i32(-1), "-1");
}

#[test]
fn collected_codecs_share_nothing() {
    // Two functions both mention Sequence(Int32); the walk emits its codec,
    // and Int32's, exactly once.
    let seq_i32 = || TypeDesc::Sequence { inner: Box::new(TypeDesc::Int32) };
    let f = |name: &str| FnDesc {
        name: String::from(name),
        ffi_name: format!("uniffi_demo_fn_func_{name}"),
        args: vec![ArgDesc { name: String::from("xs"), ty: seq_i32() }],
        ret: Some(seq_i32()),
        throws: None,
        is_async: false,
        ffi_ret: Some(FfiTypeDesc::RustBuffer { inner: None }),
    };
    let ci = InterfaceDesc {
        namespace: String::from("demo"),
        records: vec![],
        enums: vec![],
        objects: vec![],
        functions: vec![f("first"), f("second")],
    };
    let defs = collect_codecs(&ci);
    let names: Vec<&str> = defs.iter().map(|d| d.identity.canonical_name.as_str()).collect();
    assert_eq!(names, vec!["SequenceInt32", "Int32"]);
}
