//! Checks of the sample native interfaces.

use uniffi_dart::fixtures::benchmarks::test_function;
use uniffi_dart::fixtures::benchmarks::TestData;
use uniffi_dart::fixtures::dart_async::always_ready;
use uniffi_dart::fixtures::dart_async::fallible_me;
use uniffi_dart::fixtures::dart_async::new_my_record;
use uniffi_dart::fixtures::dart_async::Megaphone;
use uniffi_dart::fixtures::dart_async::MyError;
use uniffi_dart::fixtures::enum_types::get_animal;
use uniffi_dart::fixtures::enum_types::get_animal_enum;
use uniffi_dart::fixtures::enum_types::Animal;
use uniffi_dart::fixtures::enum_types::AnimalEnum;
use uniffi_dart::fixtures::enum_types::AnimalLargeUInt;
use uniffi_dart::fixtures::enum_types::AnimalObject;
use uniffi_dart::fixtures::enum_types::AnimalRecord;
use uniffi_dart::fixtures::enum_types::AnimalSignedInt;
use uniffi_dart::fixtures::enum_types::AnimalUInt;
use uniffi_dart::fixtures::external_consumer::create_and_modify_external_record;
use uniffi_dart::fixtures::external_consumer::create_external_record_list;
use uniffi_dart::fixtures::external_consumer::cycle_external_enum;
use uniffi_dart::fixtures::external_consumer::find_external_record_by_value;
use uniffi_dart::fixtures::external_consumer::process_external_enum;
use uniffi_dart::fixtures::external_consumer::process_external_object;
use uniffi_dart::fixtures::external_consumer::process_external_record;
use uniffi_dart::fixtures::external_consumer::wrap_external_object;
use uniffi_dart::fixtures::external_provider::create_external_object;
use uniffi_dart::fixtures::external_provider::create_external_record;
use uniffi_dart::fixtures::external_provider::external_enum_to_int;
use uniffi_dart::fixtures::external_provider::external_object_get_name;
use uniffi_dart::fixtures::external_provider::external_record_to_string;
use uniffi_dart::fixtures::external_provider::get_external_enum;
use uniffi_dart::fixtures::external_provider::ExternalEnum;
use uniffi_dart::fixtures::large_enum::new_flat_three;
use uniffi_dart::fixtures::large_enum::take_flat_enum;
use uniffi_dart::fixtures::large_enum::FlatEnum;
use uniffi_dart::fixtures::large_error::LargeError;
use uniffi_dart::fixtures::metadata::get_metadata_struct;
use uniffi_dart::fixtures::metadata::MetadataObject;
use uniffi_dart::fixtures::proc_macro_api::always_fails;
use uniffi_dart::fixtures::proc_macro_api::make_one;
use uniffi_dart::fixtures::proc_macro_api::take_two;
use uniffi_dart::fixtures::proc_macro_api::BasicError;
use uniffi_dart::fixtures::proc_macro_api::Two;
use uniffi_dart::fixtures::simple_fns::add_to_set;
use uniffi_dart::fixtures::simple_fns::byte_to_u32;
use uniffi_dart::fixtures::simple_fns::get_int;
use uniffi_dart::fixtures::simple_fns::get_string;
use uniffi_dart::fixtures::simple_fns::new_set;
use uniffi_dart::fixtures::simple_fns::set_contains;
use uniffi_dart::fixtures::simple_fns::string_identity;
use uniffi_dart::fixtures::simple_iface::make_object;
use uniffi_dart::fixtures::simple_iface::Object;

#[test]
fn benchmark_calls_hand_back_their_field() {
    let data = TestData { foo: String::from("SomeStringData"), bar: String::from("SomeMore") };
    assert_eq!(test_function(10, 100, data), "SomeMore");
}

#[test]
fn megaphone_yells_immediately() {
    let m = Megaphone;
    assert_eq!(m.say_now(String::from("world")), "HELLO, WORLD!");
}

#[test]
fn fallible_call_resolves_both_ways() {
    assert_eq!(fallible_me(false), Ok(42));
    assert_eq!(fallible_me(true), Err(MyError::Foo));
    assert!(always_ready());
    let r = new_my_record(String::from("a"), 3);
    assert_eq!(r.a, "a");
    assert_eq!(r.b, 3);
}

#[test]
fn animal_variant_numbers() {
    assert_eq!(AnimalUInt::Dog.value(), 3);
    assert_eq!(AnimalUInt::Cat.value(), 4);
    assert_eq!(AnimalLargeUInt::Dog.value(), 4294967298);
    assert_eq!(AnimalLargeUInt::Cat.value(), 4294967299);
    assert_eq!(AnimalSignedInt::Dog.value(), -3);
    assert_eq!(AnimalSignedInt::Wombat.value(), 1);
}

#[test]
fn animal_payloads() {
    match get_animal_enum(Animal::Dog) {
        AnimalEnum::Dog(o) => assert_eq!(o.get_record(), AnimalRecord::new("dog")),
        other => panic!("unexpected: {:?}", other),
    }
    match get_animal_enum(Animal::Cat) {
        AnimalEnum::Cat(c) => assert_eq!(c.name(), "cat"),
        other => panic!("unexpected: {:?}", other),
    }
    assert_eq!(get_animal(None), Animal::Dog);
    assert_eq!(get_animal(Some(Animal::Cat)), Animal::Cat);
    let obj = AnimalObject::new("kia");
    assert_eq!(obj.get_record(), AnimalRecord::new("kia"));
}

#[test]
fn external_provider_calls() {
    let rec = create_external_record(String::from("n"), 5);
    assert_eq!(
        external_record_to_string(rec),
        "ExternalRecord{ name: n, value: 5, is_active: true }"
    );
    assert_eq!(external_enum_to_int(get_external_enum(0)), 0);
    assert_eq!(external_enum_to_int(get_external_enum(1)), 1);
    assert_eq!(external_enum_to_int(get_external_enum(7)), 2);
    let obj = create_external_object(String::from("gadget"));
    assert_eq!(external_object_get_name(&obj), "gadget");
    assert_eq!(obj.calculate(20), 41);
}

#[test]
fn external_consumer_calls() {
    let rec = create_and_modify_external_record(String::from("thing"), 1);
    assert_eq!(rec.name, "Modified: thing");
    assert_eq!(rec.value, 101);
    assert!(rec.is_active);
    assert_eq!(cycle_external_enum(ExternalEnum::Third), ExternalEnum::First);
    assert_eq!(process_external_enum(ExternalEnum::Second), 20);
    assert_eq!(
        process_external_record(create_external_record(String::from("r"), -7)),
        "Processing record 'r' with value -7 (active: true)"
    );
    let obj = create_external_object(String::from("o"));
    assert_eq!(
        process_external_object(&obj, 3),
        "Object 'o' calculated 7 with input 3"
    );
    let wrapped = wrap_external_object(obj, String::from("P"));
    assert_eq!(external_object_get_name(&wrapped), "P: o");
}

#[test]
fn external_record_lists() {
    let list = create_external_record_list(3);
    assert_eq!(list.len(), 3);
    assert_eq!(list[0].name, "Record 0");
    assert_eq!(list[2].name, "Record 2");
    assert!(list[0].is_active);
    assert!(!list[1].is_active);
    let hit = find_external_record_by_value(list, 1).expect("found");
    assert_eq!(hit.name, "Record 1");
    let list2 = create_external_record_list(2);
    assert!(find_external_record_by_value(list2, 9).is_none());
}

#[test]
fn flat_enum_texts() {
    assert_eq!(take_flat_enum(new_flat_three()), "Three");
    assert_eq!(take_flat_enum(FlatEnum::One), "One");
}

#[test]
fn large_error_codes() {
    assert_eq!(LargeError::Case1.discriminant(), 10001);
    assert_eq!(LargeError::Case2 { arg1: String::from("x") }.discriminant(), 10002);
    assert_eq!(
        LargeError::Case20 { arg1: 1, arg2: 2 }.discriminant(),
        10006
    );
}

#[test]
fn metadata_interface() {
    let m = get_metadata_struct();
    assert_eq!(m.name, "uniffi-dart");
    assert_eq!(m.version, 1);
    assert_eq!(m.features, vec![String::from("metadata"), String::from("testing")]);
    let obj = MetadataObject::new(String::from("core"));
    assert_eq!(obj.get_name(), "core");
    assert_eq!(obj.get_version(), 0);
    obj.set_version(9);
    assert_eq!(obj.get_version(), 0);
}

#[test]
fn attribute_interface() {
    assert_eq!(take_two(Two::new(String::from("hi"))), "hi");
    assert_eq!(always_fails(), Err(BasicError::OsError));
    let one = make_one(5);
    assert_eq!(one, make_one(5));
}

#[test]
fn simple_functions() {
    assert_eq!(get_string(), "String created by Rust");
    assert_eq!(get_int(), 1289);
    assert_eq!(string_identity(String::from("echo")), "echo");
    assert_eq!(byte_to_u32(255), 255);
}

#[test]
fn string_set_object() {
    let mut set = new_set();
    assert!(!set_contains(&set, String::from("a")));
    add_to_set(&mut set, String::from("a"));
    add_to_set(&mut set, String::from("a"));
    add_to_set(&mut set, String::from("b"));
    assert!(set_contains(&set, String::from("a")));
    assert!(set_contains(&set, String::from("b")));
    assert!(!set_contains(&set, String::from("c")));
}

#[test]
fn simple_interface_object() {
    let o = Object::new(41);
    assert_eq!(o.get_inner(), 41);
    assert!(o.some_method().is_none());
    let shared = make_object(7);
    assert_eq!(shared.get_inner(), 7);
}
