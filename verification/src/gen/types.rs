//! Surface type text, raw ABI type text, the fixed runtime preamble, and
//! the whole-interface render.

use vstd::prelude::*;
use vstd::string::StringExecFns;
use crate::gen::enums::enum_gen_matches;
use crate::gen::enums::generate_enum;
use crate::gen::enums::EnumGen;
use crate::gen::functions::generate_function;
use crate::gen::functions::method_gen_matches;
use crate::gen::functions::MethodGen;
use crate::gen::objects::generate_object;
use crate::gen::objects::object_gen_matches;
use crate::gen::objects::ObjectGen;
use crate::gen::records::generate_record;
use crate::gen::records::record_gen_matches;
use crate::gen::records::RecordGen;
use crate::interface::FfiTypeDesc;
use crate::interface::InterfaceDesc;
use crate::interface::TypeDesc;

verus! {

/// Whether the plain surface type of a value can be written down directly:
/// scalars, strings, objects, enums, and optionals and lists of these.
pub open spec fn dart_type_ok(t: TypeDesc) -> bool
    decreases t,
{
    match t {
        TypeDesc::Boolean | TypeDesc::Int8 | TypeDesc::Int16 | TypeDesc::Int32 | TypeDesc::Int64
            | TypeDesc::UInt8 | TypeDesc::UInt16 | TypeDesc::UInt32 | TypeDesc::UInt64
            | TypeDesc::Float32 | TypeDesc::Float64 | TypeDesc::Duration | TypeDesc::Str => true,
        TypeDesc::Object { .. } => true,
        TypeDesc::Enum { .. } => true,
        TypeDesc::Optional { inner } => dart_type_ok(*inner),
        TypeDesc::Sequence { inner } => dart_type_ok(*inner),
        _ => false,
    }
}

/// The plain surface type of a value: integers of every width share `int`,
/// floats share `double`, and named types surface under their declared
/// name.
pub open spec fn dart_type_text(t: TypeDesc) -> Seq<char>
    decreases t,
{
    match t {
        TypeDesc::Boolean => "bool"@,
        TypeDesc::Int8 | TypeDesc::Int16 | TypeDesc::Int32 | TypeDesc::Int64 | TypeDesc::UInt8
            | TypeDesc::UInt16 | TypeDesc::UInt32 | TypeDesc::UInt64 | TypeDesc::Duration => "int"@,
        TypeDesc::Float32 | TypeDesc::Float64 => "double"@,
        TypeDesc::Str => "String"@,
        TypeDesc::Object { name, imp } => name@,
        TypeDesc::Enum { name, variants, flat } => name@,
        TypeDesc::Optional { inner } => dart_type_text(*inner) + "?"@,
        TypeDesc::Sequence { inner } => "List<"@ + dart_type_text(*inner) + ">"@,
        _ => Seq::empty(),
    }
}

/// The plain surface type of a value, as text.
pub fn generate_type(t: &TypeDesc) -> (r: String)
    requires
        dart_type_ok(*t),
    ensures
        r@ == dart_type_text(*t),
    decreases *t,
{
    match t {
        TypeDesc::Boolean => String::from_str("bool"),
        TypeDesc::Int8 | TypeDesc::Int16 | TypeDesc::Int32 | TypeDesc::Int64 | TypeDesc::UInt8
            | TypeDesc::UInt16 | TypeDesc::UInt32 | TypeDesc::UInt64 | TypeDesc::Duration => String::from_str(
            "int",
        ),
        TypeDesc::Float32 | TypeDesc::Float64 => String::from_str("double"),
        TypeDesc::Str => String::from_str("String"),
        TypeDesc::Object { name, imp } => name.clone(),
        TypeDesc::Enum { name, variants, flat } => name.clone(),
        TypeDesc::Optional { inner } => {
            let mut s = generate_type(inner);
            s.append("?");
            s
        },
        TypeDesc::Sequence { inner } => {
            let mut s = String::from_str("List<");
            let i = generate_type(inner);
            s.append(i.as_str());
            s.append(">");
            s
        },
        _ => String::new(),
    }
}

/// The native-side type of a raw ABI slot, `Void` when there is none.
pub open spec fn ffi_native_text(t: Option<FfiTypeDesc>) -> Seq<char> {
    match t {
        None => "Void"@,
        Some(FfiTypeDesc::UInt8) => "Uint8"@,
        Some(FfiTypeDesc::UInt16) => "Uint16"@,
        Some(FfiTypeDesc::UInt32) => "Uint32"@,
        Some(FfiTypeDesc::UInt64) => "Uint64"@,
        Some(FfiTypeDesc::Int8) => "Int8"@,
        Some(FfiTypeDesc::Int16) => "Int16"@,
        Some(FfiTypeDesc::Int32) => "Int32"@,
        Some(FfiTypeDesc::Int64) => "Int64"@,
        Some(FfiTypeDesc::Float32) => "Float"@,
        Some(FfiTypeDesc::Float64) => "Double"@,
        Some(FfiTypeDesc::RustBuffer { inner }) => match inner {
            Some(i) => i@,
            None => "RustBuffer"@,
        },
        Some(FfiTypeDesc::RustArcPtr) => "Pointer<Void>"@,
    }
}

/// The native-side type of a raw ABI slot, as text.
pub fn generate_ffi_type(ret: Option<&FfiTypeDesc>) -> (r: String)
    ensures
        r@ == ffi_native_text(match ret {
            Some(t) => Some(*t),
            None => None,
        }),
{
    match ret {
        None => String::from_str("Void"),
        Some(FfiTypeDesc::UInt8) => String::from_str("Uint8"),
        Some(FfiTypeDesc::UInt16) => String::from_str("Uint16"),
        Some(FfiTypeDesc::UInt32) => String::from_str("Uint32"),
        Some(FfiTypeDesc::UInt64) => String::from_str("Uint64"),
        Some(FfiTypeDesc::Int8) => String::from_str("Int8"),
        Some(FfiTypeDesc::Int16) => String::from_str("Int16"),
        Some(FfiTypeDesc::Int32) => String::from_str("Int32"),
        Some(FfiTypeDesc::Int64) => String::from_str("Int64"),
        Some(FfiTypeDesc::Float32) => String::from_str("Float"),
        Some(FfiTypeDesc::Float64) => String::from_str("Double"),
        Some(FfiTypeDesc::RustBuffer { inner }) => match inner {
            Some(i) => i.clone(),
            None => String::from_str("RustBuffer"),
        },
        Some(FfiTypeDesc::RustArcPtr) => String::from_str("Pointer<Void>"),
    }
}

/// The host-side type of a raw ABI slot, `void` when there is none.
pub open spec fn ffi_dart_text(t: Option<FfiTypeDesc>) -> Seq<char> {
    match t {
        None => "void"@,
        Some(FfiTypeDesc::UInt8) | Some(FfiTypeDesc::UInt16) | Some(FfiTypeDesc::UInt32)
            | Some(FfiTypeDesc::UInt64) | Some(FfiTypeDesc::Int8) | Some(FfiTypeDesc::Int16)
            | Some(FfiTypeDesc::Int32) | Some(FfiTypeDesc::Int64) => "int"@,
        Some(FfiTypeDesc::Float32) | Some(FfiTypeDesc::Float64) => "double"@,
        Some(FfiTypeDesc::RustBuffer { inner }) => match inner {
            Some(i) => i@,
            None => "RustBuffer"@,
        },
        Some(FfiTypeDesc::RustArcPtr) => "Pointer<Void>"@,
    }
}

/// The host-side type of a raw ABI slot, as text.
pub fn generate_ffi_dart_type(ret: Option<&FfiTypeDesc>) -> (r: String)
    ensures
        r@ == ffi_dart_text(match ret {
            Some(t) => Some(*t),
            None => None,
        }),
{
    match ret {
        None => String::from_str("void"),
        Some(FfiTypeDesc::UInt8) | Some(FfiTypeDesc::UInt16) | Some(FfiTypeDesc::UInt32)
            | Some(FfiTypeDesc::UInt64) | Some(FfiTypeDesc::Int8) | Some(FfiTypeDesc::Int16)
            | Some(FfiTypeDesc::Int32) | Some(FfiTypeDesc::Int64) => String::from_str("int"),
        Some(FfiTypeDesc::Float32) | Some(FfiTypeDesc::Float64) => String::from_str("double"),
        Some(FfiTypeDesc::RustBuffer { inner }) => match inner {
            Some(i) => i.clone(),
            None => String::from_str("RustBuffer"),
        },
        Some(FfiTypeDesc::RustArcPtr) => String::from_str("Pointer<Void>"),
    }
}

/// The whole declaration model of one generation run: the runtime preamble
/// and one model per record, enum, object and free function.
#[derive(Debug)]
pub struct ModuleGen {
    pub preamble: String,
    pub records: Vec<RecordGen>,
    pub enums: Vec<EnumGen>,
    pub objects: Vec<ObjectGen>,
    pub functions: Vec<MethodGen>,
}

/// Render one interface into its declaration model: the fixed runtime
/// preamble for its namespace, then one model per definition, in
/// declaration order.
#[verifier::loop_isolation(false)]
pub fn render(ci: &InterfaceDesc) -> (r: ModuleGen)
    requires
        forall|i: int|
            0 <= i < ci.enums@.len() ==> (#[trigger] ci.enums@[i]).variants@.len() <= 0x7fff_ffff,
    ensures
        r.preamble@ == crate::gen::runtime::preamble_text(ci.namespace@),
        r.records@.len() == ci.records@.len(),
        forall|i: int|
            0 <= i < r.records@.len() ==> record_gen_matches(#[trigger] r.records@[i], ci.records@[i]),
        r.enums@.len() == ci.enums@.len(),
        forall|i: int|
            0 <= i < r.enums@.len() ==> enum_gen_matches(#[trigger] r.enums@[i], ci.enums@[i]),
        r.objects@.len() == ci.objects@.len(),
        forall|i: int|
            0 <= i < r.objects@.len() ==> object_gen_matches(
                #[trigger] r.objects@[i],
                ci.objects@[i],
                ci.namespace@,
            ),
        r.functions@.len() == ci.functions@.len(),
        forall|i: int|
            0 <= i < r.functions@.len() ==> method_gen_matches(
                #[trigger] r.functions@[i],
                ci.functions@[i],
                ci.namespace@,
            ),
{
    let preamble = crate::gen::runtime::runtime_preamble(ci.namespace.as_str());
    let mut records: Vec<RecordGen> = Vec::new();
    let mut i: usize = 0;
    while i < ci.records.len()
        invariant
            i <= ci.records@.len(),
            records@.len() == i,
            forall|k: int|
                0 <= k < i ==> record_gen_matches(#[trigger] records@[k], ci.records@[k]),
        decreases ci.records@.len() - i,
    {
        records.push(generate_record(&ci.records[i]));
        i = i + 1;
    }
    let mut enums: Vec<EnumGen> = Vec::new();
    let mut j: usize = 0;
    while j < ci.enums.len()
        invariant
            j <= ci.enums@.len(),
            enums@.len() == j,
            forall|k: int| 0 <= k < j ==> enum_gen_matches(#[trigger] enums@[k], ci.enums@[k]),
        decreases ci.enums@.len() - j,
    {
        enums.push(generate_enum(&ci.enums[j]));
        j = j + 1;
    }
    let mut objects: Vec<ObjectGen> = Vec::new();
    let mut k: usize = 0;
    while k < ci.objects.len()
        invariant
            k <= ci.objects@.len(),
            objects@.len() == k,
            forall|m: int|
                0 <= m < k ==> object_gen_matches(
                    #[trigger] objects@[m],
                    ci.objects@[m],
                    ci.namespace@,
                ),
        decreases ci.objects@.len() - k,
    {
        objects.push(generate_object(&ci.objects[k], ci.namespace.as_str()));
        k = k + 1;
    }
    let mut functions: Vec<MethodGen> = Vec::new();
    let mut m: usize = 0;
    while m < ci.functions.len()
        invariant
            m <= ci.functions@.len(),
            functions@.len() == m,
            forall|n: int|
                0 <= n < m ==> method_gen_matches(
                    #[trigger] functions@[n],
                    ci.functions@[n],
                    ci.namespace@,
                ),
        decreases ci.functions@.len() - m,
    {
        functions.push(generate_function(&ci.functions[m], ci.namespace.as_str()));
        m = m + 1;
    }
    ModuleGen { preamble, records, enums, objects, functions }
}

} // verus!
