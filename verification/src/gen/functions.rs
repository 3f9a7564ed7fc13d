//! The declaration model of a call: a free function, a method or a
//! constructor.
//!
//! Every decision of the call sequence is fixed here: the surface name,
//! the raw entry point, the argument slots in order, the return lifter,
//! the declared-error handler — distinct from the no-handler path of a
//! function with no declared error — and, for an asynchronous call, the
//! poll, complete and free entry points of the future protocol.

use vstd::prelude::*;
use vstd::string::StringExecFns;
use crate::gen::records::FieldGen;
use crate::interface::FfiTypeDesc;
use crate::interface::FnDesc;
use crate::interface::TypeDesc;
use crate::naming::class_name;
use crate::naming::fn_name;
use crate::naming::lower_camel_of;
use crate::naming::upper_camel_of;
use crate::naming::var_name;
use crate::registry::converter_name;
use crate::registry::converter_name_of;
use crate::registry::type_label;
use crate::registry::type_label_of;

verus! {

/// The declaration model of one call.
#[derive(Debug)]
pub struct MethodGen {
    pub dart_name: String,
    pub ffi_name: String,
    pub is_async: bool,
    pub args: Vec<FieldGen>,
    pub ret_label: Option<String>,
    pub ret_converter: Option<String>,
    pub error_handler: Option<String>,
    pub future_poll: Option<String>,
    pub future_complete: Option<String>,
    pub future_free: Option<String>,
}

/// The name a declared type surfaces under, for naming its error handler;
/// a structural type has none and falls back to the unknown-error name.
pub open spec fn type_name_of(t: TypeDesc) -> Option<Seq<char>> {
    match t {
        TypeDesc::Record { name, fields } => Some(name@),
        TypeDesc::Enum { name, variants, flat } => Some(name@),
        TypeDesc::Object { name, imp } => Some(name@),
        TypeDesc::Custom { name, underlying } => Some(name@),
        _ => None,
    }
}

/// The name of the handler that decodes a declared error type.
pub open spec fn error_handler_of(t: TypeDesc) -> Seq<char> {
    lower_camel_of(
        upper_camel_of(
            match type_name_of(t) {
                Some(n) => n,
                None => "UnknownError"@,
            },
        ),
    ) + "ErrorHandler"@
}

/// The suffix that selects the future entry points for a raw ABI return
/// slot.
pub open spec fn ffi_suffix_of(t: Option<FfiTypeDesc>) -> Seq<char> {
    match t {
        None => "void"@,
        Some(FfiTypeDesc::UInt8) => "u8"@,
        Some(FfiTypeDesc::UInt16) => "u16"@,
        Some(FfiTypeDesc::UInt32) => "u32"@,
        Some(FfiTypeDesc::UInt64) => "u64"@,
        Some(FfiTypeDesc::Int8) => "i8"@,
        Some(FfiTypeDesc::Int16) => "i16"@,
        Some(FfiTypeDesc::Int32) => "i32"@,
        Some(FfiTypeDesc::Int64) => "i64"@,
        Some(FfiTypeDesc::Float32) => "f32"@,
        Some(FfiTypeDesc::Float64) => "f64"@,
        Some(FfiTypeDesc::RustBuffer { inner }) => "rust_buffer"@,
        Some(FfiTypeDesc::RustArcPtr) => "pointer"@,
    }
}

/// The name of a future protocol entry point: the namespace and the kind of
/// step, suffixed by the raw return slot it carries.
pub open spec fn future_entry_of(ns: Seq<char>, step: Seq<char>, suffix: Seq<char>) -> Seq<char> {
    "ffi_"@ + ns + "_rust_future_"@ + step + "_"@ + suffix
}

/// The suffix text for a raw ABI return slot.
fn ffi_suffix(t: Option<&FfiTypeDesc>) -> (r: &'static str)
    ensures
        r@ == ffi_suffix_of(match t {
            Some(x) => Some(*x),
            None => None,
        }),
{
    match t {
        None => "void",
        Some(FfiTypeDesc::UInt8) => "u8",
        Some(FfiTypeDesc::UInt16) => "u16",
        Some(FfiTypeDesc::UInt32) => "u32",
        Some(FfiTypeDesc::UInt64) => "u64",
        Some(FfiTypeDesc::Int8) => "i8",
        Some(FfiTypeDesc::Int16) => "i16",
        Some(FfiTypeDesc::Int32) => "i32",
        Some(FfiTypeDesc::Int64) => "i64",
        Some(FfiTypeDesc::Float32) => "f32",
        Some(FfiTypeDesc::Float64) => "f64",
        Some(FfiTypeDesc::RustBuffer { inner }) => "rust_buffer",
        Some(FfiTypeDesc::RustArcPtr) => "pointer",
    }
}

/// One future protocol entry point name as text.
fn future_entry(ns: &str, step: &str, suffix: &str) -> (r: String)
    ensures
        r@ == future_entry_of(ns@, step@, suffix@),
{
    let mut s = String::from_str("ffi_");
    s.append(ns);
    s.append("_rust_future_");
    s.append(step);
    s.append("_");
    s.append(suffix);
    s
}

/// Whether a call model speaks for a call declaration within a namespace.
pub open spec fn method_gen_matches(g: MethodGen, d: FnDesc, ns: Seq<char>) -> bool {
    &&& g.dart_name@ == lower_camel_of(d.name@)
    &&& g.ffi_name@ == d.ffi_name@
    &&& g.is_async == d.is_async
    &&& g.args@.len() == d.args@.len()
    &&& forall|i: int|
        0 <= i < g.args@.len() ==> (#[trigger] g.args@[i]).name@ == lower_camel_of(
            d.args@[i].name@,
        ) && g.args@[i].type_label@ == type_label_of(d.args@[i].ty) && g.args@[i].converter_name@
            == converter_name_of(d.args@[i].ty)
    &&& (match d.ret {
        Some(t) => g.ret_label matches Some(l) && l@ == type_label_of(t) && (
        g.ret_converter matches Some(c) && c@ == converter_name_of(t)),
        None => g.ret_label is None && g.ret_converter is None,
    })
    &&& (match d.throws {
        Some(t) => g.error_handler matches Some(h) && h@ == error_handler_of(t),
        None => g.error_handler is None,
    })
    &&& (if d.is_async {
        (g.future_poll matches Some(p) && p@ == future_entry_of(
            ns,
            "poll"@,
            ffi_suffix_of(d.ffi_ret),
        )) && (g.future_complete matches Some(c) && c@ == future_entry_of(
            ns,
            "complete"@,
            ffi_suffix_of(d.ffi_ret),
        )) && (g.future_free matches Some(f) && f@ == future_entry_of(
            ns,
            "free"@,
            ffi_suffix_of(d.ffi_ret),
        ))
    } else {
        g.future_poll is None && g.future_complete is None && g.future_free is None
    })
}

/// The declaration model of one call.
#[verifier::loop_isolation(false)]
pub fn generate_function(d: &FnDesc, ns: &str) -> (r: MethodGen)
    ensures
        method_gen_matches(r, *d, ns@),
{
    let dart_name = fn_name(d.name.as_str());
    let mut args: Vec<FieldGen> = Vec::new();
    let mut i: usize = 0;
    while i < d.args.len()
        invariant
            i <= d.args@.len(),
            args@.len() == i,
            forall|k: int|
                0 <= k < i ==> (#[trigger] args@[k]).name@ == lower_camel_of(d.args@[k].name@)
                    && args@[k].type_label@ == type_label_of(d.args@[k].ty)
                    && args@[k].converter_name@ == converter_name_of(d.args@[k].ty),
        decreases d.args@.len() - i,
    {
        args.push(
            FieldGen {
                name: var_name(d.args[i].name.as_str()),
                type_label: type_label(&d.args[i].ty),
                converter_name: converter_name(&d.args[i].ty),
            },
        );
        i = i + 1;
    }
    let (ret_label, ret_converter) = match &d.ret {
        Some(t) => (Some(type_label(t)), Some(converter_name(t))),
        None => (None, None),
    };
    let error_handler = match &d.throws {
        Some(t) => Some(error_handler_text(t)),
        None => None,
    };
    let (future_poll, future_complete, future_free) = if d.is_async {
        let suffix = ffi_suffix(d.ffi_ret.as_ref());
        (
            Some(future_entry(ns, "poll", suffix)),
            Some(future_entry(ns, "complete", suffix)),
            Some(future_entry(ns, "free", suffix)),
        )
    } else {
        (None, None, None)
    };
    MethodGen {
        dart_name,
        ffi_name: d.ffi_name.clone(),
        is_async: d.is_async,
        args,
        ret_label,
        ret_converter,
        error_handler,
        future_poll,
        future_complete,
        future_free,
    }
}

/// The error-handler name for a declared error type, as text.
fn error_handler_text(t: &TypeDesc) -> (r: String)
    ensures
        r@ == error_handler_of(*t),
{
    let base = match t {
        TypeDesc::Record { name, fields } => class_name(name.as_str()),
        TypeDesc::Enum { name, variants, flat } => class_name(name.as_str()),
        TypeDesc::Object { name, imp } => class_name(name.as_str()),
        TypeDesc::Custom { name, underlying } => class_name(name.as_str()),
        _ => class_name("UnknownError"),
    };
    let mut h = var_name(base.as_str());
    h.append("ErrorHandler");
    h
}

} // verus!
