//! The in-memory model of a native library's public interface.
//!
//! The interface model is produced by an external parsing step and consumed
//! read-only here.  `TypeDesc` is the closed, recursively defined set of
//! types a declaration can mention; records and enums carry their full
//! definitions, so the type graph is acyclic by construction (object graphs
//! cross the boundary as opaque handles, never inline).

use vstd::prelude::*;

verus! {

/// How an object type is implemented on the native side: a plain struct
/// behind a reference-counted pointer, or a callback trait whose methods the
/// host language implements.
#[derive(Clone, Copy, Debug, PartialEq, Eq, Structural)]
pub enum ObjectImplKind {
    Struct,
    CallbackTrait,
}

/// A type in the interface model.
#[derive(Debug)]
pub enum TypeDesc {
    Boolean,
    Int8,
    Int16,
    Int32,
    Int64,
    UInt8,
    UInt16,
    UInt32,
    UInt64,
    Float32,
    Float64,
    Str,
    Bytes,
    Duration,
    Optional { inner: Box<TypeDesc> },
    Sequence { inner: Box<TypeDesc> },
    MapOf { key: Box<TypeDesc>, value: Box<TypeDesc> },
    Record { name: String, fields: Vec<FieldDesc> },
    Enum { name: String, variants: Vec<VariantDesc>, flat: bool },
    Object { name: String, imp: ObjectImplKind },
    Custom { name: String, underlying: Box<TypeDesc> },
}

/// A named field of a record or of an enum variant.  Order is significant:
/// it is encoding order.
#[derive(Debug)]
pub struct FieldDesc {
    pub name: String,
    pub ty: TypeDesc,
}

/// A declared variant of an enum.  The discriminant on the wire is the
/// 0-based declaration index plus one.
#[derive(Debug)]
pub struct VariantDesc {
    pub name: String,
    pub fields: Vec<FieldDesc>,
}

impl TypeDesc {
    /// Whether this is one of the fixed-width or buffer primitives, with no
    /// nested type inside.
    pub open spec fn is_primitive(self) -> bool {
        match self {
            TypeDesc::Boolean
            | TypeDesc::Int8
            | TypeDesc::Int16
            | TypeDesc::Int32
            | TypeDesc::Int64
            | TypeDesc::UInt8
            | TypeDesc::UInt16
            | TypeDesc::UInt32
            | TypeDesc::UInt64
            | TypeDesc::Float32
            | TypeDesc::Float64
            | TypeDesc::Str
            | TypeDesc::Bytes
            | TypeDesc::Duration => true,
            _ => false,
        }
    }
}

/// The scalar slots of a raw ABI signature.  These are owned by the external
/// interface-parsing step; the core only consumes them when it emits the
/// low-level call signatures.
#[derive(Debug)]
pub enum FfiTypeDesc {
    UInt8,
    UInt16,
    UInt32,
    UInt64,
    Int8,
    Int16,
    Int32,
    Int64,
    Float32,
    Float64,
    RustBuffer { inner: Option<String> },
    RustArcPtr,
}

/// A named argument of a function, method or constructor.
#[derive(Debug)]
pub struct ArgDesc {
    pub name: String,
    pub ty: TypeDesc,
}

/// A free function, method or constructor of the interface.  `ffi_name` is
/// the raw native entry point; `ffi_ret` is the raw ABI return slot.
#[derive(Debug)]
pub struct FnDesc {
    pub name: String,
    pub ffi_name: String,
    pub args: Vec<ArgDesc>,
    pub ret: Option<TypeDesc>,
    pub throws: Option<TypeDesc>,
    pub is_async: bool,
    pub ffi_ret: Option<FfiTypeDesc>,
}

/// A record definition.
#[derive(Debug)]
pub struct RecordDesc {
    pub name: String,
    pub fields: Vec<FieldDesc>,
}

/// An enum definition.  `flat` means every variant carries no payload.
#[derive(Debug)]
pub struct EnumDesc {
    pub name: String,
    pub variants: Vec<VariantDesc>,
    pub flat: bool,
}

/// An object definition, with the native entry points that free and clone
/// its reference-counted pointer.
#[derive(Debug)]
pub struct ObjectDesc {
    pub name: String,
    pub imp: ObjectImplKind,
    pub constructors: Vec<FnDesc>,
    pub methods: Vec<FnDesc>,
    pub ffi_free_name: String,
    pub ffi_clone_name: String,
}

/// A whole interface: the unit one generation run works on.
#[derive(Debug)]
pub struct InterfaceDesc {
    pub namespace: String,
    pub records: Vec<RecordDesc>,
    pub enums: Vec<EnumDesc>,
    pub objects: Vec<ObjectDesc>,
    pub functions: Vec<FnDesc>,
}

/// The base a numeric default literal was written in.
#[derive(Clone, Copy, Debug, PartialEq, Eq, Structural)]
pub enum RadixDesc {
    Octal,
    Decimal,
    Hexadecimal,
}

/// A default literal attached to a field or argument.
#[derive(Debug)]
pub enum LiteralDesc {
    Boolean(bool),
    Str(String),
    Int(i64, RadixDesc, TypeDesc),
    UInt(u64, RadixDesc, TypeDesc),
    Float(String, TypeDesc),
    EnumVariant(String),
    NullValue,
    EmptySequence,
    EmptyMap,
}

} // verus!
