//! Table-driven codec dispatch: one strategy per type kind.
//!
//! `generate_codec` is an exhaustive match over the closed type set; each
//! arm fixes the codec's identity and the facts its emitted operations rely
//! on — the byte width and data getter of a fixed-width scalar, or the
//! identities of the nested codecs a compound delegates to.

use vstd::prelude::*;
use vstd::string::StringExecFns;
use crate::interface::FieldDesc;
use crate::interface::FnDesc;
use crate::interface::InterfaceDesc;
use crate::interface::ObjectImplKind;
use crate::interface::TypeDesc;
use crate::registry::canonical_name_of;
use crate::registry::converter_name_of;
use crate::registry::resolve;
use crate::registry::type_label_of;
use crate::registry::CodecIdentity;
use crate::registry::TypeRegistry;
use crate::value::conforms;
use crate::value::encoding;
use crate::value::SpecValue;

verus! {

/// How a type's codec does its work.
#[derive(Debug)]
pub enum CodecShape {
    /// A fixed-width scalar: its exact byte width and the positional data
    /// getter that reads it.
    FixedScalar { width: u8, getter: String },
    /// The one-byte boolean codec.
    BoolCodec,
    /// The length-prefixed text codec.
    StringCodec,
    /// The length-prefixed raw-byte codec.
    BytesCodec,
    /// The seconds-and-nanoseconds codec.
    DurationCodec,
    /// A tag byte, then the nested codec when present.
    OptionalOf { inner: CodecIdentity },
    /// A count, then the nested codec once per element.
    SequenceOf { inner: CodecIdentity },
    /// A count, then each key directly before its value.
    MapEntries { key: CodecIdentity, value: CodecIdentity },
    /// Fields in declaration order; the definition carries them.
    RecordDef,
    /// A discriminant, then the selected variant's fields.
    EnumDef,
    /// An opaque pointer handle, cloned on lowering.
    ObjectDef { callback: bool },
    /// A pure rename: everything delegates to the underlying codec.
    AliasOf { underlying: CodecIdentity },
}

/// One codec to emit: its identity and its strategy.
#[derive(Debug)]
pub struct CodecDefinition {
    pub identity: CodecIdentity,
    pub shape: CodecShape,
}

/// The byte width of a fixed-width scalar type.
pub open spec fn scalar_width_of(t: TypeDesc) -> int {
    match t {
        TypeDesc::Int8 | TypeDesc::UInt8 => 1,
        TypeDesc::Int16 | TypeDesc::UInt16 => 2,
        TypeDesc::Int32 | TypeDesc::UInt32 | TypeDesc::Float32 => 4,
        TypeDesc::Int64 | TypeDesc::UInt64 | TypeDesc::Float64 => 8,
        _ => 0,
    }
}

/// Whether a type is a fixed-width scalar.
pub open spec fn is_fixed_scalar(t: TypeDesc) -> bool {
    scalar_width_of(t) != 0
}

/// The positional data getter a fixed-width scalar reads with.
pub open spec fn scalar_getter_of(t: TypeDesc) -> Seq<char> {
    match t {
        TypeDesc::Int8 => "Int8"@,
        TypeDesc::UInt8 => "Uint8"@,
        TypeDesc::Int16 => "Int16"@,
        TypeDesc::UInt16 => "Uint16"@,
        TypeDesc::Int32 => "Int32"@,
        TypeDesc::UInt32 => "Uint32"@,
        TypeDesc::Int64 => "Int64"@,
        TypeDesc::UInt64 => "Uint64"@,
        TypeDesc::Float32 => "Float32"@,
        TypeDesc::Float64 => "Float64"@,
        _ => Seq::empty(),
    }
}

/// A fixed-width scalar's declared width is exactly the length of every
/// conforming value's wire image.
pub proof fn lemma_scalar_width_is_encoding_len(t: TypeDesc, v: SpecValue)
    requires
        is_fixed_scalar(t),
        conforms(v, t),
    ensures
        encoding(v).len() == scalar_width_of(t),
{
}

/// Whether a shape and a type belong together, nested identities included.
pub open spec fn shape_matches(shape: CodecShape, t: TypeDesc) -> bool {
    match t {
        TypeDesc::Boolean => shape is BoolCodec,
        TypeDesc::Str => shape is StringCodec,
        TypeDesc::Bytes => shape is BytesCodec,
        TypeDesc::Duration => shape is DurationCodec,
        TypeDesc::Optional { inner } => shape matches CodecShape::OptionalOf { inner: i }
            && i.converter_name@ == converter_name_of(*inner) && i.canonical_name@
            == canonical_name_of(*inner) && i.type_label@ == type_label_of(*inner),
        TypeDesc::Sequence { inner } => shape matches CodecShape::SequenceOf { inner: i }
            && i.converter_name@ == converter_name_of(*inner) && i.canonical_name@
            == canonical_name_of(*inner) && i.type_label@ == type_label_of(*inner),
        TypeDesc::MapOf { key, value } => shape matches CodecShape::MapEntries { key: k, value: v }
            && k.converter_name@ == converter_name_of(*key) && k.canonical_name@
            == canonical_name_of(*key) && k.type_label@ == type_label_of(*key)
            && v.converter_name@ == converter_name_of(*value) && v.canonical_name@
            == canonical_name_of(*value) && v.type_label@ == type_label_of(*value),
        TypeDesc::Record { .. } => shape is RecordDef,
        TypeDesc::Enum { .. } => shape is EnumDef,
        TypeDesc::Object { name, imp } => shape matches CodecShape::ObjectDef { callback }
            && callback == (imp == ObjectImplKind::CallbackTrait),
        TypeDesc::Custom { name, underlying } => shape matches CodecShape::AliasOf {
            underlying: u,
        } && u.converter_name@ == converter_name_of(*underlying) && u.canonical_name@
            == canonical_name_of(*underlying) && u.type_label@ == type_label_of(*underlying),
        _ => shape matches CodecShape::FixedScalar { width, getter } && width == scalar_width_of(
            t,
        ) && getter@ == scalar_getter_of(t),
    }
}

/// The codec to emit for one type: an exhaustive dispatch over the closed
/// type set, so no kind can drift out of sync with the others.
pub fn generate_codec(t: &TypeDesc) -> (r: CodecDefinition)
    ensures
        r.identity.type_label@ == type_label_of(*t),
        r.identity.canonical_name@ == canonical_name_of(*t),
        r.identity.converter_name@ == converter_name_of(*t),
        shape_matches(r.shape, *t),
{
    let identity = resolve(t);
    let shape = match t {
        TypeDesc::Boolean => CodecShape::BoolCodec,
        TypeDesc::Int8 => CodecShape::FixedScalar { width: 1, getter: String::from_str("Int8") },
        TypeDesc::UInt8 => CodecShape::FixedScalar { width: 1, getter: String::from_str("Uint8") },
        TypeDesc::Int16 => CodecShape::FixedScalar { width: 2, getter: String::from_str("Int16") },
        TypeDesc::UInt16 => CodecShape::FixedScalar {
            width: 2,
            getter: String::from_str("Uint16"),
        },
        TypeDesc::Int32 => CodecShape::FixedScalar { width: 4, getter: String::from_str("Int32") },
        TypeDesc::UInt32 => CodecShape::FixedScalar {
            width: 4,
            getter: String::from_str("Uint32"),
        },
        TypeDesc::Int64 => CodecShape::FixedScalar { width: 8, getter: String::from_str("Int64") },
        TypeDesc::UInt64 => CodecShape::FixedScalar {
            width: 8,
            getter: String::from_str("Uint64"),
        },
        TypeDesc::Float32 => CodecShape::FixedScalar {
            width: 4,
            getter: String::from_str("Float32"),
        },
        TypeDesc::Float64 => CodecShape::FixedScalar {
            width: 8,
            getter: String::from_str("Float64"),
        },
        TypeDesc::Str => CodecShape::StringCodec,
        TypeDesc::Bytes => CodecShape::BytesCodec,
        TypeDesc::Duration => CodecShape::DurationCodec,
        TypeDesc::Optional { inner } => CodecShape::OptionalOf { inner: resolve(inner) },
        TypeDesc::Sequence { inner } => CodecShape::SequenceOf { inner: resolve(inner) },
        TypeDesc::MapOf { key, value } => CodecShape::MapEntries {
            key: resolve(key),
            value: resolve(value),
        },
        TypeDesc::Record { .. } => CodecShape::RecordDef,
        TypeDesc::Enum { .. } => CodecShape::EnumDef,
        TypeDesc::Object { name, imp } => CodecShape::ObjectDef {
            callback: *imp == ObjectImplKind::CallbackTrait,
        },
        TypeDesc::Custom { name, underlying } => CodecShape::AliasOf {
            underlying: resolve(underlying),
        },
    };
    CodecDefinition { identity, shape }
}

/// The canonical name a definition is emitted under.
pub open spec fn def_name(d: CodecDefinition) -> Seq<char> {
    d.identity.canonical_name@
}

/// Request the codec for a type during a walk of the interface: emit its
/// definition exactly once per canonical name, then request the codecs it
/// nests.  Named definitions are recorded but emitted from their own
/// declarations.  Every definition this appends was unrecorded before the
/// request and is recorded after it, so no two appended definitions share a
/// canonical name.
#[verifier::loop_isolation(false)]
pub fn request_codec(t: &TypeDesc, reg: &mut TypeRegistry, out: &mut Vec<CodecDefinition>)
    ensures
        final(reg).recorded(canonical_name_of(*t)),
        forall|s: Seq<char>| old(reg).recorded(s) ==> #[trigger] final(reg).recorded(s),
        final(out)@.len() >= old(out)@.len(),
        forall|k: int|
            0 <= k < old(out)@.len() ==> final(out)@[k] == old(out)@[k],
        !old(reg).recorded(canonical_name_of(*t)) ==> final(out)@.len() > old(out)@.len()
            && (final(out)@[old(out)@.len() as int]).identity.canonical_name@
            == canonical_name_of(*t),
        forall|k: int|
            old(out)@.len() <= k < final(out)@.len() ==> !old(reg).recorded(
                def_name(#[trigger] final(out)@[k]),
            ) && final(reg).recorded(def_name(final(out)@[k])),
        forall|k1: int, k2: int|
            old(out)@.len() <= k1 < k2 < final(out)@.len() ==> def_name(#[trigger] final(out)@[k1])
                != def_name(#[trigger] final(out)@[k2]),
    decreases *t,
{
    let name = crate::registry::canonical_name(t);
    let fresh = reg.register_once(name.as_str());
    if fresh {
        out.push(generate_codec(t));
        match t {
            TypeDesc::Optional { inner } => {
                request_codec(inner, reg, out);
            },
            TypeDesc::Sequence { inner } => {
                request_codec(inner, reg, out);
            },
            TypeDesc::MapOf { key, value } => {
                request_codec(key, reg, out);
                request_codec(value, reg, out);
            },
            TypeDesc::Custom { name, underlying } => {
                request_codec(underlying, reg, out);
            },
            _ => {},
        }
    }
}


/// Request the codecs of every type one call mentions: its argument types,
/// its return type, and its declared error type.
#[verifier::loop_isolation(false)]
pub fn request_call_codecs(d: &FnDesc, reg: &mut TypeRegistry, out: &mut Vec<CodecDefinition>)
    ensures
        forall|s: Seq<char>| old(reg).recorded(s) ==> #[trigger] final(reg).recorded(s),
        final(out)@.len() >= old(out)@.len(),
        forall|k: int| 0 <= k < old(out)@.len() ==> final(out)@[k] == old(out)@[k],
        forall|k: int|
            old(out)@.len() <= k < final(out)@.len() ==> !old(reg).recorded(
                def_name(#[trigger] final(out)@[k]),
            ) && final(reg).recorded(def_name(final(out)@[k])),
        forall|k1: int, k2: int|
            old(out)@.len() <= k1 < k2 < final(out)@.len() ==> def_name(#[trigger] final(out)@[k1])
                != def_name(#[trigger] final(out)@[k2]),
{
    let mut i: usize = 0;
    while i < d.args.len()
        invariant
            i <= d.args@.len(),
            forall|s: Seq<char>| old(reg).recorded(s) ==> #[trigger] reg.recorded(s),
            out@.len() >= old(out)@.len(),
            forall|k: int| 0 <= k < old(out)@.len() ==> out@[k] == old(out)@[k],
            forall|k: int|
                old(out)@.len() <= k < out@.len() ==> !old(reg).recorded(
                    def_name(#[trigger] out@[k]),
                ) && reg.recorded(def_name(out@[k])),
            forall|k1: int, k2: int|
                old(out)@.len() <= k1 < k2 < out@.len() ==> def_name(#[trigger] out@[k1])
                    != def_name(#[trigger] out@[k2]),
        decreases d.args@.len() - i,
    {
        request_codec(&d.args[i].ty, reg, out);
        i = i + 1;
    }
    match &d.ret {
        Some(t) => {
            request_codec(t, reg, out);
        },
        None => {},
    }
    match &d.throws {
        Some(t) => {
            request_codec(t, reg, out);
        },
        None => {},
    }
}

/// Request the codecs of every field type in a run of fields.
#[verifier::loop_isolation(false)]
pub fn request_field_codecs(
    fs: &Vec<FieldDesc>,
    reg: &mut TypeRegistry,
    out: &mut Vec<CodecDefinition>,
)
    ensures
        forall|s: Seq<char>| old(reg).recorded(s) ==> #[trigger] final(reg).recorded(s),
        final(out)@.len() >= old(out)@.len(),
        forall|k: int| 0 <= k < old(out)@.len() ==> final(out)@[k] == old(out)@[k],
        forall|k: int|
            old(out)@.len() <= k < final(out)@.len() ==> !old(reg).recorded(
                def_name(#[trigger] final(out)@[k]),
            ) && final(reg).recorded(def_name(final(out)@[k])),
        forall|k1: int, k2: int|
            old(out)@.len() <= k1 < k2 < final(out)@.len() ==> def_name(#[trigger] final(out)@[k1])
                != def_name(#[trigger] final(out)@[k2]),
{
    let mut i: usize = 0;
    while i < fs.len()
        invariant
            i <= fs@.len(),
            forall|s: Seq<char>| old(reg).recorded(s) ==> #[trigger] reg.recorded(s),
            out@.len() >= old(out)@.len(),
            forall|k: int| 0 <= k < old(out)@.len() ==> out@[k] == old(out)@[k],
            forall|k: int|
                old(out)@.len() <= k < out@.len() ==> !old(reg).recorded(
                    def_name(#[trigger] out@[k]),
                ) && reg.recorded(def_name(out@[k])),
            forall|k1: int, k2: int|
                old(out)@.len() <= k1 < k2 < out@.len() ==> def_name(#[trigger] out@[k1])
                    != def_name(#[trigger] out@[k2]),
        decreases fs@.len() - i,
    {
        request_codec(&fs[i].ty, reg, out);
        i = i + 1;
    }
}

/// Every codec one generation run needs, walking the whole interface: the
/// registry enforces exactly one definition per canonical name, so no two
/// collected definitions collide.
#[verifier::loop_isolation(false)]
pub fn collect_codecs(ci: &InterfaceDesc) -> (r: Vec<CodecDefinition>)
    ensures
        forall|k1: int, k2: int|
            0 <= k1 < k2 < r@.len() ==> def_name(#[trigger] r@[k1]) != def_name(
                #[trigger] r@[k2],
            ),
{
    let mut reg = TypeRegistry::new();
    let mut out: Vec<CodecDefinition> = Vec::new();
    let mut i: usize = 0;
    while i < ci.records.len()
        invariant
            forall|k: int|
                0 <= k < out@.len() ==> reg.recorded(def_name(#[trigger] out@[k])),
            forall|k1: int, k2: int|
                0 <= k1 < k2 < out@.len() ==> def_name(#[trigger] out@[k1]) != def_name(
                    #[trigger] out@[k2],
                ),
        decreases ci.records@.len() - i,
    {
        request_field_codecs(&ci.records[i].fields, &mut reg, &mut out);
        i = i + 1;
    }
    let mut j: usize = 0;
    while j < ci.enums.len()
        invariant
            forall|k: int|
                0 <= k < out@.len() ==> reg.recorded(def_name(#[trigger] out@[k])),
            forall|k1: int, k2: int|
                0 <= k1 < k2 < out@.len() ==> def_name(#[trigger] out@[k1]) != def_name(
                    #[trigger] out@[k2],
                ),
        decreases ci.enums@.len() - j,
    {
        let mut v: usize = 0;
        while v < ci.enums[j].variants.len()
            invariant
                j < ci.enums@.len(),
                forall|k: int|
                    0 <= k < out@.len() ==> reg.recorded(def_name(#[trigger] out@[k])),
                forall|k1: int, k2: int|
                    0 <= k1 < k2 < out@.len() ==> def_name(#[trigger] out@[k1]) != def_name(
                        #[trigger] out@[k2],
                    ),
            decreases ci.enums@[j as int].variants@.len() - v,
        {
            request_field_codecs(&ci.enums[j].variants[v].fields, &mut reg, &mut out);
            v = v + 1;
        }
        j = j + 1;
    }
    let mut o: usize = 0;
    while o < ci.objects.len()
        invariant
            forall|k: int|
                0 <= k < out@.len() ==> reg.recorded(def_name(#[trigger] out@[k])),
            forall|k1: int, k2: int|
                0 <= k1 < k2 < out@.len() ==> def_name(#[trigger] out@[k1]) != def_name(
                    #[trigger] out@[k2],
                ),
        decreases ci.objects@.len() - o,
    {
        let mut c: usize = 0;
        while c < ci.objects[o].constructors.len()
            invariant
                o < ci.objects@.len(),
                forall|k: int|
                    0 <= k < out@.len() ==> reg.recorded(def_name(#[trigger] out@[k])),
                forall|k1: int, k2: int|
                    0 <= k1 < k2 < out@.len() ==> def_name(#[trigger] out@[k1]) != def_name(
                        #[trigger] out@[k2],
                    ),
            decreases ci.objects@[o as int].constructors@.len() - c,
        {
            request_call_codecs(&ci.objects[o].constructors[c], &mut reg, &mut out);
            c = c + 1;
        }
        let mut m: usize = 0;
        while m < ci.objects[o].methods.len()
            invariant
                o < ci.objects@.len(),
                forall|k: int|
                    0 <= k < out@.len() ==> reg.recorded(def_name(#[trigger] out@[k])),
                forall|k1: int, k2: int|
                    0 <= k1 < k2 < out@.len() ==> def_name(#[trigger] out@[k1]) != def_name(
                        #[trigger] out@[k2],
                    ),
            decreases ci.objects@[o as int].methods@.len() - m,
        {
            request_call_codecs(&ci.objects[o].methods[m], &mut reg, &mut out);
            m = m + 1;
        }
        o = o + 1;
    }
    let mut f: usize = 0;
    while f < ci.functions.len()
        invariant
            forall|k: int|
                0 <= k < out@.len() ==> reg.recorded(def_name(#[trigger] out@[k])),
            forall|k1: int, k2: int|
                0 <= k1 < k2 < out@.len() ==> def_name(#[trigger] out@[k1]) != def_name(
                    #[trigger] out@[k2],
                ),
        decreases ci.functions@.len() - f,
    {
        request_call_codecs(&ci.functions[f], &mut reg, &mut out);
        f = f + 1;
    }
    out
}

} // verus!
