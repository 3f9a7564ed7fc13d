//! Host-side values and their wire encoding.
//!
//! `WireValue` is the executable model of a value that crosses the boundary;
//! `SpecValue` is its mathematical image, and `encoding` gives the exact byte
//! sequence a value takes on the wire: fixed-width scalars in big-endian
//! order, strings and byte arrays behind a four-byte length prefix, optionals
//! behind a one-byte tag, sequences and maps behind a four-byte count, record
//! fields back to back, and enums behind a four-byte discriminant equal to
//! the variant's declaration index plus one.

use vstd::prelude::*;
use vstd::utf8::encode_utf8;
use crate::interface::TypeDesc;
use crate::interface::FieldDesc;
use crate::wire::be2;
use crate::wire::be4;
use crate::wire::be8;

verus! {

broadcast use vstd::std_specs::vec::group_vec_axioms;

/// An executable value of the wire model.  Floating-point payloads are
/// carried as their raw bit patterns, and object references as the pointer
/// magnitude; neither is interpreted here.
#[derive(Debug, PartialEq, Eq)]
pub enum WireValue {
    Bool(bool),
    U8(u8),
    I8(i8),
    U16(u16),
    I16(i16),
    U32(u32),
    I32(i32),
    U64(u64),
    I64(i64),
    F32Bits(u32),
    F64Bits(u64),
    Text(String),
    Blob(Vec<u8>),
    Dur { secs: u64, nanos: u32 },
    Absent,
    Present(Box<WireValue>),
    ListV(Vec<WireValue>),
    MapV(Vec<(WireValue, WireValue)>),
    RecordV(Vec<WireValue>),
    EnumV { index: usize, fields: Vec<WireValue> },
    Handle(u64),
}

/// The mathematical image of a `WireValue`.
pub enum SpecValue {
    Bool(bool),
    U8(u8),
    I8(i8),
    U16(u16),
    I16(i16),
    U32(u32),
    I32(i32),
    U64(u64),
    I64(i64),
    F32Bits(u32),
    F64Bits(u64),
    Text(Seq<char>),
    Blob(Seq<u8>),
    Dur { secs: u64, nanos: u32 },
    Absent,
    Present(Box<SpecValue>),
    ListV(Seq<SpecValue>),
    MapV(Seq<(SpecValue, SpecValue)>),
    RecordV(Seq<SpecValue>),
    EnumV { index: int, fields: Seq<SpecValue> },
    Handle(u64),
}

/// The mathematical image of an executable value.
pub open spec fn sv(v: WireValue) -> SpecValue
    decreases v,
{
    match v {
        WireValue::Bool(b) => SpecValue::Bool(b),
        WireValue::U8(x) => SpecValue::U8(x),
        WireValue::I8(x) => SpecValue::I8(x),
        WireValue::U16(x) => SpecValue::U16(x),
        WireValue::I16(x) => SpecValue::I16(x),
        WireValue::U32(x) => SpecValue::U32(x),
        WireValue::I32(x) => SpecValue::I32(x),
        WireValue::U64(x) => SpecValue::U64(x),
        WireValue::I64(x) => SpecValue::I64(x),
        WireValue::F32Bits(x) => SpecValue::F32Bits(x),
        WireValue::F64Bits(x) => SpecValue::F64Bits(x),
        WireValue::Text(s) => SpecValue::Text(s@),
        WireValue::Blob(b) => SpecValue::Blob(b@),
        WireValue::Dur { secs, nanos } => SpecValue::Dur { secs, nanos },
        WireValue::Absent => SpecValue::Absent,
        WireValue::Present(inner) => SpecValue::Present(Box::new(sv(*inner))),
        WireValue::ListV(elems) => SpecValue::ListV(sv_list(elems@)),
        WireValue::MapV(pairs) => SpecValue::MapV(sv_pairs(pairs@)),
        WireValue::RecordV(fields) => SpecValue::RecordV(sv_list(fields@)),
        WireValue::EnumV { index, fields } => SpecValue::EnumV {
            index: index as int,
            fields: sv_list(fields@),
        },
        WireValue::Handle(h) => SpecValue::Handle(h),
    }
}

/// The images of a sequence of executable values, in order.
pub open spec fn sv_list(vs: Seq<WireValue>) -> Seq<SpecValue>
    decreases vs,
{
    if vs.len() == 0 {
        Seq::empty()
    } else {
        seq![sv(vs[0])] + sv_list(vs.drop_first())
    }
}

/// The images of a sequence of executable pairs, in order.
pub open spec fn sv_pairs(ps: Seq<(WireValue, WireValue)>) -> Seq<(SpecValue, SpecValue)>
    decreases ps,
{
    if ps.len() == 0 {
        Seq::empty()
    } else {
        seq![(sv(ps[0].0), sv(ps[0].1))] + sv_pairs(ps.drop_first())
    }
}

/// `sv_list` maps element-wise.
pub proof fn lemma_sv_list(vs: Seq<WireValue>)
    ensures
        sv_list(vs).len() == vs.len(),
        forall|i: int| 0 <= i < vs.len() ==> sv_list(vs)[i] == sv(vs[i]),
    decreases vs,
{
    if vs.len() > 0 {
        lemma_sv_list(vs.drop_first());
    }
}

/// `sv_pairs` maps element-wise.
pub proof fn lemma_sv_pairs(ps: Seq<(WireValue, WireValue)>)
    ensures
        sv_pairs(ps).len() == ps.len(),
        forall|i: int| 0 <= i < ps.len() ==> sv_pairs(ps)[i] == (sv(ps[i].0), sv(ps[i].1)),
    decreases ps,
{
    if ps.len() > 0 {
        lemma_sv_pairs(ps.drop_first());
    }
}

/// Appending one executable value appends its image.
pub proof fn lemma_sv_list_push(vs: Seq<WireValue>, x: WireValue)
    ensures
        sv_list(vs.push(x)) == sv_list(vs) + seq![sv(x)],
    decreases vs,
{
    if vs.len() == 0 {
        assert(vs.push(x).drop_first() =~= Seq::<WireValue>::empty());
        assert(sv_list(Seq::<WireValue>::empty()) == Seq::<SpecValue>::empty());
        assert(sv_list(vs.push(x)) == seq![sv(x)] + Seq::<SpecValue>::empty());
        assert(sv_list(vs.push(x)) =~= sv_list(vs) + seq![sv(x)]);
    } else {
        let a = vs.push(x);
        assert(a.drop_first() =~= vs.drop_first().push(x));
        lemma_sv_list_push(vs.drop_first(), x);
        assert(a[0] == vs[0]);
        assert(sv_list(a) == seq![sv(vs[0])] + (sv_list(vs.drop_first()) + seq![sv(x)]));
        assert(seq![sv(vs[0])] + (sv_list(vs.drop_first()) + seq![sv(x)]) =~= (seq![sv(vs[0])]
            + sv_list(vs.drop_first())) + seq![sv(x)]);
    }
}

/// Appending one executable pair appends its image.
pub proof fn lemma_sv_pairs_push(ps: Seq<(WireValue, WireValue)>, x: (WireValue, WireValue))
    ensures
        sv_pairs(ps.push(x)) == sv_pairs(ps) + seq![(sv(x.0), sv(x.1))],
    decreases ps,
{
    if ps.len() == 0 {
        assert(ps.push(x).drop_first() =~= Seq::<(WireValue, WireValue)>::empty());
        assert(sv_pairs(Seq::<(WireValue, WireValue)>::empty()) == Seq::<(
            SpecValue,
            SpecValue,
        )>::empty());
        assert(sv_pairs(ps.push(x)) == seq![(sv(x.0), sv(x.1))] + Seq::<(
            SpecValue,
            SpecValue,
        )>::empty());
        assert(sv_pairs(ps.push(x)) =~= sv_pairs(ps) + seq![(sv(x.0), sv(x.1))]);
    } else {
        let a = ps.push(x);
        assert(a.drop_first() =~= ps.drop_first().push(x));
        lemma_sv_pairs_push(ps.drop_first(), x);
        assert(a[0] == ps[0]);
        assert(sv_pairs(a) == seq![(sv(ps[0].0), sv(ps[0].1))] + (sv_pairs(ps.drop_first())
            + seq![(sv(x.0), sv(x.1))]));
        assert(seq![(sv(ps[0].0), sv(ps[0].1))] + (sv_pairs(ps.drop_first()) + seq![
            (sv(x.0), sv(x.1)),
        ]) =~= (seq![(sv(ps[0].0), sv(ps[0].1))] + sv_pairs(ps.drop_first())) + seq![
            (sv(x.0), sv(x.1)),
        ]);
    }
}

/// Machine bounds a value must obey before it can be written: every length
/// prefix and every discriminant fits a 32-bit signed count, and a duration's
/// nanosecond part stays below one second.
pub open spec fn wf_value(v: SpecValue) -> bool
    decreases v,
{
    match v {
        SpecValue::Text(s) => encode_utf8(s).len() <= 0x7fff_ffff,
        SpecValue::Blob(b) => b.len() <= 0x7fff_ffff,
        SpecValue::Dur { secs, nanos } => nanos < 1_000_000_000,
        SpecValue::Present(inner) => wf_value(*inner),
        SpecValue::ListV(elems) => elems.len() <= 0x7fff_ffff && wf_list(elems),
        SpecValue::MapV(pairs) => pairs.len() <= 0x7fff_ffff && wf_pairs(pairs),
        SpecValue::RecordV(fields) => wf_list(fields),
        SpecValue::EnumV { index, fields } => 0 <= index && index + 1 <= 0x7fff_ffff && wf_list(
            fields,
        ),
        _ => true,
    }
}

/// Every value of a run obeys the machine bounds.
pub open spec fn wf_list(vs: Seq<SpecValue>) -> bool
    decreases vs,
{
    if vs.len() == 0 {
        true
    } else {
        wf_value(vs[0]) && wf_list(vs.drop_first())
    }
}

/// Both halves of every pair of a run obey the machine bounds.
pub open spec fn wf_pairs(ps: Seq<(SpecValue, SpecValue)>) -> bool
    decreases ps,
{
    if ps.len() == 0 {
        true
    } else {
        wf_value(ps[0].0) && wf_value(ps[0].1) && wf_pairs(ps.drop_first())
    }
}

/// A run is well-formed exactly when each of its values is.
pub proof fn lemma_wf_list_iff(vs: Seq<SpecValue>)
    ensures
        wf_list(vs) <==> (forall|i: int| 0 <= i < vs.len() ==> wf_value(#[trigger] vs[i])),
    decreases vs,
{
    if vs.len() > 0 {
        let rest = vs.drop_first();
        lemma_wf_list_iff(rest);
        if wf_list(vs) {
            assert forall|i: int| 0 <= i < vs.len() implies wf_value(#[trigger] vs[i]) by {
                if i > 0 {
                    assert(rest[i - 1] == vs[i]);
                    assert(wf_value(rest[i - 1]));
                }
            };
        }
        if forall|i: int| 0 <= i < vs.len() ==> wf_value(#[trigger] vs[i]) {
            assert forall|i: int| 0 <= i < rest.len() implies wf_value(#[trigger] rest[i]) by {
                assert(rest[i] == vs[i + 1]);
                assert(wf_value(vs[i + 1]));
            };
            assert(wf_list(rest));
            assert(wf_value(vs[0]));
        }
    }
}

/// A run of pairs is well-formed exactly when each half of each pair is.
pub proof fn lemma_wf_pairs_iff(ps: Seq<(SpecValue, SpecValue)>)
    ensures
        wf_pairs(ps) <==> (forall|i: int|
            0 <= i < ps.len() ==> wf_value((#[trigger] ps[i]).0) && wf_value(ps[i].1)),
    decreases ps,
{
    if ps.len() > 0 {
        let rest = ps.drop_first();
        lemma_wf_pairs_iff(rest);
        if wf_pairs(ps) {
            assert forall|i: int|
                0 <= i < ps.len() implies wf_value((#[trigger] ps[i]).0) && wf_value(
                ps[i].1,
            ) by {
                if i > 0 {
                    assert(rest[i - 1] == ps[i]);
                    assert(wf_value(rest[i - 1].0) && wf_value(rest[i - 1].1));
                }
            };
        }
        if forall|i: int| 0 <= i < ps.len() ==> wf_value((#[trigger] ps[i]).0) && wf_value(
            ps[i].1,
        ) {
            assert forall|i: int|
                0 <= i < rest.len() implies wf_value((#[trigger] rest[i]).0) && wf_value(
                rest[i].1,
            ) by {
                assert(rest[i] == ps[i + 1]);
                assert(wf_value(ps[i + 1].0) && wf_value(ps[i + 1].1));
            };
            assert(wf_pairs(rest));
            assert(wf_value(ps[0].0) && wf_value(ps[0].1));
        }
    }
}

/// Whether a value has the shape that a type prescribes: the right variant,
/// element shapes under sequences and maps, field shapes in declaration
/// order for records and enum variants, and an in-range variant index.
pub open spec fn has_shape(v: SpecValue, t: TypeDesc) -> bool
    decreases t, 1int, 0int,
{
    match t {
        TypeDesc::Boolean => v is Bool,
        TypeDesc::Int8 => v is I8,
        TypeDesc::Int16 => v is I16,
        TypeDesc::Int32 => v is I32,
        TypeDesc::Int64 => v is I64,
        TypeDesc::UInt8 => v is U8,
        TypeDesc::UInt16 => v is U16,
        TypeDesc::UInt32 => v is U32,
        TypeDesc::UInt64 => v is U64,
        TypeDesc::Float32 => v is F32Bits,
        TypeDesc::Float64 => v is F64Bits,
        TypeDesc::Str => v is Text,
        TypeDesc::Bytes => v is Blob,
        TypeDesc::Duration => v is Dur,
        TypeDesc::Optional { inner } => match v {
            SpecValue::Absent => true,
            SpecValue::Present(x) => has_shape(*x, *inner),
            _ => false,
        },
        TypeDesc::Sequence { inner } => match v {
            SpecValue::ListV(elems) => shape_list(elems, TypeDesc::Sequence { inner }),
            _ => false,
        },
        TypeDesc::MapOf { key, value } => match v {
            SpecValue::MapV(pairs) => shape_pairs(pairs, TypeDesc::MapOf { key, value }),
            _ => false,
        },
        TypeDesc::Record { name, fields } => match v {
            SpecValue::RecordV(vals) => shape_fields(vals, fields@),
            _ => false,
        },
        TypeDesc::Enum { name, variants, flat } => match v {
            SpecValue::EnumV { index, fields } => 0 <= index < variants@.len() && shape_fields(
                fields,
                variants@[index].fields@,
            ),
            _ => false,
        },
        TypeDesc::Object { name, imp } => v is Handle,
        TypeDesc::Custom { name, underlying } => has_shape(v, *underlying),
    }
}

/// Every element of a run has the element shape of the sequence type `t`.
pub open spec fn shape_list(vs: Seq<SpecValue>, t: TypeDesc) -> bool
    decreases t, 0int, vs.len(),
{
    match t {
        TypeDesc::Sequence { inner } => if vs.len() == 0 {
            true
        } else {
            has_shape(vs[0], *inner) && shape_list(vs.drop_first(), TypeDesc::Sequence { inner })
        },
        _ => arbitrary(),
    }
}

/// Every pair of a run has the key and value shapes of the map type `t`.
pub open spec fn shape_pairs(ps: Seq<(SpecValue, SpecValue)>, t: TypeDesc) -> bool
    decreases t, 0int, ps.len(),
{
    match t {
        TypeDesc::MapOf { key, value } => if ps.len() == 0 {
            true
        } else {
            has_shape(ps[0].0, *key) && has_shape(ps[0].1, *value) && shape_pairs(
                ps.drop_first(),
                TypeDesc::MapOf { key, value },
            )
        },
        _ => arbitrary(),
    }
}

/// A run of values matches a run of field declarations, in order.
pub open spec fn shape_fields(vals: Seq<SpecValue>, fs: Seq<FieldDesc>) -> bool
    decreases fs, 0int, vals.len(),
{
    if fs.len() == 0 {
        vals.len() == 0
    } else {
        vals.len() == fs.len() && has_shape(vals[0], fs[0].ty) && shape_fields(
            vals.drop_first(),
            fs.drop_first(),
        )
    }
}

/// A run has the element shape exactly when each element does.
pub proof fn lemma_shape_list_iff(vs: Seq<SpecValue>, inner: Box<TypeDesc>)
    ensures
        shape_list(vs, TypeDesc::Sequence { inner }) <==> (forall|i: int|
            0 <= i < vs.len() ==> has_shape(#[trigger] vs[i], *inner)),
    decreases vs,
{
    if vs.len() > 0 {
        let rest = vs.drop_first();
        lemma_shape_list_iff(rest, inner);
        if shape_list(vs, TypeDesc::Sequence { inner }) {
            assert forall|i: int|
                0 <= i < vs.len() implies has_shape(#[trigger] vs[i], *inner) by {
                if i > 0 {
                    assert(rest[i - 1] == vs[i]);
                    assert(has_shape(rest[i - 1], *inner));
                }
            };
        }
        if forall|i: int| 0 <= i < vs.len() ==> has_shape(#[trigger] vs[i], *inner) {
            assert forall|i: int|
                0 <= i < rest.len() implies has_shape(#[trigger] rest[i], *inner) by {
                assert(rest[i] == vs[i + 1]);
                assert(has_shape(vs[i + 1], *inner));
            };
            assert(shape_list(rest, TypeDesc::Sequence { inner }));
            assert(has_shape(vs[0], *inner));
        }
    }
}

/// A run of pairs has the key and value shapes exactly when each pair does.
pub proof fn lemma_shape_pairs_iff(
    ps: Seq<(SpecValue, SpecValue)>,
    key: Box<TypeDesc>,
    value: Box<TypeDesc>,
)
    ensures
        shape_pairs(ps, TypeDesc::MapOf { key, value }) <==> (forall|i: int|
            0 <= i < ps.len() ==> has_shape((#[trigger] ps[i]).0, *key) && has_shape(
                ps[i].1,
                *value,
            )),
    decreases ps,
{
    if ps.len() > 0 {
        let rest = ps.drop_first();
        lemma_shape_pairs_iff(rest, key, value);
        if shape_pairs(ps, TypeDesc::MapOf { key, value }) {
            assert forall|i: int|
                0 <= i < ps.len() implies has_shape((#[trigger] ps[i]).0, *key) && has_shape(
                ps[i].1,
                *value,
            ) by {
                if i > 0 {
                    assert(rest[i - 1] == ps[i]);
                    assert(has_shape(rest[i - 1].0, *key) && has_shape(rest[i - 1].1, *value));
                }
            };
        }
        if forall|i: int|
            0 <= i < ps.len() ==> has_shape((#[trigger] ps[i]).0, *key) && has_shape(
            ps[i].1,
            *value,
        ) {
            assert forall|i: int|
                0 <= i < rest.len() implies has_shape((#[trigger] rest[i]).0, *key) && has_shape(
                rest[i].1,
                *value,
            ) by {
                assert(rest[i] == ps[i + 1]);
                assert(has_shape(ps[i + 1].0, *key) && has_shape(ps[i + 1].1, *value));
            };
            assert(shape_pairs(rest, TypeDesc::MapOf { key, value }));
            assert(has_shape(ps[0].0, *key) && has_shape(ps[0].1, *value));
        }
    }
}

/// A run matches a run of field declarations exactly when the lengths agree
/// and each value has its field's shape.
pub proof fn lemma_shape_fields_iff(vals: Seq<SpecValue>, fs: Seq<FieldDesc>)
    ensures
        shape_fields(vals, fs) <==> (vals.len() == fs.len() && (forall|i: int|
            0 <= i < vals.len() ==> has_shape(#[trigger] vals[i], fs[i].ty))),
    decreases fs,
{
    if fs.len() > 0 {
        let vrest = vals.drop_first();
        let frest = fs.drop_first();
        lemma_shape_fields_iff(vrest, frest);
        if shape_fields(vals, fs) {
            assert forall|i: int|
                0 <= i < vals.len() implies has_shape(#[trigger] vals[i], fs[i].ty) by {
                if i > 0 {
                    assert(vrest[i - 1] == vals[i]);
                    assert(frest[i - 1] == fs[i]);
                    assert(has_shape(vrest[i - 1], frest[i - 1].ty));
                }
            };
        }
        if vals.len() == fs.len() && (forall|i: int|
            0 <= i < vals.len() ==> has_shape(#[trigger] vals[i], fs[i].ty)) {
            assert forall|i: int|
                0 <= i < vrest.len() implies has_shape(#[trigger] vrest[i], frest[i].ty) by {
                assert(vrest[i] == vals[i + 1]);
                assert(frest[i] == fs[i + 1]);
                assert(has_shape(vals[i + 1], fs[i + 1].ty));
            };
            assert(shape_fields(vrest, frest));
            assert(has_shape(vals[0], fs[0].ty));
        }
    }
}

/// A value conforms to a type when it has the type's shape and obeys the
/// machine bounds of the wire format.
pub open spec fn conforms(v: SpecValue, t: TypeDesc) -> bool {
    wf_value(v) && has_shape(v, t)
}

/// The exact byte image of a value on the wire.
pub open spec fn encoding(v: SpecValue) -> Seq<u8>
    decreases v,
{
    match v {
        SpecValue::Bool(b) => seq![if b { 1u8 } else { 0u8 }],
        SpecValue::U8(x) => seq![x],
        SpecValue::I8(x) => seq![x as u8],
        SpecValue::U16(x) => be2(x),
        SpecValue::I16(x) => be2(x as u16),
        SpecValue::U32(x) => be4(x),
        SpecValue::I32(x) => be4(x as u32),
        SpecValue::U64(x) => be8(x),
        SpecValue::I64(x) => be8(x as u64),
        SpecValue::F32Bits(x) => be4(x),
        SpecValue::F64Bits(x) => be8(x),
        SpecValue::Text(s) => be4(encode_utf8(s).len() as u32) + encode_utf8(s),
        SpecValue::Blob(b) => be4(b.len() as u32) + b,
        SpecValue::Dur { secs, nanos } => be8(secs) + be4(nanos),
        SpecValue::Absent => seq![0u8],
        SpecValue::Present(inner) => seq![1u8] + encoding(*inner),
        SpecValue::ListV(elems) => be4(elems.len() as u32) + encoding_list(elems),
        SpecValue::MapV(pairs) => be4(pairs.len() as u32) + encoding_pairs(pairs),
        SpecValue::RecordV(fields) => encoding_list(fields),
        SpecValue::EnumV { index, fields } => be4((index + 1) as u32) + encoding_list(fields),
        SpecValue::Handle(h) => be8(h),
    }
}

/// The byte image of a run of values, back to back, no separators.
pub open spec fn encoding_list(vs: Seq<SpecValue>) -> Seq<u8>
    decreases vs,
{
    if vs.len() == 0 {
        Seq::empty()
    } else {
        encoding(vs[0]) + encoding_list(vs.drop_first())
    }
}

/// The byte image of a run of key-value pairs, each key directly before its
/// value.
pub open spec fn encoding_pairs(ps: Seq<(SpecValue, SpecValue)>) -> Seq<u8>
    decreases ps,
{
    if ps.len() == 0 {
        Seq::empty()
    } else {
        encoding(ps[0].0) + encoding(ps[0].1) + encoding_pairs(ps.drop_first())
    }
}

/// Appending a value to a run appends its encoding.
pub proof fn lemma_encoding_list_push(vs: Seq<SpecValue>, x: SpecValue)
    ensures
        encoding_list(vs.push(x)) == encoding_list(vs) + encoding(x),
    decreases vs,
{
    if vs.len() == 0 {
        assert(vs.push(x).drop_first() =~= Seq::<SpecValue>::empty());
        assert(encoding_list(Seq::<SpecValue>::empty()) == Seq::<u8>::empty());
        assert(encoding_list(vs.push(x)) == encoding(x) + Seq::<u8>::empty());
        assert(encoding_list(vs.push(x)) =~= encoding_list(vs) + encoding(x));
    } else {
        let a = vs.push(x);
        assert(a.drop_first() =~= vs.drop_first().push(x));
        lemma_encoding_list_push(vs.drop_first(), x);
        assert(a[0] == vs[0]);
        assert(encoding_list(a) == encoding(vs[0]) + (encoding_list(vs.drop_first()) + encoding(
            x,
        )));
        assert(encoding(vs[0]) + (encoding_list(vs.drop_first()) + encoding(x)) =~= (encoding(
            vs[0],
        ) + encoding_list(vs.drop_first())) + encoding(x));
    }
}

/// Appending a pair to a run appends both encodings.
pub proof fn lemma_encoding_pairs_push(ps: Seq<(SpecValue, SpecValue)>, x: (SpecValue, SpecValue))
    ensures
        encoding_pairs(ps.push(x)) == encoding_pairs(ps) + encoding(x.0) + encoding(x.1),
    decreases ps,
{
    if ps.len() == 0 {
        assert(ps.push(x).drop_first() =~= Seq::<(SpecValue, SpecValue)>::empty());
        assert(encoding_pairs(Seq::<(SpecValue, SpecValue)>::empty()) == Seq::<u8>::empty());
        assert(encoding_pairs(ps.push(x)) == encoding(x.0) + encoding(x.1) + Seq::<u8>::empty());
        assert(encoding_pairs(ps.push(x)) =~= encoding_pairs(ps) + encoding(x.0) + encoding(x.1));
    } else {
        let a = ps.push(x);
        assert(a.drop_first() =~= ps.drop_first().push(x));
        lemma_encoding_pairs_push(ps.drop_first(), x);
        assert(a[0] == ps[0]);
        assert(encoding_pairs(a) == encoding(ps[0].0) + encoding(ps[0].1) + (encoding_pairs(
            ps.drop_first(),
        ) + encoding(x.0) + encoding(x.1)));
        assert(encoding(ps[0].0) + encoding(ps[0].1) + (encoding_pairs(ps.drop_first()) + encoding(
            x.0,
        ) + encoding(x.1)) =~= encoding(ps[0].0) + encoding(ps[0].1) + encoding_pairs(
            ps.drop_first(),
        ) + encoding(x.0) + encoding(x.1));
    }
}


/// Every member of a well-formed list or record value is well-formed.
pub proof fn lemma_wf_list_elems(elems: Seq<WireValue>)
    requires
        wf_value(SpecValue::ListV(sv_list(elems))) || wf_value(SpecValue::RecordV(sv_list(elems))),
    ensures
        forall|i: int| 0 <= i < elems.len() ==> wf_value(sv(#[trigger] elems[i])),
{
    lemma_sv_list(elems);
    lemma_wf_list_iff(sv_list(elems));
    assert forall|i: int| 0 <= i < elems.len() implies wf_value(sv(#[trigger] elems[i])) by {
        assert(wf_value(sv_list(elems)[i]));
    };
}

/// Every field of a well-formed enum value is well-formed.
pub proof fn lemma_wf_enum_fields(index: int, elems: Seq<WireValue>)
    requires
        wf_value(SpecValue::EnumV { index, fields: sv_list(elems) }),
    ensures
        forall|i: int| 0 <= i < elems.len() ==> wf_value(sv(#[trigger] elems[i])),
{
    lemma_sv_list(elems);
    lemma_wf_list_iff(sv_list(elems));
    assert forall|i: int| 0 <= i < elems.len() implies wf_value(sv(#[trigger] elems[i])) by {
        assert(wf_value(sv_list(elems)[i]));
    };
}

/// Both halves of every pair of a well-formed map value are well-formed.
pub proof fn lemma_wf_pair_elems(pairs: Seq<(WireValue, WireValue)>)
    requires
        wf_value(SpecValue::MapV(sv_pairs(pairs))),
    ensures
        forall|i: int|
            0 <= i < pairs.len() ==> wf_value(sv((#[trigger] pairs[i]).0)) && wf_value(
                sv(pairs[i].1),
            ),
{
    lemma_sv_pairs(pairs);
    lemma_wf_pairs_iff(sv_pairs(pairs));
    assert forall|i: int|
        0 <= i < pairs.len() implies wf_value(sv((#[trigger] pairs[i]).0)) && wf_value(
        sv(pairs[i].1),
    ) by {
        assert(sv_pairs(pairs)[i] == (sv(pairs[i].0), sv(pairs[i].1)));
        assert(wf_value(sv_pairs(pairs)[i].0));
        assert(wf_value(sv_pairs(pairs)[i].1));
    };
}


} // verus!
