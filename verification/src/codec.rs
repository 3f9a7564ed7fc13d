//! Lifting and lowering values across the boundary.
//!
//! `decoding` is the mathematical reading of a byte stream at a given type
//! and offset; `read_value` is its executable mirror, and `write_value`
//! emits exactly `encoding`.  Malformed input is never repaired: an
//! implausible length, a read past the buffer, a bad optional tag or an
//! out-of-range enum discriminant each raise their own decode error.

use vstd::prelude::*;
use vstd::slice::slice_subrange;
use vstd::slice::slice_to_vec;
use vstd::string::StrSliceExecFns;
use vstd::utf8::decode_utf8;
use vstd::utf8::valid_utf8;
use crate::interface::FieldDesc;
use crate::interface::TypeDesc;
use crate::value::conforms;
use crate::value::has_shape;
use crate::value::lemma_shape_fields_iff;
use crate::value::lemma_shape_list_iff;
use crate::value::lemma_shape_pairs_iff;
use crate::value::lemma_wf_list_iff;
use crate::value::lemma_wf_pairs_iff;
use crate::value::encoding;
use crate::value::encoding_list;
use crate::value::encoding_pairs;
use crate::value::lemma_encoding_list_push;
use crate::value::lemma_encoding_pairs_push;
use crate::value::lemma_sv_list;
use crate::value::lemma_sv_list_push;
use crate::value::lemma_sv_pairs;
use crate::value::lemma_sv_pairs_push;
use crate::value::lemma_wf_enum_fields;
use crate::value::lemma_wf_list_elems;
use crate::value::lemma_wf_pair_elems;
use crate::value::sv;
use crate::value::wf_value;
use crate::value::sv_list;
use crate::value::sv_pairs;
use crate::value::SpecValue;
use crate::value::WireValue;
use crate::wire::be2;
use crate::wire::be4;
use crate::wire::be8;
use crate::wire::from_be2;
use crate::wire::from_be4;
use crate::wire::from_be8;
use crate::wire::push_be2;
use crate::wire::push_be4;
use crate::wire::push_be8;
use crate::wire::read_be2;
use crate::wire::read_be4;
use crate::wire::read_be8;

verus! {

broadcast use vstd::std_specs::vec::group_vec_axioms;

/// A protocol fault found while decoding.  These are fatal to the current
/// call and surface to the caller untouched.
#[derive(Clone, Copy, Debug, PartialEq, Eq, Structural)]
pub enum DecodeError {
    /// A read would run past the end of the supplied buffer.
    BufferOverflow,
    /// A length prefix is negative or otherwise implausible.
    IncompleteData,
    /// An optional's leading tag byte is neither absent nor present.
    UnexpectedOptionalTag,
    /// An enum discriminant is zero or past the declared variants.
    UnexpectedEnumCase,
    /// A string payload is not well-formed text.
    InvalidStringData,
    /// A duration's nanosecond part reaches a full second.
    InvalidDuration,
}

/// Eight big-endian bytes starting at `off`, reassembled.
pub open spec fn read8_at(bytes: Seq<u8>, off: int) -> u64 {
    from_be8(
        bytes[off],
        bytes[off + 1],
        bytes[off + 2],
        bytes[off + 3],
        bytes[off + 4],
        bytes[off + 5],
        bytes[off + 6],
        bytes[off + 7],
    )
}

/// Four big-endian bytes starting at `off`, reassembled.
pub open spec fn read4_at(bytes: Seq<u8>, off: int) -> u32 {
    from_be4(bytes[off], bytes[off + 1], bytes[off + 2], bytes[off + 3])
}

/// The value a byte stream holds at `off` when read at type `t`, together
/// with the number of bytes the read consumes; or the decode error that the
/// stream provokes.
pub open spec fn decoding(t: TypeDesc, bytes: Seq<u8>, off: int) -> Result<
    (SpecValue, int),
    DecodeError,
>
    decreases t, 1int, 0int,
{
    match t {
        TypeDesc::Boolean => if off + 1 <= bytes.len() {
            Ok((SpecValue::Bool(bytes[off] == 1), 1))
        } else {
            Err(DecodeError::BufferOverflow)
        },
        TypeDesc::UInt8 => if off + 1 <= bytes.len() {
            Ok((SpecValue::U8(bytes[off]), 1))
        } else {
            Err(DecodeError::BufferOverflow)
        },
        TypeDesc::Int8 => if off + 1 <= bytes.len() {
            Ok((SpecValue::I8(bytes[off] as i8), 1))
        } else {
            Err(DecodeError::BufferOverflow)
        },
        TypeDesc::UInt16 => if off + 2 <= bytes.len() {
            Ok((SpecValue::U16(from_be2(bytes[off], bytes[off + 1])), 2))
        } else {
            Err(DecodeError::BufferOverflow)
        },
        TypeDesc::Int16 => if off + 2 <= bytes.len() {
            Ok((SpecValue::I16(from_be2(bytes[off], bytes[off + 1]) as i16), 2))
        } else {
            Err(DecodeError::BufferOverflow)
        },
        TypeDesc::UInt32 => if off + 4 <= bytes.len() {
            Ok((SpecValue::U32(read4_at(bytes, off)), 4))
        } else {
            Err(DecodeError::BufferOverflow)
        },
        TypeDesc::Int32 => if off + 4 <= bytes.len() {
            Ok((SpecValue::I32(read4_at(bytes, off) as i32), 4))
        } else {
            Err(DecodeError::BufferOverflow)
        },
        TypeDesc::Float32 => if off + 4 <= bytes.len() {
            Ok((SpecValue::F32Bits(read4_at(bytes, off)), 4))
        } else {
            Err(DecodeError::BufferOverflow)
        },
        TypeDesc::UInt64 => if off + 8 <= bytes.len() {
            Ok((SpecValue::U64(read8_at(bytes, off)), 8))
        } else {
            Err(DecodeError::BufferOverflow)
        },
        TypeDesc::Int64 => if off + 8 <= bytes.len() {
            Ok((SpecValue::I64(read8_at(bytes, off) as i64), 8))
        } else {
            Err(DecodeError::BufferOverflow)
        },
        TypeDesc::Float64 => if off + 8 <= bytes.len() {
            Ok((SpecValue::F64Bits(read8_at(bytes, off)), 8))
        } else {
            Err(DecodeError::BufferOverflow)
        },
        TypeDesc::Duration => if off + 12 <= bytes.len() {
            if read4_at(bytes, off + 8) < 1_000_000_000 {
                Ok((SpecValue::Dur { secs: read8_at(bytes, off), nanos: read4_at(bytes, off + 8) }, 12))
            } else {
                Err(DecodeError::InvalidDuration)
            }
        } else {
            Err(DecodeError::BufferOverflow)
        },
        TypeDesc::Str => if off + 4 <= bytes.len() {
            let n = read4_at(bytes, off) as int;
            if n > 0x7fff_ffff {
                Err(DecodeError::IncompleteData)
            } else if off + 4 + n <= bytes.len() {
                if valid_utf8(bytes.subrange(off + 4, off + 4 + n)) {
                    Ok((SpecValue::Text(decode_utf8(bytes.subrange(off + 4, off + 4 + n))), 4 + n))
                } else {
                    Err(DecodeError::InvalidStringData)
                }
            } else {
                Err(DecodeError::BufferOverflow)
            }
        } else {
            Err(DecodeError::BufferOverflow)
        },
        TypeDesc::Bytes => if off + 4 <= bytes.len() {
            let n = read4_at(bytes, off) as int;
            if n > 0x7fff_ffff {
                Err(DecodeError::IncompleteData)
            } else if off + 4 + n <= bytes.len() {
                Ok((SpecValue::Blob(bytes.subrange(off + 4, off + 4 + n)), 4 + n))
            } else {
                Err(DecodeError::BufferOverflow)
            }
        } else {
            Err(DecodeError::BufferOverflow)
        },
        TypeDesc::Optional { inner } => if off + 1 <= bytes.len() {
            if bytes[off] == 0 {
                Ok((SpecValue::Absent, 1))
            } else if bytes[off] == 1 {
                match decoding(*inner, bytes, off + 1) {
                    Ok(p) => Ok((SpecValue::Present(Box::new(p.0)), 1 + p.1)),
                    Err(e) => Err(e),
                }
            } else {
                Err(DecodeError::UnexpectedOptionalTag)
            }
        } else {
            Err(DecodeError::BufferOverflow)
        },
        TypeDesc::Sequence { inner } => if off + 4 <= bytes.len() {
            let n = read4_at(bytes, off) as int;
            if n > 0x7fff_ffff {
                Err(DecodeError::IncompleteData)
            } else {
                match decoding_run(TypeDesc::Sequence { inner }, bytes, off + 4, n) {
                    Ok(p) => Ok((SpecValue::ListV(p.0), 4 + p.1)),
                    Err(e) => Err(e),
                }
            }
        } else {
            Err(DecodeError::BufferOverflow)
        },
        TypeDesc::MapOf { key, value } => if off + 4 <= bytes.len() {
            let n = read4_at(bytes, off) as int;
            if n > 0x7fff_ffff {
                Err(DecodeError::IncompleteData)
            } else {
                match decoding_pair_run(TypeDesc::MapOf { key, value }, bytes, off + 4, n) {
                    Ok(p) => Ok((SpecValue::MapV(p.0), 4 + p.1)),
                    Err(e) => Err(e),
                }
            }
        } else {
            Err(DecodeError::BufferOverflow)
        },
        TypeDesc::Record { name, fields } => if off <= bytes.len() {
            match decoding_fields(fields@, bytes, off) {
                Ok(p) => Ok((SpecValue::RecordV(p.0), p.1)),
                Err(e) => Err(e),
            }
        } else {
            Err(DecodeError::BufferOverflow)
        },
        TypeDesc::Enum { name, variants, flat } => if off + 4 <= bytes.len() {
            let d = read4_at(bytes, off) as int;
            if 1 <= d && d <= 0x7fff_ffff && d <= variants@.len() {
                match decoding_fields(variants@[d - 1].fields@, bytes, off + 4) {
                    Ok(p) => Ok((SpecValue::EnumV { index: d - 1, fields: p.0 }, 4 + p.1)),
                    Err(e) => Err(e),
                }
            } else {
                Err(DecodeError::UnexpectedEnumCase)
            }
        } else {
            Err(DecodeError::BufferOverflow)
        },
        TypeDesc::Object { name, imp } => if off + 8 <= bytes.len() {
            Ok((SpecValue::Handle(read8_at(bytes, off)), 8))
        } else {
            Err(DecodeError::BufferOverflow)
        },
        TypeDesc::Custom { name, underlying } => decoding(*underlying, bytes, off),
    }
}

/// `count` consecutive elements of a sequence type, read back to back.
/// `t` must be the enclosing `Sequence` type.
pub open spec fn decoding_run(t: TypeDesc, bytes: Seq<u8>, off: int, count: int) -> Result<
    (Seq<SpecValue>, int),
    DecodeError,
>
    decreases t, 0int, count,
{
    if count <= 0 {
        Ok((Seq::empty(), 0))
    } else {
        match t {
            TypeDesc::Sequence { inner } => match decoding(*inner, bytes, off) {
                Ok(p) => glue(
                    seq![p.0],
                    p.1,
                    decoding_run(TypeDesc::Sequence { inner }, bytes, off + p.1, count - 1),
                ),
                Err(e) => Err(e),
            },
            _ => arbitrary(),
        }
    }
}

/// `count` consecutive key-value pairs of a map type, each key directly
/// before its value.  `t` must be the enclosing `MapOf` type.
pub open spec fn decoding_pair_run(t: TypeDesc, bytes: Seq<u8>, off: int, count: int) -> Result<
    (Seq<(SpecValue, SpecValue)>, int),
    DecodeError,
>
    decreases t, 0int, count,
{
    if count <= 0 {
        Ok((Seq::empty(), 0))
    } else {
        match t {
            TypeDesc::MapOf { key, value } => match decoding(*key, bytes, off) {
                Ok(kp) => match decoding(*value, bytes, off + kp.1) {
                    Ok(vp) => glue(
                        seq![(kp.0, vp.0)],
                        kp.1 + vp.1,
                        decoding_pair_run(
                            TypeDesc::MapOf { key, value },
                            bytes,
                            off + kp.1 + vp.1,
                            count - 1,
                        ),
                    ),
                    Err(e) => Err(e),
                },
                Err(e) => Err(e),
            },
            _ => arbitrary(),
        }
    }
}

/// The fields of a record or enum variant, read in declaration order.
pub open spec fn decoding_fields(fs: Seq<FieldDesc>, bytes: Seq<u8>, off: int) -> Result<
    (Seq<SpecValue>, int),
    DecodeError,
>
    decreases fs, 0int, 0int,
{
    if fs.len() == 0 {
        Ok((Seq::empty(), 0))
    } else {
        match decoding(fs[0].ty, bytes, off) {
            Ok(p) => glue(seq![p.0], p.1, decoding_fields(fs.drop_first(), bytes, off + p.1)),
            Err(e) => Err(e),
        }
    }
}

/// Prepend an already-read run and its byte count to the result of reading
/// the rest.
pub open spec fn glue<T>(pre: Seq<T>, used: int, rest: Result<(Seq<T>, int), DecodeError>) -> Result<
    (Seq<T>, int),
    DecodeError,
> {
    match rest {
        Ok(p) => Ok((pre + p.0, used + p.1)),
        Err(e) => Err(e),
    }
}

/// Gluing nothing changes nothing.
pub proof fn lemma_glue_neutral<T>(r: Result<(Seq<T>, int), DecodeError>)
    ensures
        glue(Seq::<T>::empty(), 0, r) == r,
{
    match r {
        Ok(p) => {
            assert(Seq::<T>::empty() + p.0 =~= p.0);
        },
        Err(_) => {},
    }
}

/// Gluing twice is gluing the concatenation.
pub proof fn lemma_glue_assoc<T>(
    pre1: Seq<T>,
    used1: int,
    pre2: Seq<T>,
    used2: int,
    rest: Result<(Seq<T>, int), DecodeError>,
)
    ensures
        glue(pre1, used1, glue(pre2, used2, rest)) == glue(pre1 + pre2, used1 + used2, rest),
{
    match rest {
        Ok(p) => {
            assert(pre1 + (pre2 + p.0) =~= (pre1 + pre2) + p.0);
        },
        Err(_) => {},
    }
}

/// Relies on `String::from_utf8`: it succeeds exactly on well-formed UTF-8
/// and returns the string those bytes spell.
#[verifier::external_body]
pub(crate) fn string_from_utf8(bytes: Vec<u8>) -> (r: Option<String>)
    ensures
        r is Some <==> valid_utf8(bytes@),
        r matches Some(s) ==> s@ == decode_utf8(bytes@),
{
    String::from_utf8(bytes).ok()
}

/// Read a fixed-width or buffer-shaped value: every type that nests no
/// other type, plus object handles.
#[verifier::loop_isolation(false)]
fn read_scalar(t: &TypeDesc, buf: &Vec<u8>, off: usize) -> (r: Result<
    (WireValue, usize),
    DecodeError,
>)
    requires
        (*t).is_primitive() || t matches TypeDesc::Object { .. },
    ensures
        match r {
            Ok(p) => decoding(*t, buf@, off as int) == Ok::<(SpecValue, int), DecodeError>(
                (sv(p.0), p.1 as int),
            ) && conforms(sv(p.0), *t) && off + p.1 <= buf@.len(),
            Err(e) => decoding(*t, buf@, off as int) == Err::<(SpecValue, int), DecodeError>(e),
        },
{
    let len = buf.len();
    match t {
        TypeDesc::Boolean => {
            if off < len {
                let b = buf[off];
                Ok((WireValue::Bool(b == 1), 1))
            } else {
                Err(DecodeError::BufferOverflow)
            }
        },
        TypeDesc::UInt8 => {
            if off < len {
                Ok((WireValue::U8(buf[off]), 1))
            } else {
                Err(DecodeError::BufferOverflow)
            }
        },
        TypeDesc::Int8 => {
            if off < len {
                let b = buf[off];
                Ok((WireValue::I8(#[verifier::truncate] (b as i8)), 1))
            } else {
                Err(DecodeError::BufferOverflow)
            }
        },
        TypeDesc::UInt16 => {
            if off < len && len - off >= 2 {
                Ok((WireValue::U16(read_be2(buf, off)), 2))
            } else {
                Err(DecodeError::BufferOverflow)
            }
        },
        TypeDesc::Int16 => {
            if off < len && len - off >= 2 {
                let x = read_be2(buf, off);
                Ok((WireValue::I16(#[verifier::truncate] (x as i16)), 2))
            } else {
                Err(DecodeError::BufferOverflow)
            }
        },
        TypeDesc::UInt32 => {
            if off < len && len - off >= 4 {
                Ok((WireValue::U32(read_be4(buf, off)), 4))
            } else {
                Err(DecodeError::BufferOverflow)
            }
        },
        TypeDesc::Int32 => {
            if off < len && len - off >= 4 {
                let x = read_be4(buf, off);
                Ok((WireValue::I32(#[verifier::truncate] (x as i32)), 4))
            } else {
                Err(DecodeError::BufferOverflow)
            }
        },
        TypeDesc::Float32 => {
            if off < len && len - off >= 4 {
                Ok((WireValue::F32Bits(read_be4(buf, off)), 4))
            } else {
                Err(DecodeError::BufferOverflow)
            }
        },
        TypeDesc::UInt64 => {
            if off < len && len - off >= 8 {
                Ok((WireValue::U64(read_be8(buf, off)), 8))
            } else {
                Err(DecodeError::BufferOverflow)
            }
        },
        TypeDesc::Int64 => {
            if off < len && len - off >= 8 {
                let x = read_be8(buf, off);
                Ok((WireValue::I64(#[verifier::truncate] (x as i64)), 8))
            } else {
                Err(DecodeError::BufferOverflow)
            }
        },
        TypeDesc::Float64 => {
            if off < len && len - off >= 8 {
                Ok((WireValue::F64Bits(read_be8(buf, off)), 8))
            } else {
                Err(DecodeError::BufferOverflow)
            }
        },
        TypeDesc::Duration => {
            if off < len && len - off >= 12 {
                let secs = read_be8(buf, off);
                let nanos = read_be4(buf, off + 8);
                if nanos < 1_000_000_000 {
                    Ok((WireValue::Dur { secs, nanos }, 12))
                } else {
                    Err(DecodeError::InvalidDuration)
                }
            } else {
                Err(DecodeError::BufferOverflow)
            }
        },
        TypeDesc::Str => {
            if off < len && len - off >= 4 {
                let n32 = read_be4(buf, off);
                if n32 > 0x7fff_ffff {
                    Err(DecodeError::IncompleteData)
                } else {
                    let n = n32 as usize;
                    if n <= len - (off + 4) {
                        let content = slice_to_vec(
                            slice_subrange(buf.as_slice(), off + 4, off + 4 + n),
                        );
                        match string_from_utf8(content) {
                            Some(s) => {
                                proof {
                                    vstd::utf8::decode_utf8_encode_utf8(
                                        buf@.subrange(off as int + 4, off as int + 4 + n as int),
                                    );
                                }
                                Ok((WireValue::Text(s), 4 + n))
                            },
                            None => Err(DecodeError::InvalidStringData),
                        }
                    } else {
                        Err(DecodeError::BufferOverflow)
                    }
                }
            } else {
                Err(DecodeError::BufferOverflow)
            }
        },
        TypeDesc::Bytes => {
            if off < len && len - off >= 4 {
                let n32 = read_be4(buf, off);
                if n32 > 0x7fff_ffff {
                    Err(DecodeError::IncompleteData)
                } else {
                    let n = n32 as usize;
                    if n <= len - (off + 4) {
                        let content = slice_to_vec(
                            slice_subrange(buf.as_slice(), off + 4, off + 4 + n),
                        );
                        Ok((WireValue::Blob(content), 4 + n))
                    } else {
                        Err(DecodeError::BufferOverflow)
                    }
                }
            } else {
                Err(DecodeError::BufferOverflow)
            }
        },
        TypeDesc::Object { name, imp } => {
            if off < len && len - off >= 8 {
                Ok((WireValue::Handle(read_be8(buf, off)), 8))
            } else {
                Err(DecodeError::BufferOverflow)
            }
        },
        _ => Err(DecodeError::BufferOverflow),
    }
}

/// Read a counted run of sequence elements behind its length prefix.
#[verifier::loop_isolation(false)]
fn read_sequence(t: &TypeDesc, buf: &Vec<u8>, off: usize) -> (r: Result<
    (WireValue, usize),
    DecodeError,
>)
    requires
        t matches TypeDesc::Sequence { .. },
    ensures
        match r {
            Ok(p) => decoding(*t, buf@, off as int) == Ok::<(SpecValue, int), DecodeError>(
                (sv(p.0), p.1 as int),
            ) && conforms(sv(p.0), *t) && off + p.1 <= buf@.len(),
            Err(e) => decoding(*t, buf@, off as int) == Err::<(SpecValue, int), DecodeError>(e),
        },
    decreases *t, 0int, 0int,
{
    let len = buf.len();
    match t {
        TypeDesc::Sequence { inner } => {
            if off < len && len - off >= 4 {
                let n32 = read_be4(buf, off);
                if n32 > 0x7fff_ffff {
                    return Err(DecodeError::IncompleteData);
                }
                let count = n32 as usize;
                let mut elems: Vec<WireValue> = Vec::new();
                let mut cur: usize = off + 4;
                let mut i: usize = 0;
                proof {
                    lemma_glue_neutral(
                        decoding_run(*t, buf@, off as int + 4, count as int),
                    );
                }
                while i < count
                    invariant
                        i <= count,
                        off + 4 <= cur <= buf@.len(),
                        elems@.len() == i,
                        forall|j: int| 0 <= j < i ==> conforms(sv(#[trigger] elems@[j]), **inner),
                        *t == (TypeDesc::Sequence { inner: *inner }),
                        decoding_run(*t, buf@, off as int + 4, count as int) == glue(
                            sv_list(elems@),
                            cur - (off + 4),
                            decoding_run(*t, buf@, cur as int, count - i),
                        ),
                    decreases count - i,
                {
                    match read_value(inner, buf, cur) {
                        Ok((v, n)) => {
                            proof {
                                lemma_sv_list_push(elems@, v);
                                lemma_glue_assoc(
                                    sv_list(elems@),
                                    cur - (off + 4),
                                    seq![sv(v)],
                                    n as int,
                                    decoding_run(*t, buf@, cur + n as int, count - i - 1),
                                );
                            }
                            elems.push(v);
                            cur = cur + n;
                            i = i + 1;
                        },
                        Err(e) => {
                            return Err(e);
                        },
                    }
                }
                proof {
                    lemma_sv_list(elems@);
                    assert(decoding_run(*t, buf@, cur as int, 0) == Ok::<
                        (Seq<SpecValue>, int),
                        DecodeError,
                    >((Seq::empty(), 0)));
                    assert(sv_list(elems@) + Seq::<SpecValue>::empty() =~= sv_list(elems@));
                    lemma_wf_list_iff(sv_list(elems@));
                    lemma_shape_list_iff(sv_list(elems@), *inner);
                    assert forall|j: int| 0 <= j < sv_list(elems@).len() implies wf_value(
                        #[trigger] sv_list(elems@)[j],
                    ) && has_shape(sv_list(elems@)[j], **inner) by {
                        assert(conforms(sv(elems@[j]), **inner));
                    };
                }
                Ok((WireValue::ListV(elems), cur - off))
            } else {
                Err(DecodeError::BufferOverflow)
            }
        },
        _ => Err(DecodeError::BufferOverflow),
    }
}

/// Read a counted run of key-value pairs behind its length prefix.
#[verifier::loop_isolation(false)]
fn read_map(t: &TypeDesc, buf: &Vec<u8>, off: usize) -> (r: Result<
    (WireValue, usize),
    DecodeError,
>)
    requires
        t matches TypeDesc::MapOf { .. },
    ensures
        match r {
            Ok(p) => decoding(*t, buf@, off as int) == Ok::<(SpecValue, int), DecodeError>(
                (sv(p.0), p.1 as int),
            ) && conforms(sv(p.0), *t) && off + p.1 <= buf@.len(),
            Err(e) => decoding(*t, buf@, off as int) == Err::<(SpecValue, int), DecodeError>(e),
        },
    decreases *t, 0int, 0int,
{
    let len = buf.len();
    match t {
        TypeDesc::MapOf { key, value } => {
            if off < len && len - off >= 4 {
                let n32 = read_be4(buf, off);
                if n32 > 0x7fff_ffff {
                    return Err(DecodeError::IncompleteData);
                }
                let count = n32 as usize;
                let mut pairs: Vec<(WireValue, WireValue)> = Vec::new();
                let mut cur: usize = off + 4;
                let mut i: usize = 0;
                proof {
                    lemma_glue_neutral(
                        decoding_pair_run(*t, buf@, off as int + 4, count as int),
                    );
                }
                while i < count
                    invariant
                        i <= count,
                        off + 4 <= cur <= buf@.len(),
                        pairs@.len() == i,
                        forall|j: int|
                            0 <= j < i ==> conforms(sv((#[trigger] pairs@[j]).0), **key)
                                && conforms(sv(pairs@[j].1), **value),
                        *t == (TypeDesc::MapOf { key: *key, value: *value }),
                        decoding_pair_run(*t, buf@, off as int + 4, count as int) == glue(
                            sv_pairs(pairs@),
                            cur - (off + 4),
                            decoding_pair_run(*t, buf@, cur as int, count - i),
                        ),
                    decreases count - i,
                {
                    match read_value(key, buf, cur) {
                        Ok((kv, kn)) => {
                            match read_value(value, buf, cur + kn) {
                                Ok((vv, vn)) => {
                                    proof {
                                        lemma_sv_pairs_push(pairs@, (kv, vv));
                                        lemma_glue_assoc(
                                            sv_pairs(pairs@),
                                            cur - (off + 4),
                                            seq![(sv(kv), sv(vv))],
                                            kn + vn as int,
                                            decoding_pair_run(
                                                *t,
                                                buf@,
                                                cur + kn + vn as int,
                                                count - i - 1,
                                            ),
                                        );
                                    }
                                    pairs.push((kv, vv));
                                    cur = cur + kn + vn;
                                    i = i + 1;
                                },
                                Err(e) => {
                                    return Err(e);
                                },
                            }
                        },
                        Err(e) => {
                            return Err(e);
                        },
                    }
                }
                proof {
                    lemma_sv_pairs(pairs@);
                    assert(decoding_pair_run(*t, buf@, cur as int, 0) == Ok::<
                        (Seq<(SpecValue, SpecValue)>, int),
                        DecodeError,
                    >((Seq::empty(), 0)));
                    assert(sv_pairs(pairs@) + Seq::<(SpecValue, SpecValue)>::empty() =~= sv_pairs(
                        pairs@,
                    ));
                    lemma_wf_pairs_iff(sv_pairs(pairs@));
                    lemma_shape_pairs_iff(sv_pairs(pairs@), *key, *value);
                    assert forall|j: int| 0 <= j < sv_pairs(pairs@).len() implies wf_value(
                        #[trigger] sv_pairs(pairs@)[j].0,
                    ) && wf_value(sv_pairs(pairs@)[j].1) && has_shape(
                        sv_pairs(pairs@)[j].0,
                        **key,
                    ) && has_shape(sv_pairs(pairs@)[j].1, **value) by {
                        assert(conforms(sv(pairs@[j].0), **key));
                        assert(conforms(sv(pairs@[j].1), **value));
                    };
                }
                Ok((WireValue::MapV(pairs), cur - off))
            } else {
                Err(DecodeError::BufferOverflow)
            }
        },
        _ => Err(DecodeError::BufferOverflow),
    }
}

/// Read the value that `buf` holds at `off` when read at type `t`.  Returns
/// the value and the number of bytes consumed, or the decode error the
/// buffer provokes; a returned value always conforms to `t`.
#[verifier::loop_isolation(false)]
pub fn read_value(t: &TypeDesc, buf: &Vec<u8>, off: usize) -> (r: Result<
    (WireValue, usize),
    DecodeError,
>)
    ensures
        match r {
            Ok(p) => decoding(*t, buf@, off as int) == Ok::<(SpecValue, int), DecodeError>(
                (sv(p.0), p.1 as int),
            ) && conforms(sv(p.0), *t) && off + p.1 <= buf@.len(),
            Err(e) => decoding(*t, buf@, off as int) == Err::<(SpecValue, int), DecodeError>(e),
        },
    decreases *t, 1int, 0int,
{
    let len = buf.len();
    match t {
        TypeDesc::Optional { inner } => {
            if off < len {
                let tag = buf[off];
                if tag == 0 {
                    Ok((WireValue::Absent, 1))
                } else if tag == 1 {
                    match read_value(inner, buf, off + 1) {
                        Ok((v, n)) => Ok((WireValue::Present(Box::new(v)), 1 + n)),
                        Err(e) => Err(e),
                    }
                } else {
                    Err(DecodeError::UnexpectedOptionalTag)
                }
            } else {
                Err(DecodeError::BufferOverflow)
            }
        },
        TypeDesc::Sequence { .. } => read_sequence(t, buf, off),
        TypeDesc::MapOf { .. } => read_map(t, buf, off),
        TypeDesc::Record { name, fields } => {
            if off <= len {
                match read_fields(fields, buf, off) {
                    Ok((vals, n)) => {
                        proof {
                            lemma_sv_list(vals@);
                            lemma_wf_list_iff(sv_list(vals@));
                            lemma_shape_fields_iff(sv_list(vals@), fields@);
                            assert forall|j: int| 0 <= j < sv_list(vals@).len() implies wf_value(
                                #[trigger] sv_list(vals@)[j],
                            ) && has_shape(sv_list(vals@)[j], fields@[j].ty) by {
                                assert(conforms(sv(vals@[j]), fields@[j].ty));
                            };
                        }
                        Ok((WireValue::RecordV(vals), n))
                    },
                    Err(e) => Err(e),
                }
            } else {
                Err(DecodeError::BufferOverflow)
            }
        },
        TypeDesc::Enum { name, variants, flat } => {
            if off < len && len - off >= 4 {
                let d = read_be4(buf, off);
                if d >= 1 && d <= 0x7fff_ffff && (d as usize) <= variants.len() {
                    let idx = (d as usize) - 1;
                    match read_fields(&variants[idx].fields, buf, off + 4) {
                        Ok((vals, n)) => {
                            proof {
                                lemma_sv_list(vals@);
                                lemma_wf_list_iff(sv_list(vals@));
                                lemma_shape_fields_iff(sv_list(vals@), variants@[idx as int].fields@);
                                assert forall|j: int|
                                    0 <= j < sv_list(vals@).len() implies wf_value(
                                    #[trigger] sv_list(vals@)[j],
                                ) && has_shape(
                                    sv_list(vals@)[j],
                                    variants@[idx as int].fields@[j].ty,
                                ) by {
                                    assert(conforms(sv(vals@[j]), variants@[idx as int].fields@[j].ty));
                                };
                            }
                            Ok((WireValue::EnumV { index: idx, fields: vals }, 4 + n))
                        },
                        Err(e) => Err(e),
                    }
                } else {
                    Err(DecodeError::UnexpectedEnumCase)
                }
            } else {
                Err(DecodeError::BufferOverflow)
            }
        },
        TypeDesc::Custom { name, underlying } => read_value(underlying, buf, off),
        _ => read_scalar(t, buf, off),
    }
}

/// Read a run of fields in declaration order, as a record body or an enum
/// variant body.
#[verifier::loop_isolation(false)]
pub fn read_fields(fs: &Vec<FieldDesc>, buf: &Vec<u8>, off: usize) -> (r: Result<
    (Vec<WireValue>, usize),
    DecodeError,
>)
    requires
        off <= buf@.len(),
    ensures
        match r {
            Ok(p) => decoding_fields(fs@, buf@, off as int) == Ok::<
                (Seq<SpecValue>, int),
                DecodeError,
            >((sv_list(p.0@), p.1 as int)) && off + p.1 <= buf@.len() && p.0@.len() == fs@.len()
                && (forall|i: int|
                0 <= i < p.0@.len() ==> conforms(sv(#[trigger] p.0@[i]), fs@[i].ty)),
            Err(e) => decoding_fields(fs@, buf@, off as int) == Err::<
                (Seq<SpecValue>, int),
                DecodeError,
            >(e),
        },
    decreases fs@, 0int, 0int,
{
    let len = buf.len();
    let mut vals: Vec<WireValue> = Vec::new();
    let mut cur: usize = off;
    let mut i: usize = 0;
    proof {
        assert(fs@.skip(0) =~= fs@);
        lemma_glue_neutral(decoding_fields(fs@, buf@, off as int));
    }
    while i < fs.len()
        invariant
            i <= fs@.len(),
            off <= cur <= buf@.len(),
            vals@.len() == i,
            forall|j: int| 0 <= j < i ==> conforms(sv(#[trigger] vals@[j]), fs@[j].ty),
            decoding_fields(fs@, buf@, off as int) == glue(
                sv_list(vals@),
                cur - off,
                decoding_fields(fs@.skip(i as int), buf@, cur as int),
            ),
        decreases fs@.len() - i,
    {
        assert(fs@.skip(i as int)[0] == fs@[i as int]);
        match read_value(&fs[i].ty, buf, cur) {
            Ok((v, n)) => {
                proof {
                    assert(fs@.skip(i as int).drop_first() =~= fs@.skip(i as int + 1));
                    lemma_sv_list_push(vals@, v);
                    lemma_glue_assoc(
                        sv_list(vals@),
                        cur - off,
                        seq![sv(v)],
                        n as int,
                        decoding_fields(fs@.skip(i as int + 1), buf@, cur + n as int),
                    );
                }
                vals.push(v);
                cur = cur + n;
                i = i + 1;
            },
            Err(e) => {
                proof {
                    assert(fs@.skip(i as int).drop_first() =~= fs@.skip(i as int + 1));
                }
                return Err(e);
            },
        }
    }
    proof {
        assert(fs@.skip(fs@.len() as int).len() == 0);
        assert(sv_list(vals@) + Seq::<SpecValue>::empty() =~= sv_list(vals@));
    }
    Ok((vals, cur - off))
}


/// Splitting a run splits its encoding.
pub proof fn lemma_encoding_list_split(vs: Seq<SpecValue>, k: int)
    requires
        0 <= k <= vs.len(),
    ensures
        encoding_list(vs) == encoding_list(vs.take(k)) + encoding_list(vs.skip(k)),
    decreases k,
{
    if k == 0 {
        assert(vs.take(0) =~= Seq::<SpecValue>::empty());
        assert(vs.skip(0) =~= vs);
        assert(encoding_list(Seq::<SpecValue>::empty()) + encoding_list(vs) =~= encoding_list(vs));
    } else {
        lemma_encoding_list_split(vs, k - 1);
        assert(vs.take(k) =~= vs.take(k - 1).push(vs[k - 1]));
        lemma_encoding_list_push(vs.take(k - 1), vs[k - 1]);
        assert(vs.skip(k - 1)[0] == vs[k - 1]);
        assert(vs.skip(k - 1).drop_first() =~= vs.skip(k));
        assert(encoding_list(vs.skip(k - 1)) == encoding(vs[k - 1]) + encoding_list(vs.skip(k)));
        assert((encoding_list(vs.take(k - 1)) + encoding(vs[k - 1])) + encoding_list(vs.skip(k))
            =~= encoding_list(vs.take(k - 1)) + (encoding(vs[k - 1]) + encoding_list(vs.skip(k))));
    }
}

/// Write a value's exact wire encoding onto the end of `buf`.
#[verifier::loop_isolation(false)]
#[verifier::rlimit(60)]
pub fn write_value(v: &WireValue, buf: &mut Vec<u8>)
    requires
        wf_value(sv(*v)),
    ensures
        final(buf)@ == old(buf)@ + encoding(sv(*v)),
    decreases *v, 1int,
{
    match v {
        WireValue::Bool(b) => {
            buf.push(if *b { 1 } else { 0 });
            assert(buf@ =~= old(buf)@ + encoding(sv(*v)));
        },
        WireValue::U8(x) => {
            buf.push(*x);
            assert(buf@ =~= old(buf)@ + encoding(sv(*v)));
        },
        WireValue::I8(x) => {
            buf.push(#[verifier::truncate] (*x as u8));
            assert(buf@ =~= old(buf)@ + encoding(sv(*v)));
        },
        WireValue::U16(x) => {
            push_be2(buf, *x);
        },
        WireValue::I16(x) => {
            push_be2(buf, #[verifier::truncate] (*x as u16));
        },
        WireValue::U32(x) => {
            push_be4(buf, *x);
        },
        WireValue::I32(x) => {
            push_be4(buf, #[verifier::truncate] (*x as u32));
        },
        WireValue::U64(x) => {
            push_be8(buf, *x);
        },
        WireValue::I64(x) => {
            push_be8(buf, #[verifier::truncate] (*x as u64));
        },
        WireValue::F32Bits(x) => {
            push_be4(buf, *x);
        },
        WireValue::F64Bits(x) => {
            push_be8(buf, *x);
        },
        WireValue::Text(s) => {
            let mut bytes = s.as_str().as_bytes_vec();
            push_be4(buf, bytes.len() as u32);
            buf.append(&mut bytes);
            assert(buf@ =~= old(buf)@ + encoding(sv(*v)));
        },
        WireValue::Blob(b) => {
            push_be4(buf, b.len() as u32);
            buf.extend_from_slice(b.as_slice());
            assert(buf@ =~= old(buf)@ + encoding(sv(*v)));
        },
        WireValue::Dur { secs, nanos } => {
            push_be8(buf, *secs);
            push_be4(buf, *nanos);
            assert(buf@ =~= old(buf)@ + encoding(sv(*v)));
        },
        WireValue::Absent => {
            buf.push(0);
            assert(buf@ =~= old(buf)@ + encoding(sv(*v)));
        },
        WireValue::Present(inner) => {
            buf.push(1);
            write_value(inner, buf);
            assert(buf@ =~= old(buf)@ + encoding(sv(*v)));
        },
        WireValue::ListV(elems) => {
            proof {
                lemma_sv_list(elems@);
                lemma_wf_list_elems(elems@);
            }
            push_be4(buf, elems.len() as u32);
            write_run(elems, buf);
            assert(buf@ =~= old(buf)@ + encoding(sv(*v)));
        },
        WireValue::MapV(pairs) => {
            proof {
                lemma_sv_pairs(pairs@);
                lemma_wf_pair_elems(pairs@);
            }
            push_be4(buf, pairs.len() as u32);
            write_pair_run(pairs, buf);
            assert(buf@ =~= old(buf)@ + encoding(sv(*v)));
        },
        WireValue::RecordV(fields) => {
            proof {
                lemma_sv_list(fields@);
                lemma_wf_list_elems(fields@);
            }
            write_run(fields, buf);
            assert(buf@ =~= old(buf)@ + encoding(sv(*v)));
        },
        WireValue::EnumV { index, fields } => {
            proof {
                lemma_sv_list(fields@);
                lemma_wf_enum_fields(*index as int, fields@);
            }
            push_be4(buf, (*index + 1) as u32);
            write_run(fields, buf);
            assert(buf@ =~= old(buf)@ + encoding(sv(*v)));
        },
        WireValue::Handle(h) => {
            push_be8(buf, *h);
        },
    }
}

/// Write a run of values back to back.
#[verifier::loop_isolation(false)]
fn write_run(vals: &Vec<WireValue>, buf: &mut Vec<u8>)
    requires
        forall|i: int| 0 <= i < vals@.len() ==> wf_value(sv(#[trigger] vals@[i])),
    ensures
        final(buf)@ == old(buf)@ + encoding_list(sv_list(vals@)),
    decreases vals@, 0int,
{
    let mut i: usize = 0;
    proof {
        assert(vals@.take(0) =~= Seq::<WireValue>::empty());
    }
    while i < vals.len()
        invariant
            i <= vals@.len(),
            buf@ == old(buf)@ + encoding_list(sv_list(vals@.take(i as int))),
        decreases vals@.len() - i,
    {
        write_value(&vals[i], buf);
        proof {
            assert(vals@.take(i + 1) =~= vals@.take(i as int).push(vals@[i as int]));
            lemma_sv_list_push(vals@.take(i as int), vals@[i as int]);
            assert(sv_list(vals@.take(i as int)) + seq![sv(vals@[i as int])] =~= sv_list(
                vals@.take(i as int),
            ).push(sv(vals@[i as int])));
            lemma_encoding_list_push(sv_list(vals@.take(i as int)), sv(vals@[i as int]));
            assert((old(buf)@ + encoding_list(sv_list(vals@.take(i as int)))) + encoding(
                sv(vals@[i as int]),
            ) =~= old(buf)@ + (encoding_list(sv_list(vals@.take(i as int))) + encoding(
                sv(vals@[i as int]),
            )));
        }
        i = i + 1;
    }
    proof {
        assert(vals@.take(vals@.len() as int) =~= vals@);
    }
}

/// Write a run of key-value pairs back to back.
#[verifier::loop_isolation(false)]
fn write_pair_run(pairs: &Vec<(WireValue, WireValue)>, buf: &mut Vec<u8>)
    requires
        forall|i: int|
            0 <= i < pairs@.len() ==> wf_value(sv((#[trigger] pairs@[i]).0)) && wf_value(
                sv(pairs@[i].1),
            ),
    ensures
        final(buf)@ == old(buf)@ + encoding_pairs(sv_pairs(pairs@)),
    decreases pairs@, 0int,
{
    let mut i: usize = 0;
    proof {
        assert(pairs@.take(0) =~= Seq::<(WireValue, WireValue)>::empty());
    }
    while i < pairs.len()
        invariant
            i <= pairs@.len(),
            buf@ == old(buf)@ + encoding_pairs(sv_pairs(pairs@.take(i as int))),
        decreases pairs@.len() - i,
    {
        write_value(&pairs[i].0, buf);
        write_value(&pairs[i].1, buf);
        proof {
            assert(pairs@.take(i + 1) =~= pairs@.take(i as int).push(pairs@[i as int]));
            lemma_sv_pairs_push(pairs@.take(i as int), pairs@[i as int]);
            assert(sv_pairs(pairs@.take(i as int)) + seq![
                (sv(pairs@[i as int].0), sv(pairs@[i as int].1)),
            ] =~= sv_pairs(pairs@.take(i as int)).push(
                (sv(pairs@[i as int].0), sv(pairs@[i as int].1)),
            ));
            lemma_encoding_pairs_push(
                sv_pairs(pairs@.take(i as int)),
                (sv(pairs@[i as int].0), sv(pairs@[i as int].1)),
            );
            assert(((old(buf)@ + encoding_pairs(sv_pairs(pairs@.take(i as int)))) + encoding(
                sv(pairs@[i as int].0),
            )) + encoding(sv(pairs@[i as int].1)) =~= old(buf)@ + ((encoding_pairs(
                sv_pairs(pairs@.take(i as int)),
            ) + encoding(sv(pairs@[i as int].0))) + encoding(sv(pairs@[i as int].1))));
        }
        i = i + 1;
    }
    proof {
        assert(pairs@.take(pairs@.len() as int) =~= pairs@);
    }
}

/// Produce the whole wire image of a value: what crosses the boundary when
/// the value is lowered.
pub fn lower(v: &WireValue) -> (r: Vec<u8>)
    requires
        wf_value(sv(*v)),
    ensures
        r@ == encoding(sv(*v)),
{
    let mut buf: Vec<u8> = Vec::new();
    write_value(v, &mut buf);
    buf
}

/// Decode a whole wire image at type `t` from its start.
pub fn lift(t: &TypeDesc, buf: &Vec<u8>) -> (r: Result<(WireValue, usize), DecodeError>)
    ensures
        match r {
            Ok(p) => decoding(*t, buf@, 0) == Ok::<(SpecValue, int), DecodeError>(
                (sv(p.0), p.1 as int),
            ) && conforms(sv(p.0), *t) && p.1 <= buf@.len(),
            Err(e) => decoding(*t, buf@, 0) == Err::<(SpecValue, int), DecodeError>(e),
        },
{
    read_value(t, buf, 0)
}


/// Splitting a run of pairs splits its encoding.
pub proof fn lemma_encoding_pairs_split(ps: Seq<(SpecValue, SpecValue)>, k: int)
    requires
        0 <= k <= ps.len(),
    ensures
        encoding_pairs(ps) == encoding_pairs(ps.take(k)) + encoding_pairs(ps.skip(k)),
    decreases k,
{
    if k == 0 {
        assert(ps.take(0) =~= Seq::<(SpecValue, SpecValue)>::empty());
        assert(ps.skip(0) =~= ps);
        assert(encoding_pairs(Seq::<(SpecValue, SpecValue)>::empty()) + encoding_pairs(ps)
            =~= encoding_pairs(ps));
    } else {
        lemma_encoding_pairs_split(ps, k - 1);
        assert(ps.take(k) =~= ps.take(k - 1).push(ps[k - 1]));
        lemma_encoding_pairs_push(ps.take(k - 1), ps[k - 1]);
        assert(ps.skip(k - 1)[0] == ps[k - 1]);
        assert(ps.skip(k - 1).drop_first() =~= ps.skip(k));
        assert(encoding_pairs(ps.skip(k - 1)) == encoding(ps[k - 1].0) + encoding(ps[k - 1].1)
            + encoding_pairs(ps.skip(k)));
        assert(((encoding_pairs(ps.take(k - 1)) + encoding(ps[k - 1].0)) + encoding(ps[k - 1].1))
            + encoding_pairs(ps.skip(k)) =~= encoding_pairs(ps.take(k - 1)) + ((encoding(
            ps[k - 1].0,
        ) + encoding(ps[k - 1].1)) + encoding_pairs(ps.skip(k))));
    }
}

/// The exact number of bytes the value takes on the wire: what a caller
/// must pre-allocate before a positional write.
#[verifier::loop_isolation(false)]
#[verifier::rlimit(60)]
pub fn size_value(v: &WireValue) -> (r: usize)
    requires
        encoding(sv(*v)).len() <= usize::MAX,
    ensures
        r == encoding(sv(*v)).len(),
    decreases *v, 1int,
{
    match v {
        WireValue::Bool(_) => 1,
        WireValue::U8(_) => 1,
        WireValue::I8(_) => 1,
        WireValue::U16(_) => 2,
        WireValue::I16(_) => 2,
        WireValue::U32(_) => 4,
        WireValue::I32(_) => 4,
        WireValue::U64(_) => 8,
        WireValue::I64(_) => 8,
        WireValue::F32Bits(_) => 4,
        WireValue::F64Bits(_) => 8,
        WireValue::Text(s) => 4 + s.as_str().len(),
        WireValue::Blob(b) => 4 + b.len(),
        WireValue::Dur { .. } => 12,
        WireValue::Absent => 1,
        WireValue::Present(inner) => 1 + size_value(inner),
        WireValue::ListV(elems) => {
            proof {
                lemma_sv_list(elems@);
            }
            4 + size_run(elems)
        },
        WireValue::MapV(pairs) => {
            proof {
                lemma_sv_pairs(pairs@);
            }
            4 + size_pair_run(pairs)
        },
        WireValue::RecordV(fields) => {
            proof {
                lemma_sv_list(fields@);
            }
            size_run(fields)
        },
        WireValue::EnumV { index, fields } => {
            proof {
                lemma_sv_list(fields@);
            }
            4 + size_run(fields)
        },
        WireValue::Handle(_) => 8,
    }
}

/// The number of bytes a run of values takes, back to back.
#[verifier::loop_isolation(false)]
fn size_run(vals: &Vec<WireValue>) -> (r: usize)
    requires
        encoding_list(sv_list(vals@)).len() <= usize::MAX,
    ensures
        r == encoding_list(sv_list(vals@)).len(),
    decreases vals@, 0int,
{
    let ghost full = sv_list(vals@);
    proof {
        lemma_sv_list(vals@);
        assert(full.take(0) =~= Seq::<SpecValue>::empty());
    }
    let mut acc: usize = 0;
    let mut i: usize = 0;
    while i < vals.len()
        invariant
            i <= vals@.len(),
            acc == encoding_list(full.take(i as int)).len(),
        decreases vals@.len() - i,
    {
        proof {
            lemma_encoding_list_split(full, i as int);
            assert(full.skip(i as int)[0] == full[i as int]);
            assert(full.skip(i as int).drop_first() =~= full.skip(i as int + 1));
            assert(encoding_list(full.skip(i as int)) == encoding(full[i as int]) + encoding_list(
                full.skip(i as int + 1),
            ));
            assert(full.take(i + 1) =~= full.take(i as int).push(full[i as int]));
            lemma_encoding_list_push(full.take(i as int), full[i as int]);
        }
        let n = size_value(&vals[i]);
        acc = acc + n;
        i = i + 1;
    }
    proof {
        assert(full.take(vals@.len() as int) =~= full);
    }
    acc
}

/// The number of bytes a run of key-value pairs takes, back to back.
#[verifier::loop_isolation(false)]
fn size_pair_run(pairs: &Vec<(WireValue, WireValue)>) -> (r: usize)
    requires
        encoding_pairs(sv_pairs(pairs@)).len() <= usize::MAX,
    ensures
        r == encoding_pairs(sv_pairs(pairs@)).len(),
    decreases pairs@, 0int,
{
    let ghost full = sv_pairs(pairs@);
    proof {
        lemma_sv_pairs(pairs@);
        assert(full.take(0) =~= Seq::<(SpecValue, SpecValue)>::empty());
    }
    let mut acc: usize = 0;
    let mut i: usize = 0;
    while i < pairs.len()
        invariant
            i <= pairs@.len(),
            acc == encoding_pairs(full.take(i as int)).len(),
        decreases pairs@.len() - i,
    {
        proof {
            lemma_encoding_pairs_split(full, i as int);
            assert(full.skip(i as int)[0] == full[i as int]);
            assert(full.skip(i as int).drop_first() =~= full.skip(i as int + 1));
            assert(encoding_pairs(full.skip(i as int)) == encoding(full[i as int].0) + encoding(
                full[i as int].1,
            ) + encoding_pairs(full.skip(i as int + 1)));
            assert(full.take(i + 1) =~= full.take(i as int).push(full[i as int]));
            lemma_encoding_pairs_push(full.take(i as int), full[i as int]);
        }
        let kn = size_value(&pairs[i].0);
        let vn = size_value(&pairs[i].1);
        acc = acc + kn + vn;
        i = i + 1;
    }
    proof {
        assert(full.take(pairs@.len() as int) =~= full);
    }
    acc
}


/// A window that holds a concatenation splits into two adjacent windows.
pub proof fn lemma_window_split(bytes: Seq<u8>, off: int, a: Seq<u8>, b: Seq<u8>)
    requires
        0 <= off,
        off + a.len() + b.len() <= bytes.len(),
        bytes.subrange(off, off + a.len() + b.len()) == a + b,
    ensures
        bytes.subrange(off, off + a.len() as int) == a,
        bytes.subrange(off + a.len() as int, off + a.len() + b.len()) == b,
{
    let w = bytes.subrange(off, off + a.len() + b.len());
    assert forall|i: int|
        0 <= i < a.len() implies bytes.subrange(off, off + a.len() as int)[i] == a[i] by {
        assert(w[i] == bytes[off + i]);
        assert(w[i] == (a + b)[i]);
        assert((a + b)[i] == a[i]);
        assert(bytes.subrange(off, off + a.len() as int)[i] == bytes[off + i]);
    };
    assert(bytes.subrange(off, off + a.len() as int) =~= a);
    assert forall|i: int|
        0 <= i < b.len() implies bytes.subrange(
        off + a.len() as int,
        off + a.len() + b.len(),
    )[i] == b[i] by {
        assert(w[a.len() + i] == bytes[off + a.len() + i]);
        assert(w[a.len() + i] == (a + b)[a.len() + i]);
        assert((a + b)[a.len() + i] == b[i]);
        assert(bytes.subrange(off + a.len() as int, off + a.len() + b.len())[i] == bytes[off
            + a.len() + i]);
    };
    assert(bytes.subrange(off + a.len() as int, off + a.len() + b.len()) =~= b);
}

/// Reading a scalar value's own encoding gives the value back.
#[verifier::rlimit(60)]
proof fn lemma_decode_encode_scalar(t: TypeDesc, v: SpecValue, bytes: Seq<u8>, off: int)
    requires
        t.is_primitive() || t matches TypeDesc::Object { .. },
        conforms(v, t),
        0 <= off,
        off + encoding(v).len() <= bytes.len(),
        bytes.subrange(off, off + encoding(v).len() as int) == encoding(v),
    ensures
        decoding(t, bytes, off) == Ok::<(SpecValue, int), DecodeError>(
            (v, encoding(v).len() as int),
        ),
{
    let enc = encoding(v);
    let w = bytes.subrange(off, off + enc.len() as int);
    assert forall|i: int| 0 <= i < enc.len() implies bytes[off + i] == #[trigger] enc[i] by {
        assert(w[i] == bytes[off + i]);
        assert(w[i] == enc[i]);
    };
    match v {
        SpecValue::Bool(b) => {
            assert(bytes[off] == enc[0]);
        },
        SpecValue::U8(x) => {
            assert(bytes[off] == enc[0]);
        },
        SpecValue::I8(x) => {
            assert(bytes[off] == enc[0]);
            crate::wire::lemma_i8_cast_round(x);
        },
        SpecValue::U16(x) => {
            assert(bytes[off] == be2(x)[0] && bytes[off + 1] == be2(x)[1]);
            crate::wire::lemma_be2_round(x);
        },
        SpecValue::I16(x) => {
            assert(bytes[off] == be2(x as u16)[0] && bytes[off + 1] == be2(x as u16)[1]);
            crate::wire::lemma_be2_round(x as u16);
            crate::wire::lemma_i16_cast_round(x);
        },
        SpecValue::U32(x) => {
            assert(forall|i: int| 0 <= i < 4 ==> bytes[off + i] == #[trigger] be4(x)[i]);
            crate::wire::lemma_be4_round(x);
        },
        SpecValue::I32(x) => {
            assert(forall|i: int| 0 <= i < 4 ==> bytes[off + i] == #[trigger] be4(x as u32)[i]);
            crate::wire::lemma_be4_round(x as u32);
            crate::wire::lemma_i32_cast_round(x);
        },
        SpecValue::F32Bits(x) => {
            assert(forall|i: int| 0 <= i < 4 ==> bytes[off + i] == #[trigger] be4(x)[i]);
            crate::wire::lemma_be4_round(x);
        },
        SpecValue::U64(x) => {
            assert(forall|i: int| 0 <= i < 8 ==> bytes[off + i] == #[trigger] be8(x)[i]);
            crate::wire::lemma_be8_round(x);
        },
        SpecValue::I64(x) => {
            assert(forall|i: int| 0 <= i < 8 ==> bytes[off + i] == #[trigger] be8(x as u64)[i]);
            crate::wire::lemma_be8_round(x as u64);
            crate::wire::lemma_i64_cast_round(x);
        },
        SpecValue::F64Bits(x) => {
            assert(forall|i: int| 0 <= i < 8 ==> bytes[off + i] == #[trigger] be8(x)[i]);
            crate::wire::lemma_be8_round(x);
        },
        SpecValue::Handle(h) => {
            assert(forall|i: int| 0 <= i < 8 ==> bytes[off + i] == #[trigger] be8(h)[i]);
            crate::wire::lemma_be8_round(h);
        },
        SpecValue::Dur { secs, nanos } => {
            assert(forall|i: int| 0 <= i < 8 ==> bytes[off + i] == #[trigger] be8(secs)[i]) by {
                assert(forall|i: int| 0 <= i < 8 ==> #[trigger] be8(secs)[i] == enc[i]);
            }
            assert(forall|i: int|
                0 <= i < 4 ==> bytes[off + 8 + i] == #[trigger] be4(nanos)[i]) by {
                assert(forall|i: int|
                    0 <= i < 4 ==> #[trigger] be4(nanos)[i] == enc[8 + i]);
            }
            crate::wire::lemma_be8_round(secs);
            crate::wire::lemma_be4_round(nanos);
        },
        SpecValue::Text(cs) => {
            let u = vstd::utf8::encode_utf8(cs);
            let n = u.len() as int;
            lemma_window_split(bytes, off, crate::wire::be4(n as u32), u);
            assert(forall|i: int| 0 <= i < 4 ==> bytes[off + i] == #[trigger] be4(n as u32)[i]);
            crate::wire::lemma_be4_round(n as u32);
            assert(read4_at(bytes, off) == n as u32);
            assert(read4_at(bytes, off) as int == n);
            assert(bytes.subrange(off + 4, off + 4 + n) == u);
            vstd::utf8::encode_utf8_valid_utf8(cs);
            vstd::utf8::encode_utf8_decode_utf8(cs);
        },
        SpecValue::Blob(bs) => {
            let n = bs.len() as int;
            lemma_window_split(bytes, off, crate::wire::be4(n as u32), bs);
            assert(forall|i: int| 0 <= i < 4 ==> bytes[off + i] == #[trigger] be4(n as u32)[i]);
            crate::wire::lemma_be4_round(n as u32);
            assert(read4_at(bytes, off) as int == n);
            assert(bytes.subrange(off + 4, off + 4 + n) == bs);
        },
        _ => {
            assert(false);
        },
    }
}

/// Reading a value's own encoding at its type gives the value back, with
/// exactly its encoding consumed: the round trip that makes lowering and
/// lifting inverses, for every conforming value of every type.
#[verifier::rlimit(60)]
pub proof fn lemma_decode_encode(t: TypeDesc, v: SpecValue, bytes: Seq<u8>, off: int)
    requires
        conforms(v, t),
        0 <= off,
        off + encoding(v).len() <= bytes.len(),
        bytes.subrange(off, off + encoding(v).len() as int) == encoding(v),
    ensures
        decoding(t, bytes, off) == Ok::<(SpecValue, int), DecodeError>(
            (v, encoding(v).len() as int),
        ),
    decreases t, 1int, 0int,
{
    let enc = encoding(v);
    match t {
        TypeDesc::Optional { inner } => {
            match v {
                SpecValue::Absent => {
                    assert(bytes[off] == 0) by {
                        assert(bytes.subrange(off, off + 1)[0] == bytes[off]);
                    }
                },
                SpecValue::Present(x) => {
                    lemma_window_split(bytes, off, seq![1u8], encoding(*x));
                    assert(bytes[off] == 1) by {
                        assert(bytes.subrange(off, off + 1)[0] == bytes[off]);
                    }
                    lemma_decode_encode(*inner, *x, bytes, off + 1);
                },
                _ => {
                    assert(false);
                },
            }
        },
        TypeDesc::Sequence { inner } => {
            match v {
                SpecValue::ListV(es) => {
                    let n = es.len() as int;
                    lemma_window_split(bytes, off, crate::wire::be4(n as u32), encoding_list(es));
                    assert(forall|i: int|
                        0 <= i < 4 ==> bytes[off + i] == #[trigger] be4(n as u32)[i]) by {
                        assert(forall|i: int|
                            0 <= i < 4 ==> #[trigger] be4(n as u32)[i] == bytes.subrange(
                                off,
                                off + 4,
                            )[i]);
                    }
                    crate::wire::lemma_be4_round(n as u32);
                    assert(read4_at(bytes, off) as int == n);
                    lemma_decode_encode_run(TypeDesc::Sequence { inner }, es, bytes, off + 4);
                },
                _ => {
                    assert(false);
                },
            }
        },
        TypeDesc::MapOf { key, value } => {
            match v {
                SpecValue::MapV(ps) => {
                    let n = ps.len() as int;
                    lemma_window_split(bytes, off, crate::wire::be4(n as u32), encoding_pairs(ps));
                    assert(forall|i: int|
                        0 <= i < 4 ==> bytes[off + i] == #[trigger] be4(n as u32)[i]) by {
                        assert(forall|i: int|
                            0 <= i < 4 ==> #[trigger] be4(n as u32)[i] == bytes.subrange(
                                off,
                                off + 4,
                            )[i]);
                    }
                    crate::wire::lemma_be4_round(n as u32);
                    assert(read4_at(bytes, off) as int == n);
                    lemma_decode_encode_pair_run(TypeDesc::MapOf { key, value }, ps, bytes, off + 4);
                },
                _ => {
                    assert(false);
                },
            }
        },
        TypeDesc::Record { name, fields } => {
            match v {
                SpecValue::RecordV(vals) => {
                    lemma_decode_encode_fields(fields@, vals, bytes, off);
                },
                _ => {
                    assert(false);
                },
            }
        },
        TypeDesc::Enum { name, variants, flat } => {
            match v {
                SpecValue::EnumV { index, fields } => {
                    let d = index + 1;
                    lemma_window_split(
                        bytes,
                        off,
                        crate::wire::be4(d as u32),
                        encoding_list(fields),
                    );
                    assert(forall|i: int|
                        0 <= i < 4 ==> bytes[off + i] == #[trigger] be4(d as u32)[i]) by {
                        assert(forall|i: int|
                            0 <= i < 4 ==> #[trigger] be4(d as u32)[i] == bytes.subrange(
                                off,
                                off + 4,
                            )[i]);
                    }
                    crate::wire::lemma_be4_round(d as u32);
                    assert(read4_at(bytes, off) as int == d);
                    crate::value::lemma_shape_fields_iff(fields, variants@[index].fields@);
                    lemma_decode_encode_fields(variants@[index].fields@, fields, bytes, off + 4);
                },
                _ => {
                    assert(false);
                },
            }
        },
        TypeDesc::Custom { name, underlying } => {
            lemma_decode_encode(*underlying, v, bytes, off);
        },
        _ => {
            lemma_decode_encode_scalar(t, v, bytes, off);
        },
    }
}

/// Round trip for a run of sequence elements.
proof fn lemma_decode_encode_run(t: TypeDesc, vs: Seq<SpecValue>, bytes: Seq<u8>, off: int)
    requires
        t matches TypeDesc::Sequence { .. },
        crate::value::shape_list(vs, t),
        crate::value::wf_list(vs),
        0 <= off,
        off + encoding_list(vs).len() <= bytes.len(),
        bytes.subrange(off, off + encoding_list(vs).len() as int) == encoding_list(vs),
    ensures
        decoding_run(t, bytes, off, vs.len() as int) == Ok::<(Seq<SpecValue>, int), DecodeError>(
            (vs, encoding_list(vs).len() as int),
        ),
    decreases t, 0int, vs.len(),
{
    if vs.len() == 0 {
        assert(decoding_run(t, bytes, off, 0) == Ok::<(Seq<SpecValue>, int), DecodeError>(
            (Seq::empty(), 0),
        ));
        assert(vs =~= Seq::<SpecValue>::empty());
    } else {
        match t {
            TypeDesc::Sequence { inner } => {
                let rest = vs.drop_first();
                lemma_window_split(bytes, off, encoding(vs[0]), encoding_list(rest));
                lemma_decode_encode(*inner, vs[0], bytes, off);
                lemma_decode_encode_run(t, rest, bytes, off + encoding(vs[0]).len());
                assert(seq![vs[0]] + rest =~= vs);
            },
            _ => {},
        }
    }
}

/// Round trip for a run of key-value pairs.
proof fn lemma_decode_encode_pair_run(
    t: TypeDesc,
    ps: Seq<(SpecValue, SpecValue)>,
    bytes: Seq<u8>,
    off: int,
)
    requires
        t matches TypeDesc::MapOf { .. },
        crate::value::shape_pairs(ps, t),
        crate::value::wf_pairs(ps),
        0 <= off,
        off + encoding_pairs(ps).len() <= bytes.len(),
        bytes.subrange(off, off + encoding_pairs(ps).len() as int) == encoding_pairs(ps),
    ensures
        decoding_pair_run(t, bytes, off, ps.len() as int) == Ok::<
            (Seq<(SpecValue, SpecValue)>, int),
            DecodeError,
        >((ps, encoding_pairs(ps).len() as int)),
    decreases t, 0int, ps.len(),
{
    if ps.len() == 0 {
        assert(decoding_pair_run(t, bytes, off, 0) == Ok::<
            (Seq<(SpecValue, SpecValue)>, int),
            DecodeError,
        >((Seq::empty(), 0)));
        assert(ps =~= Seq::<(SpecValue, SpecValue)>::empty());
    } else {
        match t {
            TypeDesc::MapOf { key, value } => {
                let rest = ps.drop_first();
                let ka = encoding(ps[0].0);
                let va = encoding(ps[0].1);
                assert(encoding_pairs(ps) == ka + va + encoding_pairs(rest));
                assert((ka + va) + encoding_pairs(rest) =~= ka + (va + encoding_pairs(rest)));
                lemma_window_split(bytes, off, ka, va + encoding_pairs(rest));
                lemma_window_split(bytes, off + ka.len() as int, va, encoding_pairs(rest));
                lemma_decode_encode(*key, ps[0].0, bytes, off);
                lemma_decode_encode(*value, ps[0].1, bytes, off + ka.len());
                lemma_decode_encode_pair_run(t, rest, bytes, off + ka.len() + va.len());
                assert(seq![(ps[0].0, ps[0].1)] + rest =~= ps);
            },
            _ => {},
        }
    }
}

/// Round trip for the fields of a record or enum variant.
proof fn lemma_decode_encode_fields(
    fs: Seq<FieldDesc>,
    vals: Seq<SpecValue>,
    bytes: Seq<u8>,
    off: int,
)
    requires
        crate::value::shape_fields(vals, fs),
        crate::value::wf_list(vals),
        0 <= off,
        off + encoding_list(vals).len() <= bytes.len(),
        bytes.subrange(off, off + encoding_list(vals).len() as int) == encoding_list(vals),
    ensures
        decoding_fields(fs, bytes, off) == Ok::<(Seq<SpecValue>, int), DecodeError>(
            (vals, encoding_list(vals).len() as int),
        ),
    decreases fs, 0int, 0int,
{
    if fs.len() == 0 {
        assert(vals =~= Seq::<SpecValue>::empty());
    } else {
        let rest = vals.drop_first();
        lemma_window_split(bytes, off, encoding(vals[0]), encoding_list(rest));
        lemma_decode_encode(fs[0].ty, vals[0], bytes, off);
        lemma_decode_encode_fields(fs.drop_first(), rest, bytes, off + encoding(vals[0]).len());
        assert(seq![vals[0]] + rest =~= vals);
    }
}

/// Lifting what lowering produced gives the original value back and
/// consumes the whole image: the codec round trip.
pub proof fn lemma_lift_lower_round_trip(t: TypeDesc, v: SpecValue)
    requires
        conforms(v, t),
    ensures
        decoding(t, encoding(v), 0) == Ok::<(SpecValue, int), DecodeError>(
            (v, encoding(v).len() as int),
        ),
{
    assert(encoding(v).subrange(0, encoding(v).len() as int) =~= encoding(v));
    lemma_decode_encode(t, v, encoding(v), 0);
}

/// An absent optional is a single tag byte: decoding it consumes exactly
/// one byte and never touches payload positions.
pub proof fn lemma_absent_consumes_one_byte(inner: Box<TypeDesc>, bytes: Seq<u8>, off: int)
    requires
        0 <= off < bytes.len(),
        bytes[off] == 0,
    ensures
        decoding(TypeDesc::Optional { inner }, bytes, off) == Ok::<
            (SpecValue, int),
            DecodeError,
        >((SpecValue::Absent, 1)),
{
}

/// A flat enum value is nothing but its four-byte discriminant, the
/// declaration index plus one; discriminant zero is never produced.
pub proof fn lemma_flat_enum_discriminant(index: int)
    requires
        0 <= index,
        index + 1 <= 0x7fff_ffff,
    ensures
        encoding(SpecValue::EnumV { index, fields: Seq::empty() }) == crate::wire::be4(
            (index + 1) as u32,
        ),
        (index + 1) as u32 != 0,
{
    assert(encoding_list(Seq::<SpecValue>::empty()) == Seq::<u8>::empty());
    assert(crate::wire::be4((index + 1) as u32) + Seq::<u8>::empty() =~= crate::wire::be4(
        (index + 1) as u32,
    ));
}

/// A discriminant of zero, or one past the declared variants, is the
/// unexpected-enum-case fault, never a value.
pub proof fn lemma_enum_unknown_discriminant(
    name: String,
    variants: Vec<crate::interface::VariantDesc>,
    flat: bool,
    bytes: Seq<u8>,
    off: int,
)
    requires
        0 <= off,
        off + 4 <= bytes.len(),
        read4_at(bytes, off) == 0 || read4_at(bytes, off) as int > variants@.len(),
    ensures
        decoding(TypeDesc::Enum { name, variants, flat }, bytes, off) == Err::<
            (SpecValue, int),
            DecodeError,
        >(DecodeError::UnexpectedEnumCase),
{
}

} // verus!
