//! Rendering default literals as host-language source text.

use vstd::prelude::*;
use vstd::string::StringExecFns;
use crate::interface::LiteralDesc;
use crate::interface::RadixDesc;
use crate::interface::TypeDesc;
use crate::naming::upper_camel_of;
use crate::numerals::bool_text;
use crate::numerals::bool_str;
use crate::numerals::dec_digits;
use crate::numerals::dec_i64;
use crate::numerals::dec_int;
use crate::numerals::dec_u64;
use crate::numerals::hex_digits;
use crate::numerals::push_hex_u64;

verus! {

/// Whether a type may carry a numeric literal.
pub open spec fn numeric_literal_type(t: TypeDesc) -> bool {
    match t {
        TypeDesc::Int8 | TypeDesc::UInt8 | TypeDesc::Int16 | TypeDesc::UInt16 | TypeDesc::Int32
            | TypeDesc::UInt32 | TypeDesc::UInt64 | TypeDesc::Float32 | TypeDesc::Float64
            | TypeDesc::Duration => true,
        _ => false,
    }
}

/// Whether a literal can be rendered: numeric literals must sit on a
/// numeric type, and the literal kind must be one the surface knows.
pub open spec fn renderable_literal(l: LiteralDesc) -> bool {
    match l {
        LiteralDesc::Boolean(_) => true,
        LiteralDesc::Str(_) => true,
        LiteralDesc::Int(v, radix, t) => numeric_literal_type(t),
        LiteralDesc::UInt(v, radix, t) => numeric_literal_type(t),
        LiteralDesc::Float(text, t) => numeric_literal_type(t),
        LiteralDesc::EnumVariant(_) => true,
        LiteralDesc::NullValue => true,
        LiteralDesc::EmptySequence => true,
        LiteralDesc::EmptyMap => true,
    }
}

/// The source image of a signed numeric literal in a radix: decimal as
/// written, the other radixes through the hexadecimal form.
pub open spec fn int_literal_text(v: int, radix: RadixDesc) -> Seq<char> {
    if radix == RadixDesc::Decimal {
        dec_int(v)
    } else {
        if v < 0 {
            seq!['-'] + "0x"@ + hex_digits((-v) as nat)
        } else {
            "0x"@ + hex_digits(v as nat)
        }
    }
}

/// The source image of an unsigned numeric literal in a radix.
pub open spec fn uint_literal_text(v: nat, radix: RadixDesc) -> Seq<char> {
    if radix == RadixDesc::Decimal {
        dec_digits(v)
    } else {
        "0x"@ + hex_digits(v)
    }
}

/// The source image of a default literal.
pub open spec fn literal_text(l: LiteralDesc) -> Seq<char> {
    match l {
        LiteralDesc::Boolean(b) => bool_text(b),
        LiteralDesc::Str(s) => seq!['"'] + s@ + seq!['"'],
        LiteralDesc::Int(v, radix, t) => int_literal_text(v as int, radix),
        LiteralDesc::UInt(v, radix, t) => uint_literal_text(v as nat, radix),
        LiteralDesc::Float(text, t) => text@,
        LiteralDesc::NullValue => "null"@,
        LiteralDesc::EmptySequence => "[]"@,
        LiteralDesc::EmptyMap => "{}"@,
        LiteralDesc::EnumVariant(name) => upper_camel_of(name@),
    }
}

/// The source text of a default literal.
pub fn render_literal(l: &LiteralDesc) -> (r: String)
    requires
        renderable_literal(*l),
    ensures
        r@ == literal_text(*l),
{
    match l {
        LiteralDesc::Boolean(b) => String::from_str(bool_str(*b)),
        LiteralDesc::Str(s) => {
            let mut out = String::from_str("\"");
            out.append(s.as_str());
            out.append("\"");
            proof {
                reveal_strlit("\"");
                assert(seq!['"'] + s@ + seq!['"'] =~= "\""@ + s@ + "\""@);
            }
            out
        },
        LiteralDesc::Int(v, radix, t) => {
            if *radix == RadixDesc::Decimal {
                dec_i64(*v)
            } else {
                let mut out = String::new();
                if *v < 0 {
                    out.append("-");
                    proof {
                        reveal_strlit("-");
                    }
                }
                out.append("0x");
                let mag: u64 = if *v < 0 {
                    if *v == i64::MIN {
                        0x8000_0000_0000_0000u64
                    } else {
                        (-*v) as u64
                    }
                } else {
                    *v as u64
                };
                push_hex_u64(&mut out, mag);
                proof {
                    if *v < 0 {
                        assert(out@ =~= seq!['-'] + "0x"@ + hex_digits(mag as nat));
                        assert(seq!['-'] =~= "-"@);
                        assert(out@ =~= int_literal_text(*v as int, *radix));
                    } else {
                        assert(out@ =~= "0x"@ + hex_digits(mag as nat));
                    }
                }
                out
            }
        },
        LiteralDesc::UInt(v, radix, t) => {
            if *radix == RadixDesc::Decimal {
                dec_u64(*v)
            } else {
                let mut out = String::from_str("0x");
                push_hex_u64(&mut out, *v);
                out
            }
        },
        LiteralDesc::Float(text, t) => text.clone(),
        LiteralDesc::NullValue => String::from_str("null"),
        LiteralDesc::EmptySequence => String::from_str("[]"),
        LiteralDesc::EmptyMap => String::from_str("{}"),
        LiteralDesc::EnumVariant(name) => crate::naming::class_name(name.as_str()),
    }
}

} // verus!
