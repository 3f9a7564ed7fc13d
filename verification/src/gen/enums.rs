//! The declaration model of an enum, flat or tagged.
//!
//! Every variant's wire discriminant is fixed here as its 0-based
//! declaration index plus one — discriminant zero is never assigned — and a
//! tagged variant's fields keep declaration order, exactly as the codec
//! writes them.

use vstd::prelude::*;
use vstd::string::StringExecFns;
use crate::gen::records::field_gen_matches;
use crate::gen::records::generate_fields;
use crate::gen::records::FieldGen;
use crate::interface::EnumDesc;
use crate::naming::class_name;
use crate::naming::upper_camel_of;

verus! {

/// One declared variant: its surface name, the class its payload form
/// takes, its wire discriminant, and its field slots in order.
#[derive(Debug)]
pub struct VariantGen {
    pub name: String,
    pub class_name: String,
    pub discriminant: u32,
    pub fields: Vec<FieldGen>,
}

/// The declaration model of an enum.
#[derive(Debug)]
pub struct EnumGen {
    pub class_name: String,
    pub converter_name: String,
    pub flat: bool,
    pub variants: Vec<VariantGen>,
}

/// Whether an enum model speaks for an enum declaration: the names follow
/// the declaration, the variant order is kept, the discriminant of the
/// variant at index `i` is `i + 1`, and each variant's fields are modelled
/// in declaration order.
pub open spec fn enum_gen_matches(g: EnumGen, d: EnumDesc) -> bool {
    &&& g.class_name@ == upper_camel_of(d.name@)
    &&& g.converter_name@ == "FfiConverter"@ + upper_camel_of(d.name@)
    &&& g.flat == d.flat
    &&& g.variants@.len() == d.variants@.len()
    &&& forall|i: int|
        0 <= i < g.variants@.len() ==> {
            let v = #[trigger] g.variants@[i];
            &&& v.name@ == upper_camel_of(d.variants@[i].name@)
            &&& v.class_name@ == upper_camel_of(d.variants@[i].name@) + upper_camel_of(d.name@)
            &&& v.discriminant == i + 1
            &&& v.fields@.len() == d.variants@[i].fields@.len()
            &&& forall|j: int|
                0 <= j < v.fields@.len() ==> field_gen_matches(
                    #[trigger] v.fields@[j],
                    d.variants@[i].fields@[j],
                )
        }
}

/// The declaration model of one enum.
#[verifier::loop_isolation(false)]
pub fn generate_enum(d: &EnumDesc) -> (r: EnumGen)
    requires
        d.variants@.len() <= 0x7fff_ffff,
    ensures
        enum_gen_matches(r, *d),
{
    let cls = class_name(d.name.as_str());
    let mut conv = String::from_str("FfiConverter");
    conv.append(cls.as_str());
    let mut variants: Vec<VariantGen> = Vec::new();
    let mut i: usize = 0;
    while i < d.variants.len()
        invariant
            i <= d.variants@.len(),
            variants@.len() == i,
            cls@ == upper_camel_of(d.name@),
            forall|k: int|
                0 <= k < i ==> {
                    let v = #[trigger] variants@[k];
                    &&& v.name@ == upper_camel_of(d.variants@[k].name@)
                    &&& v.class_name@ == upper_camel_of(d.variants@[k].name@) + upper_camel_of(
                        d.name@,
                    )
                    &&& v.discriminant == k + 1
                    &&& v.fields@.len() == d.variants@[k].fields@.len()
                    &&& forall|j: int|
                        0 <= j < v.fields@.len() ==> field_gen_matches(
                            #[trigger] v.fields@[j],
                            d.variants@[k].fields@[j],
                        )
                },
        decreases d.variants@.len() - i,
    {
        let vname = class_name(d.variants[i].name.as_str());
        let mut vcls = class_name(d.variants[i].name.as_str());
        vcls.append(cls.as_str());
        let fields = generate_fields(&d.variants[i].fields);
        variants.push(
            VariantGen { name: vname, class_name: vcls, discriminant: (i as u32) + 1, fields },
        );
        i = i + 1;
    }
    EnumGen { class_name: cls, converter_name: conv, flat: d.flat, variants }
}

} // verus!
