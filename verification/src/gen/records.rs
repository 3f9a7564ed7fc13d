//! The declaration model of a record and of field runs.

use vstd::prelude::*;
use vstd::string::StringExecFns;
use crate::interface::FieldDesc;
use crate::interface::RecordDesc;
use crate::naming::class_name;
use crate::naming::lower_camel_of;
use crate::naming::upper_camel_of;
use crate::naming::var_name;
use crate::registry::converter_name;
use crate::registry::converter_name_of;
use crate::registry::type_label;
use crate::registry::type_label_of;

verus! {

/// One field or argument slot: its surface name, its surface type, and the
/// converter that carries it across the boundary.
#[derive(Debug)]
pub struct FieldGen {
    pub name: String,
    pub type_label: String,
    pub converter_name: String,
}

/// Whether one slot model speaks for one declared field.
pub open spec fn field_gen_matches(g: FieldGen, f: FieldDesc) -> bool {
    g.name@ == lower_camel_of(f.name@) && g.type_label@ == type_label_of(f.ty)
        && g.converter_name@ == converter_name_of(f.ty)
}

/// The slot model of one declared field.
pub fn generate_field(f: &FieldDesc) -> (r: FieldGen)
    ensures
        field_gen_matches(r, *f),
{
    FieldGen {
        name: var_name(f.name.as_str()),
        type_label: type_label(&f.ty),
        converter_name: converter_name(&f.ty),
    }
}

/// The slot models of a run of declared fields, in declaration order —
/// declaration order is encoding order.
#[verifier::loop_isolation(false)]
pub fn generate_fields(fs: &Vec<FieldDesc>) -> (r: Vec<FieldGen>)
    ensures
        r@.len() == fs@.len(),
        forall|i: int| 0 <= i < r@.len() ==> field_gen_matches(#[trigger] r@[i], fs@[i]),
{
    let mut out: Vec<FieldGen> = Vec::new();
    let mut i: usize = 0;
    while i < fs.len()
        invariant
            i <= fs@.len(),
            out@.len() == i,
            forall|j: int| 0 <= j < i ==> field_gen_matches(#[trigger] out@[j], fs@[j]),
        decreases fs@.len() - i,
    {
        out.push(generate_field(&fs[i]));
        i = i + 1;
    }
    out
}

/// The declaration model of a record: its surface class, its converter,
/// and its fields in declaration order.
#[derive(Debug)]
pub struct RecordGen {
    pub class_name: String,
    pub converter_name: String,
    pub fields: Vec<FieldGen>,
}

/// Whether a record model speaks for a record declaration.
pub open spec fn record_gen_matches(g: RecordGen, d: RecordDesc) -> bool {
    g.class_name@ == upper_camel_of(d.name@) && g.converter_name@ == "FfiConverter"@
        + upper_camel_of(d.name@) && g.fields@.len() == d.fields@.len() && (forall|i: int|
        0 <= i < g.fields@.len() ==> field_gen_matches(#[trigger] g.fields@[i], d.fields@[i]))
}

/// The declaration model of one record.
pub fn generate_record(d: &RecordDesc) -> (r: RecordGen)
    ensures
        record_gen_matches(r, *d),
{
    let cls = class_name(d.name.as_str());
    let mut conv = String::from_str("FfiConverter");
    conv.append(cls.as_str());
    RecordGen { class_name: cls, converter_name: conv, fields: generate_fields(&d.fields) }
}

} // verus!
