//! The consumer half of the cross-crate type-sharing interface: functions
//! that take and return the provider's types.

use vstd::prelude::*;
use vstd::string::StringExecFns;
use crate::fixtures::external_provider::ExternalEnum;
use crate::fixtures::external_provider::ExternalObject;
use crate::fixtures::external_provider::ExternalRecord;
use crate::numerals::bool_text;
use crate::numerals::bool_str;
use crate::numerals::dec_i32;
use crate::numerals::dec_int;

verus! {

/// A record built from the given parts, with a marked name and a raised
/// value.
pub fn create_and_modify_external_record(name: String, value: i32) -> (r: ExternalRecord)
    requires
        value + 100 <= i32::MAX,
    ensures
        r.name@ == "Modified: "@ + name@,
        r.value == value + 100,
        r.is_active,
{
    let mut n = String::from_str("Modified: ");
    n.append(name.as_str());
    ExternalRecord { name: n, value: value + 100, is_active: true }
}

/// The next variant in the shared enum's cycle.
pub fn cycle_external_enum(input: ExternalEnum) -> (r: ExternalEnum)
    ensures
        input == ExternalEnum::First ==> r == ExternalEnum::Second,
        input == ExternalEnum::Second ==> r == ExternalEnum::Third,
        input == ExternalEnum::Third ==> r == ExternalEnum::First,
{
    match input {
        ExternalEnum::First => ExternalEnum::Second,
        ExternalEnum::Second => ExternalEnum::Third,
        ExternalEnum::Third => ExternalEnum::First,
    }
}

/// The same object with its name put behind a prefix.
pub fn wrap_external_object(obj: ExternalObject, prefix: String) -> (r: ExternalObject)
    ensures
        r.spec_name() == prefix@ + ": "@ + obj.spec_name(),
{
    let mut renamed = obj;
    let current_name = renamed.get_name();
    let mut n = prefix;
    n.append(": ");
    n.append(current_name.as_str());
    renamed.set_name(n);
    renamed
}

/// The display text describing a shared record.
pub fn process_external_record(record: ExternalRecord) -> (r: String)
    ensures
        r@ == "Processing record '"@ + record.name@ + "' with value "@ + dec_int(
            record.value as int,
        ) + " (active: "@ + bool_text(record.is_active) + ")"@,
{
    let mut s = String::from_str("Processing record '");
    s.append(record.name.as_str());
    s.append("' with value ");
    let v = dec_i32(record.value);
    s.append(v.as_str());
    s.append(" (active: ");
    s.append(bool_str(record.is_active));
    s.append(")");
    s
}

/// The number a shared enum variant is processed into.
pub fn process_external_enum(enum_val: ExternalEnum) -> (r: i32)
    ensures
        enum_val == ExternalEnum::First ==> r == 10,
        enum_val == ExternalEnum::Second ==> r == 20,
        enum_val == ExternalEnum::Third ==> r == 30,
{
    match enum_val {
        ExternalEnum::First => 10,
        ExternalEnum::Second => 20,
        ExternalEnum::Third => 30,
    }
}

/// The display text describing a shared object's calculation.
pub fn process_external_object(obj: &ExternalObject, multiplier: i32) -> (r: String)
    requires
        2 * multiplier + 1 <= i32::MAX,
        i32::MIN <= 2 * multiplier,
    ensures
        r@ == "Object '"@ + obj.spec_name() + "' calculated "@ + dec_int(
            2 * multiplier + 1,
        ) + " with input "@ + dec_int(multiplier as int),
{
    let name = obj.get_name();
    let calculated = obj.calculate(multiplier);
    let mut s = String::from_str("Object '");
    s.append(name.as_str());
    s.append("' calculated ");
    let c = dec_i32(calculated);
    s.append(c.as_str());
    s.append(" with input ");
    let m = dec_i32(multiplier);
    s.append(m.as_str());
    s
}

/// A list of numbered records: record `i` carries value `i` and is active
/// exactly on the even positions.
#[verifier::loop_isolation(false)]
pub fn create_external_record_list(count: i32) -> (r: Vec<ExternalRecord>)
    ensures
        count <= 0 ==> r@.len() == 0,
        count > 0 ==> r@.len() == count,
        forall|i: int|
            0 <= i < r@.len() ==> (#[trigger] r@[i]).name@ == "Record "@ + dec_int(i)
                && r@[i].value == i && r@[i].is_active == (i % 2 == 0),
{
    let mut out: Vec<ExternalRecord> = Vec::new();
    if count <= 0 {
        return out;
    }
    let mut i: i32 = 0;
    while i < count
        invariant
            0 <= i <= count,
            out@.len() == i,
            forall|j: int|
                0 <= j < out@.len() ==> (#[trigger] out@[j]).name@ == "Record "@ + dec_int(j)
                    && out@[j].value == j && out@[j].is_active == (j % 2 == 0),
        decreases count - i,
    {
        let mut n = String::from_str("Record ");
        let d = dec_i32(i);
        n.append(d.as_str());
        out.push(ExternalRecord { name: n, value: i, is_active: i % 2 == 0 });
        i = i + 1;
    }
    out
}

/// The first record carrying the target value, if any does.
#[verifier::loop_isolation(false)]
pub fn find_external_record_by_value(records: Vec<ExternalRecord>, target_value: i32) -> (r:
    Option<ExternalRecord>)
    ensures
        match r {
            Some(x) => exists|i: int|
                0 <= i < records@.len() && x == records@[i] && records@[i].value == target_value
                    && (forall|j: int| 0 <= j < i ==> records@[j].value != target_value),
            None => forall|i: int| 0 <= i < records@.len() ==> records@[i].value != target_value,
        },
{
    let n = records.len();
    let mut i: usize = 0;
    while i < n
        invariant
            i <= n,
            forall|j: int| 0 <= j < i ==> records@[j].value != target_value,
        decreases n - i,
    {
        if records[i].value == target_value {
            let rec = &records[i];
            let copy = ExternalRecord {
                name: rec.name.clone(),
                value: rec.value,
                is_active: rec.is_active,
            };
            proof {
                assert(copy == records@[i as int]);
            }
            return Some(copy);
        }
        i = i + 1;
    }
    None
}

} // verus!
