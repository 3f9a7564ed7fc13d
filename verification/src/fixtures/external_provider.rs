//! The provider half of the cross-crate type-sharing interface.

use vstd::prelude::*;
use vstd::string::StringExecFns;
use crate::numerals::bool_str;
use crate::numerals::bool_text;
use crate::numerals::dec_i32;
use crate::numerals::dec_int;

verus! {

/// A record shared with consumer crates.
#[derive(Debug, PartialEq, Eq)]
pub struct ExternalRecord {
    pub name: String,
    pub value: i32,
    pub is_active: bool,
}

/// An enum shared with consumer crates.
#[derive(Clone, Copy, Debug, PartialEq, Eq, Structural)]
pub enum ExternalEnum {
    First,
    Second,
    Third,
}

/// An object shared with consumer crates.
#[derive(Debug, PartialEq, Eq)]
pub struct ExternalObject {
    name: String,
}

impl ExternalObject {
    /// The object's name, as the contracts speak of it.
    pub closed spec fn spec_name(&self) -> Seq<char> {
        self.name@
    }

    /// An object with the given name.
    pub fn new(name: String) -> (r: Self)
        ensures
            r.spec_name() == name@,
    {
        Self { name }
    }

    /// The object's current name.
    pub fn get_name(&self) -> (r: String)
        ensures
            r@ == self.spec_name(),
    {
        self.name.clone()
    }

    /// Replace the object's name.
    pub fn set_name(&mut self, name: String)
        ensures
            final(self).spec_name() == name@,
    {
        self.name = name;
    }

    /// Double the input and add one.
    pub fn calculate(&self, input: i32) -> (r: i32)
        requires
            2 * input + 1 <= i32::MAX,
            i32::MIN <= 2 * input,
    ensures
            r == 2 * input + 1,
    {
        input * 2 + 1
    }
}

/// A record with the given name and value, active.
pub fn create_external_record(name: String, value: i32) -> (r: ExternalRecord)
    ensures
        r.name == name,
        r.value == value,
        r.is_active,
{
    ExternalRecord { name, value, is_active: true }
}

/// The enum variant a small number selects: zero and one pick the first
/// two, everything else the third.
pub fn get_external_enum(variant: i32) -> (r: ExternalEnum)
    ensures
        variant == 0 ==> r == ExternalEnum::First,
        variant == 1 ==> r == ExternalEnum::Second,
        !(variant == 0 || variant == 1) ==> r == ExternalEnum::Third,
{
    if variant == 0 {
        ExternalEnum::First
    } else if variant == 1 {
        ExternalEnum::Second
    } else {
        ExternalEnum::Third
    }
}

/// An object with the given name.
pub fn create_external_object(name: String) -> (r: ExternalObject)
    ensures
        r.spec_name() == name@,
{
    ExternalObject::new(name)
}

/// The image of a record as display text.
pub fn external_record_to_string(record: ExternalRecord) -> (r: String)
    ensures
        r@ == "ExternalRecord{ name: "@ + record.name@ + ", value: "@ + dec_int(
            record.value as int,
        ) + ", is_active: "@ + bool_text(record.is_active) + " }"@,
{
    let mut s = String::from_str("ExternalRecord{ name: ");
    s.append(record.name.as_str());
    s.append(", value: ");
    let v = dec_i32(record.value);
    s.append(v.as_str());
    s.append(", is_active: ");
    s.append(bool_str(record.is_active));
    s.append(" }");
    s
}

/// The number a shared enum variant stands for.
pub fn external_enum_to_int(enum_val: ExternalEnum) -> (r: i32)
    ensures
        enum_val == ExternalEnum::First ==> r == 0,
        enum_val == ExternalEnum::Second ==> r == 1,
        enum_val == ExternalEnum::Third ==> r == 2,
{
    match enum_val {
        ExternalEnum::First => 0,
        ExternalEnum::Second => 1,
        ExternalEnum::Third => 2,
    }
}

/// The name of a shared object.
pub fn external_object_get_name(obj: &ExternalObject) -> (r: String)
    ensures
        r@ == obj.spec_name(),
{
    obj.get_name()
}

} // verus!
