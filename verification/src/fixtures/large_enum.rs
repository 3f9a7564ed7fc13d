//! A flat enum and its constructors and consumers.

use vstd::prelude::*;
use vstd::string::StringExecFns;

verus! {

/// A flat enum of four variants.
#[derive(Clone, Copy, Debug, PartialEq, Eq, Structural)]
pub enum FlatEnum {
    One,
    Two,
    Three,
    Four,
}

/// The first variant.
pub fn new_flat_one() -> (r: FlatEnum)
    ensures
        r == FlatEnum::One,
{
    FlatEnum::One
}

/// The second variant.
pub fn new_flat_two() -> (r: FlatEnum)
    ensures
        r == FlatEnum::Two,
{
    FlatEnum::Two
}

/// The third variant.
pub fn new_flat_three() -> (r: FlatEnum)
    ensures
        r == FlatEnum::Three,
{
    FlatEnum::Three
}

/// The fourth variant.
pub fn new_flat_four() -> (r: FlatEnum)
    ensures
        r == FlatEnum::Four,
{
    FlatEnum::Four
}

/// The variant's name as text.
pub fn take_flat_enum(flat: FlatEnum) -> (r: String)
    ensures
        flat == FlatEnum::One ==> r@ == "One"@,
        flat == FlatEnum::Two ==> r@ == "Two"@,
        flat == FlatEnum::Three ==> r@ == "Three"@,
        flat == FlatEnum::Four ==> r@ == "Four"@,
{
    match flat {
        FlatEnum::One => String::from_str("One"),
        FlatEnum::Two => String::from_str("Two"),
        FlatEnum::Three => String::from_str("Three"),
        FlatEnum::Four => String::from_str("Four"),
    }
}

/// The three extreme signed 64-bit values, in order.
pub fn make_i64_list() -> (r: Vec<i64>)
    ensures
        r@ =~= seq![i64::MIN, 0i64, i64::MAX],
{
    let mut v: Vec<i64> = Vec::new();
    v.push(i64::MIN);
    v.push(0);
    v.push(i64::MAX);
    v
}

/// Three unsigned 64-bit values spanning the range, in order.
pub fn make_u64_list() -> (r: Vec<u64>)
    ensures
        r@ =~= seq![0u64, 12345678901234567890u64, u64::MAX],
{
    let mut v: Vec<u64> = Vec::new();
    v.push(0);
    v.push(12345678901234567890);
    v.push(u64::MAX);
    v
}

/// A signed 64-bit list handed straight back.
pub fn take_i64_list(value: Vec<i64>) -> (r: Vec<i64>)
    ensures
        r == value,
{
    value
}

/// An unsigned 64-bit list handed straight back.
pub fn take_u64_list(value: Vec<u64>) -> (r: Vec<u64>)
    ensures
        r == value,
{
    value
}

} // verus!
