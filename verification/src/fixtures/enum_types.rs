//! Enums in every declaration style the generator accepts.

use vstd::prelude::*;
use vstd::string::StringExecFns;

verus! {

/// A flat enum declared in the interface description.
#[derive(Clone, Copy, Debug, PartialEq, Eq, Structural)]
pub enum Animal {
    Dog,
    Cat,
}

/// A flat enum whose declared variant numbers are dropped because no
/// representation width was fixed.
#[derive(Clone, Copy, Debug, PartialEq, Eq, Structural)]
pub enum AnimalNoReprInt {
    Dog,
    Cat,
}

/// A flat enum carried as an unsigned byte; its variants number three and
/// four.
#[derive(Clone, Copy, Debug, PartialEq, Eq, Structural)]
pub enum AnimalUInt {
    Dog,
    Cat,
}

impl AnimalUInt {
    /// The declared variant number.
    pub fn value(&self) -> (r: u8)
        ensures
            *self == AnimalUInt::Dog ==> r == 3,
            *self == AnimalUInt::Cat ==> r == 4,
    {
        match self {
            AnimalUInt::Dog => 3,
            AnimalUInt::Cat => 4,
        }
    }
}

/// A flat enum whose variant numbers only fit a wide unsigned carrier.
#[derive(Clone, Copy, Debug, PartialEq, Eq, Structural)]
pub enum AnimalLargeUInt {
    Dog,
    Cat,
}

impl AnimalLargeUInt {
    /// The declared variant number: three and four past the 32-bit limit.
    pub fn value(&self) -> (r: u64)
        ensures
            *self == AnimalLargeUInt::Dog ==> r == 4294967298u64,
            *self == AnimalLargeUInt::Cat ==> r == 4294967299u64,
    {
        match self {
            AnimalLargeUInt::Dog => 4294967298,
            AnimalLargeUInt::Cat => 4294967299,
        }
    }
}

/// A flat enum carried as a signed byte, counting up from a negative
/// variant number.
#[derive(Clone, Copy, Debug, PartialEq, Eq, Structural)]
pub enum AnimalSignedInt {
    Dog,
    Cat,
    Koala,
    Wallaby,
    Wombat,
}

impl AnimalSignedInt {
    /// The declared variant number, continuing upward from the first.
    pub fn value(&self) -> (r: i8)
        ensures
            *self == AnimalSignedInt::Dog ==> r == -3,
            *self == AnimalSignedInt::Cat ==> r == -2,
            *self == AnimalSignedInt::Koala ==> r == -1,
            *self == AnimalSignedInt::Wallaby ==> r == 0,
            *self == AnimalSignedInt::Wombat ==> r == 1,
    {
        match self {
            AnimalSignedInt::Dog => -3,
            AnimalSignedInt::Cat => -2,
            AnimalSignedInt::Koala => -1,
            AnimalSignedInt::Wallaby => 0,
            AnimalSignedInt::Wombat => 1,
        }
    }
}

/// A record held by the object and enum variants below.
#[derive(Debug, PartialEq, Eq)]
pub struct AnimalRecord {
    name: String,
}

impl AnimalRecord {
    /// The record's name, as the contracts speak of it.
    pub closed spec fn spec_name(&self) -> Seq<char> {
        self.name@
    }

    /// A record with the given name.
    pub fn new(name: &str) -> (r: Self)
        ensures
            r.spec_name() == name@,
    {
        Self { name: String::from_str(name) }
    }

    /// The record's name.
    pub fn name(&self) -> (r: &str)
        ensures
            r@ == self.spec_name(),
    {
        self.name.as_str()
    }
}

impl Default for AnimalRecord {
    /// The empty-named record.
    fn default() -> (r: Self)
        ensures
            r.spec_name() == Seq::<char>::empty(),
    {
        AnimalRecord { name: String::new() }
    }
}

/// An object wrapping a record value.
#[derive(Debug, PartialEq, Eq)]
pub struct AnimalObject {
    pub value: AnimalRecord,
}

impl AnimalObject {
    /// An object whose record carries the given name.
    pub fn new(name: &str) -> (r: Self)
        ensures
            r.value.spec_name() == name@,
    {
        Self { value: AnimalRecord::new(name) }
    }

    /// A copy of the wrapped record.
    pub fn get_record(&self) -> (r: AnimalRecord)
        ensures
            r == self.value,
    {
        AnimalRecord { name: self.value.name.clone() }
    }
}

/// An enum with non-primitive payloads: an object or a record.
#[derive(Debug)]
pub enum AnimalEnum {
    Nothing,
    Dog(Box<AnimalObject>),
    Cat(AnimalRecord),
}

/// The same payloads under named fields.
#[derive(Debug)]
pub enum AnimalNamedEnum {
    Nothing,
    Dog { object: Box<AnimalObject> },
    Cat { record: AnimalRecord },
}

/// The payload-carrying value for each flat animal: a dog object named
/// `dog`, or a cat record named `cat`.
pub fn get_animal_enum(animal: Animal) -> (r: AnimalEnum)
    ensures
        animal == Animal::Dog ==> (r matches AnimalEnum::Dog(o) && o.value.spec_name()
            == "dog"@),
        animal == Animal::Cat ==> (r matches AnimalEnum::Cat(c) && c.spec_name() == "cat"@),
{
    match animal {
        Animal::Dog => AnimalEnum::Dog(Box::new(AnimalObject::new("dog"))),
        Animal::Cat => AnimalEnum::Cat(AnimalRecord::new("cat")),
    }
}

/// The given animal, or the default dog when none was given.
pub fn get_animal(a: Option<Animal>) -> (r: Animal)
    ensures
        a matches Some(x) ==> r == x,
        a is None ==> r == Animal::Dog,
{
    match a {
        Some(x) => x,
        None => Animal::Dog,
    }
}

} // verus!
