//! An interface exercising metadata and type-information generation.

use vstd::prelude::*;
use vstd::string::StringExecFns;

verus! {

/// A record describing a component.
#[derive(Debug, PartialEq, Eq)]
pub struct MetadataStruct {
    pub name: String,
    pub version: u32,
    pub features: Vec<String>,
}

/// An object carrying a name and a version.
#[derive(Debug, PartialEq, Eq)]
pub struct MetadataObject {
    name: String,
    version: u32,
}

impl MetadataObject {
    /// The object's name, as the contracts speak of it.
    pub closed spec fn spec_name(&self) -> Seq<char> {
        self.name@
    }

    /// The object's version, as the contracts speak of it.
    pub closed spec fn spec_version(&self) -> u32 {
        self.version
    }

    /// An object with the given name, at version zero.
    pub fn new(name: String) -> (r: Self)
        ensures
            r.spec_name() == name@,
            r.spec_version() == 0,
    {
        MetadataObject { name, version: 0 }
    }

    /// The object's name.
    pub fn get_name(&self) -> (r: String)
        ensures
            r@ == self.spec_name(),
    {
        self.name.clone()
    }

    /// Exercise the call shape of a setter; the version itself is fixed at
    /// construction and left untouched.
    pub fn set_version(&self, _version: u32)
    {
    }

    /// The object's version.
    pub fn get_version(&self) -> (r: u32)
        ensures
            r == self.spec_version(),
    {
        self.version
    }
}

/// The flavors of metadata a component can carry.
#[derive(Clone, Copy, Debug, PartialEq, Eq, Structural)]
pub enum MetadataType {
    Basic,
    Advanced,
    Experimental,
}

/// Exercise metadata generation for a plain call.
pub fn test_metadata() {
}

/// The canonical component description.
pub fn get_metadata_struct() -> (r: MetadataStruct)
    ensures
        r.name@ == "uniffi-dart"@,
        r.version == 1,
        r.features@.len() == 2,
        r.features@[0]@ == "metadata"@,
        r.features@[1]@ == "testing"@,
{
    let mut features: Vec<String> = Vec::new();
    features.push(String::from_str("metadata"));
    features.push(String::from_str("testing"));
    MetadataStruct { name: String::from_str("uniffi-dart"), version: 1, features }
}

} // verus!
