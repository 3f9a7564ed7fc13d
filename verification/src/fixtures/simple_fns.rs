//! Free-standing functions over primitives and a string-set object.

use vstd::prelude::*;
use vstd::string::StringExecFns;
use std::collections::HashMap;

verus! {

/// The fixed greeting from the native side.
pub fn get_string() -> (r: String)
    ensures
        r@ == "String created by Rust"@,
{
    String::from_str("String created by Rust")
}

/// The fixed number from the native side.
pub fn get_int() -> (r: i32)
    ensures
        r == 1289,
{
    1289
}

/// A string handed straight back.
pub fn string_identity(s: String) -> (r: String)
    ensures
        r == s,
{
    s
}

/// A map handed straight back.
pub fn hash_map_identity(h: HashMap<String, String>) -> (r: HashMap<String, String>)
    ensures
        r == h,
{
    h
}

/// A byte widened to 32 bits.
pub fn byte_to_u32(byte: u8) -> (r: u32)
    ensures
        r == byte as u32,
{
    byte as u32
}

/// A value that only matters for its optional shape.
pub fn dummy(_arg: Option<i8>) {
}

/// A set of strings behind an object boundary.
#[derive(Debug)]
pub struct MyHashSet {
    inner: Vec<String>,
}

impl MyHashSet {
    /// Whether the set holds the given characters.
    pub closed spec fn has(&self, s: Seq<char>) -> bool {
        exists|i: int| 0 <= i < self.inner@.len() && self.inner@[i]@ == s
    }

    /// The empty set.
    pub fn new() -> (r: Self)
        ensures
            forall|s: Seq<char>| !r.has(s),
    {
        MyHashSet { inner: Vec::new() }
    }

    /// Put a string into the set: it is a member afterwards, and no other
    /// membership changes.
    pub fn add(&mut self, value: String)
        ensures
            final(self).has(value@),
            forall|s: Seq<char>|
                #[trigger] final(self).has(s) == (old(self).has(s) || s == value@),
    {
        let already = self.contains_string(&value);
        if !already {
            let ghost before = self.inner@;
            self.inner.push(value);
            proof {
                assert forall|s: Seq<char>| #[trigger] self.has(s) implies (exists|i: int|
                    0 <= i < before.len() && before[i]@ == s) || s == value@ by {
                    let i = choose|i: int| 0 <= i < self.inner@.len() && self.inner@[i]@ == s;
                    if i < before.len() {
                        assert(before[i]@ == s);
                    }
                };
                assert forall|s: Seq<char>|
                    (exists|i: int| 0 <= i < before.len() && before[i]@ == s) || s == value@
                        implies #[trigger] self.has(s) by {
                    if s == value@ {
                        assert(self.inner@[before.len() as int]@ == s);
                    } else {
                        let i = choose|i: int| 0 <= i < before.len() && before[i]@ == s;
                        assert(self.inner@[i]@ == s);
                    }
                };
            }
        }
    }

    /// Whether the set holds the given string.
    pub fn contains(&self, value: String) -> (r: bool)
        ensures
            r == self.has(value@),
    {
        self.contains_string(&value)
    }

    /// Whether the set holds the given characters.
    #[verifier::loop_isolation(false)]
    fn contains_string(&self, value: &String) -> (r: bool)
        ensures
            r == self.has(value@),
    {
        let n = self.inner.len();
        let mut i: usize = 0;
        while i < n
            invariant
                i <= n,
                forall|j: int| 0 <= j < i ==> self.inner@[j]@ != value@,
            decreases n - i,
        {
            if self.inner[i].eq(value) {
                return true;
            }
            i = i + 1;
        }
        false
    }
}

/// A fresh empty set behind the object boundary.
pub fn new_set() -> (r: MyHashSet)
    ensures
        forall|s: Seq<char>| !r.has(s),
{
    MyHashSet::new()
}

/// Put a string into a shared set.
pub fn add_to_set(set: &mut MyHashSet, value: String)
    ensures
        final(set).has(value@),
        forall|s: Seq<char>| #[trigger] final(set).has(s) == (old(set).has(s) || s == value@),
{
    set.add(value);
}

/// Whether a shared set holds a string.
pub fn set_contains(set: &MyHashSet, value: String) -> (r: bool)
    ensures
        r == set.has(value@),
{
    set.contains(value)
}

} // verus!
