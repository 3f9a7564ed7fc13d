//! An interface of asynchronous entry points.
//!
//! The timer plumbing that suspends callers lives outside the verified
//! library; what stands here is each call's synchronous core: the value it
//! resolves to once its timer fires.

use vstd::prelude::*;
use vstd::string::StringExecFns;
use crate::naming::upper_of;
use crate::naming::uppercase;

verus! {

/// The error an asynchronous call can resolve to.
#[derive(Debug, PartialEq, Eq)]
pub enum MyError {
    Foo,
}

/// A record an asynchronous call can resolve to.
#[derive(Debug, PartialEq, Eq)]
pub struct MyRecord {
    pub a: String,
    pub b: u32,
}

/// An object whose methods mix synchronous and asynchronous calls.
#[derive(Debug)]
pub struct Megaphone;

/// The object surface declared in the interface description rather than by
/// attributes.
#[derive(Debug)]
pub struct UdlMegaphone;

/// An object whose constructor always resolves to an error.
#[derive(Debug)]
pub struct FallibleMegaphone;

impl Megaphone {
    /// Yell a greeting immediately: the uppercase image of the greeting.
    pub fn say_now(&self, who: String) -> (r: String)
        ensures
            r@ == upper_of("Hello, "@ + who@ + "!"@),
    {
        let mut s = String::from_str("Hello, ");
        s.append(who.as_str());
        s.append("!");
        proof {
            assert("Hello, "@ + who@ + "!"@ =~= s@);
        }
        uppercase(s.as_str())
    }

    /// The value the fallible method resolves to once its timer fires.
    pub fn fallible_me(&self, do_fail: bool) -> (r: Result<u8, MyError>)
        ensures
            do_fail ==> r == Err::<u8, MyError>(MyError::Foo),
            !do_fail ==> r == Ok::<u8, MyError>(42u8),
    {
        if do_fail {
            Err(MyError::Foo)
        } else {
            Ok(42)
        }
    }
}

/// The value the free fallible call resolves to.
pub fn fallible_me(do_fail: bool) -> (r: Result<u8, MyError>)
    ensures
        do_fail ==> r == Err::<u8, MyError>(MyError::Foo),
        !do_fail ==> r == Ok::<u8, MyError>(42u8),
{
    if do_fail {
        Err(MyError::Foo)
    } else {
        Ok(42)
    }
}

/// The record an asynchronous constructor call resolves to.
pub fn new_my_record(a: String, b: u32) -> (r: MyRecord)
    ensures
        r.a == a,
        r.b == b,
{
    MyRecord { a, b }
}

/// The value the always-ready call resolves to.
pub fn always_ready() -> (r: bool)
    ensures
        r,
{
    true
}

} // verus!
