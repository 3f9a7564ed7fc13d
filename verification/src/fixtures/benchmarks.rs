//! A minimal interface for measuring call overhead across the boundary.

use vstd::prelude::*;

verus! {

/// A record passed through benchmarked calls.
#[derive(Debug)]
pub struct TestData {
    pub foo: String,
    pub bar: String,
}

/// Which benchmarked entry point a callback run should exercise.
#[derive(Clone, Copy, Debug, PartialEq, Eq, Structural)]
pub enum TestCase {
    Function,
    VoidReturn,
    NoArgsVoidReturn,
}

/// The callback interface a host implements so the native side can call
/// back into it during a benchmark run.
pub trait TestCallbackInterface {
    fn method(&self, a: i32, b: i32, data: TestData) -> String;

    fn method_with_void_return(&self, a: i32, b: i32, data: TestData);

    fn method_with_no_args_and_void_return(&self);

    fn run_test(&self, test_case: TestCase, count: u64) -> u64;
}

/// A call that does a minimum of work: it hands one field back.
pub fn test_function(_a: i32, _b: i32, data: TestData) -> (r: String)
    ensures
        r == data.bar,
{
    data.bar
}

/// A call measured purely for its void-return overhead.
pub fn test_void_return(_a: i32, _b: i32, _data: TestData) {
}

/// A call measured purely for its minimal-call overhead.
pub fn test_no_args_void_return() {
}

} // verus!
