//! An error enum with a long run of variants and record payloads.

use vstd::prelude::*;
use vstd::string::StringExecFns;

verus! {

/// The record payload the heavier error variants carry.
#[derive(Debug, PartialEq, Eq)]
pub struct ErrorPayload {
    pub is_important: bool,
    pub index: u64,
    pub message: String,
}

impl Default for ErrorPayload {
    /// The canonical debugging payload.
    fn default() -> (r: Self)
        ensures
            r.is_important,
            r.index == 42,
            r.message@ == "Very important error payload that greatly helps with debugging"@,
    {
        ErrorPayload {
            is_important: true,
            index: 42,
            message: String::from_str(
                "Very important error payload that greatly helps with debugging",
            ),
        }
    }
}

/// A declared error whose variant numbers start at a large base and count
/// upward in declaration order.
#[derive(Debug, PartialEq, Eq)]
pub enum LargeError {
    Case1,
    Case2 { arg1: String },
    Case3 { arg1: String },
    Case4 { arg1: String },
    Case5 { arg1: String },
    Case20 { arg1: u64, arg2: u32 },
    Case21 { arg1: u64, arg2: u32 },
    Case30 { arg1: ErrorPayload },
    Case31 { arg1: ErrorPayload },
    Case40 { arg1: ErrorPayload, arg2: ErrorPayload, arg3: ErrorPayload, arg4: ErrorPayload },
    Case100 { arg1: ErrorPayload, arg2: ErrorPayload, arg3: ErrorPayload, arg4: ErrorPayload },
}

impl LargeError {
    /// The declared variant number: the base for the first variant, then
    /// one more per declared variant.
    pub fn discriminant(&self) -> (r: u32)
        ensures
            self is Case1 ==> r == 10001,
            self is Case2 ==> r == 10002,
            self is Case3 ==> r == 10003,
            self is Case4 ==> r == 10004,
            self is Case5 ==> r == 10005,
            self is Case20 ==> r == 10006,
            self is Case21 ==> r == 10007,
            self is Case30 ==> r == 10008,
            self is Case31 ==> r == 10009,
            self is Case40 ==> r == 10010,
            self is Case100 ==> r == 10011,
    {
        match self {
            LargeError::Case1 => 10001,
            LargeError::Case2 { .. } => 10002,
            LargeError::Case3 { .. } => 10003,
            LargeError::Case4 { .. } => 10004,
            LargeError::Case5 { .. } => 10005,
            LargeError::Case20 { .. } => 10006,
            LargeError::Case21 { .. } => 10007,
            LargeError::Case30 { .. } => 10008,
            LargeError::Case31 { .. } => 10009,
            LargeError::Case40 { .. } => 10010,
            LargeError::Case100 { .. } => 10011,
        }
    }
}

/// The numeric code of an error.
pub fn error_code_from_error(error: &LargeError) -> (r: u32)
    ensures
        r == ({
            let d: u32 = if error is Case1 {
                10001
            } else if error is Case2 {
                10002
            } else if error is Case3 {
                10003
            } else if error is Case4 {
                10004
            } else if error is Case5 {
                10005
            } else if error is Case20 {
                10006
            } else if error is Case21 {
                10007
            } else if error is Case30 {
                10008
            } else if error is Case31 {
                10009
            } else if error is Case40 {
                10010
            } else {
                10011
            };
            d
        }),
{
    error.discriminant()
}

/// An error together with the context it arose in.
#[derive(Debug, PartialEq, Eq)]
pub struct ErrorWithContext {
    pub error: LargeError,
    pub context: String,
}

} // verus!
