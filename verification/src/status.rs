//! Interpreting the out-of-band status of a native call.
//!
//! Every native entry point reports one of three fixed wire-level codes:
//! `0` success, `1` a declared error whose payload is the error type's
//! encoding, `2` a panic with an optional message.  These values are part of
//! the ABI and are never renumbered.  A declared error is decoded with the
//! function's declared error type and surfaced as a typed error; a panic or
//! an error on a function with no declared error type becomes the generic
//! internal fault, never silently dropped.

use vstd::prelude::*;
use vstd::string::StrSliceExecFns;
use vstd::string::StringExecFns;
use vstd::utf8::decode_utf8;
use vstd::utf8::valid_utf8;
use crate::codec::decoding;
use crate::codec::read_value;
use crate::codec::string_from_utf8;
use crate::codec::DecodeError;
use crate::interface::TypeDesc;
use crate::value::conforms;
use crate::value::sv;
use crate::value::WireValue;

verus! {

/// The wire value of a successful call status.
pub const CALL_SUCCESS: i8 = 0;

/// The wire value of a declared-error call status.
pub const CALL_ERROR: i8 = 1;

/// The wire value of a panic or unexpected-fault call status.
pub const CALL_PANIC: i8 = 2;

/// The status block a native call fills in: a code and, for errors and
/// panics, a payload buffer.
#[derive(Debug)]
pub struct CallStatus {
    pub code: i8,
    pub error_buf: Vec<u8>,
}

/// The generic internal fault of the generated runtime.
#[derive(Debug, PartialEq, Eq)]
pub enum FaultKind {
    /// A payload failed to decode.
    Decode(DecodeError),
    /// An `ERROR` status arrived on a call with no declared error type: a
    /// contract violation by the native side.
    UndeclaredError,
    /// A status code outside the fixed set.
    UnknownStatus(i8),
    /// The native side panicked; the message is its diagnostic, or the
    /// fixed default when none was supplied.
    Panic(String),
}

/// How one finished native call resolves on the host side.
#[derive(Debug)]
pub enum CallOutcome {
    /// The call succeeded; the lifted return value, absent for a void call.
    Success(Option<WireValue>),
    /// The call reported a declared error; its decoded value.
    DomainError(WireValue),
    /// The call ended in an internal fault.
    Fault(FaultKind),
}

/// The diagnostic used when a panic carries no message.
pub open spec fn default_panic_message() -> Seq<char> {
    "Rust panic"@
}

/// Resolve a finished native call: on success lift the raw return bytes at
/// the declared return type, on a declared error decode the status payload
/// at the declared error type, and turn everything else into the generic
/// internal fault.  The declared-error and undeclared-error paths are never
/// confused.
pub fn complete_call(
    status: &CallStatus,
    ret: Option<&TypeDesc>,
    ret_buf: &Vec<u8>,
    throws: Option<&TypeDesc>,
) -> (r: CallOutcome)
    ensures
        status.code == 0 ==> (match ret {
            None => r matches CallOutcome::Success(v) && v is None,
            Some(t) => match decoding(*t, ret_buf@, 0) {
                Ok(p) => r matches CallOutcome::Success(ov) && (ov matches Some(v) && sv(v) == p.0
                    && conforms(sv(v), *t)),
                Err(e) => r == CallOutcome::Fault(FaultKind::Decode(e)),
            },
        }),
        status.code == 1 ==> (match throws {
            None => r == CallOutcome::Fault(FaultKind::UndeclaredError),
            Some(t) => match decoding(*t, status.error_buf@, 0) {
                Ok(p) => r matches CallOutcome::DomainError(v) && sv(v) == p.0 && conforms(
                    sv(v),
                    *t,
                ),
                Err(e) => r == CallOutcome::Fault(FaultKind::Decode(e)),
            },
        }),
        status.code == 2 ==> (if status.error_buf@.len() == 0 {
            r matches CallOutcome::Fault(f) && (f matches FaultKind::Panic(m) && m@
                == default_panic_message())
        } else if valid_utf8(status.error_buf@) {
            r matches CallOutcome::Fault(f) && (f matches FaultKind::Panic(m) && m@ == decode_utf8(
                status.error_buf@,
            ))
        } else {
            r == CallOutcome::Fault(FaultKind::Decode(DecodeError::InvalidStringData))
        }),
        !(0 <= status.code <= 2) ==> r == CallOutcome::Fault(
            FaultKind::UnknownStatus(status.code),
        ),
{
    if status.code == 0 {
        match ret {
            None => CallOutcome::Success(None),
            Some(t) => {
                match read_value(t, ret_buf, 0) {
                    Ok((v, _)) => CallOutcome::Success(Some(v)),
                    Err(e) => CallOutcome::Fault(FaultKind::Decode(e)),
                }
            },
        }
    } else if status.code == 1 {
        match throws {
            None => CallOutcome::Fault(FaultKind::UndeclaredError),
            Some(t) => {
                match read_value(t, &status.error_buf, 0) {
                    Ok((v, _)) => CallOutcome::DomainError(v),
                    Err(e) => CallOutcome::Fault(FaultKind::Decode(e)),
                }
            },
        }
    } else if status.code == 2 {
        if status.error_buf.len() == 0 {
            CallOutcome::Fault(FaultKind::Panic(panic_default_text()))
        } else {
            let copy = copy_bytes(&status.error_buf);
            match string_from_utf8(copy) {
                Some(m) => CallOutcome::Fault(FaultKind::Panic(m)),
                None => CallOutcome::Fault(FaultKind::Decode(DecodeError::InvalidStringData)),
            }
        }
    } else {
        CallOutcome::Fault(FaultKind::UnknownStatus(status.code))
    }
}

/// The default panic diagnostic as an owned string.
fn panic_default_text() -> (r: String)
    ensures
        r@ == default_panic_message(),
{
    let s = String::from_str("Rust panic");
    s
}

/// An owned copy of a byte buffer.
#[verifier::loop_isolation(false)]
fn copy_bytes(b: &Vec<u8>) -> (r: Vec<u8>)
    ensures
        r@ == b@,
{
    let mut out: Vec<u8> = Vec::new();
    let mut i: usize = 0;
    while i < b.len()
        invariant
            i <= b@.len(),
            out@ == b@.take(i as int),
        decreases b@.len() - i,
    {
        out.push(b[i]);
        proof {
            assert(b@.take(i + 1) =~= b@.take(i as int).push(b@[i as int]));
        }
        i = i + 1;
    }
    proof {
        assert(b@.take(b@.len() as int) =~= b@);
    }
    out
}


/// What a host-implemented callback method produced, ready to hand back to
/// the native caller.
#[derive(Debug)]
pub enum CallbackResult {
    /// The lowered return value.
    Done(Vec<u8>),
    /// The lowered encoding of the declared error the host raised.
    DeclaredError(Vec<u8>),
    /// The host panicked; its diagnostic message.
    HostPanic(String),
}

/// Report a callback outcome to the native caller: the status protocol of
/// the forward direction, run in reverse.  Success carries the lowered
/// return value beside a clean status; a declared error travels in the
/// status payload under the error code; a host panic travels as its
/// message under the panic code.
pub fn report_callback_outcome(r: CallbackResult) -> (out: (CallStatus, Vec<u8>))
    ensures
        match r {
            CallbackResult::Done(bytes) => out.0.code == 0 && out.0.error_buf@ == Seq::<
                u8,
            >::empty() && out.1@ == bytes@,
            CallbackResult::DeclaredError(bytes) => out.0.code == 1 && out.0.error_buf@ == bytes@
                && out.1@ == Seq::<u8>::empty(),
            CallbackResult::HostPanic(msg) => out.0.code == 2 && out.0.error_buf@
                == vstd::utf8::encode_utf8(msg@) && out.1@ == Seq::<u8>::empty(),
        },
{
    match r {
        CallbackResult::Done(bytes) => (
            CallStatus { code: 0, error_buf: Vec::new() },
            bytes,
        ),
        CallbackResult::DeclaredError(bytes) => (
            CallStatus { code: 1, error_buf: bytes },
            Vec::new(),
        ),
        CallbackResult::HostPanic(msg) => (
            CallStatus { code: 2, error_buf: msg.as_str().as_bytes_vec() },
            Vec::new(),
        ),
    }
}

} // verus!
