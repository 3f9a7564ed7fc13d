//! The poll protocol that bridges native asynchronous operations.
//!
//! Starting a native operation yields an opaque future handle.  The driver
//! polls it through a native entry point; each poll eventually answers ready
//! or not ready through the continuation trampoline.  Not-ready answers are
//! re-polled — the only retry in the system.  On ready, one complete call
//! fetches the final status and payload, which resolve exactly like a
//! synchronous call, and one free call releases the native resource
//! unconditionally, even when lifting faults.

use vstd::prelude::*;
use vstd::utf8::decode_utf8;
use vstd::utf8::valid_utf8;
use crate::codec::decoding;
use crate::codec::DecodeError;
use crate::interface::TypeDesc;
use crate::status::complete_call;
use crate::status::default_panic_message;
use crate::status::CallOutcome;
use crate::status::CallStatus;
use crate::status::FaultKind;
use crate::value::conforms;
use crate::value::sv;

verus! {

/// The readiness signal a poll's continuation reports.
#[derive(Clone, Copy, Debug, PartialEq, Eq, Structural)]
pub enum PollSignal {
    NotReady,
    Ready,
}

/// The native entry points the driver can call on a future handle.
#[derive(Clone, Copy, Debug, PartialEq, Eq, Structural)]
pub enum FutureCall {
    Poll,
    Complete,
    Free,
}

/// Drive one native future to completion.  `signals` is the readiness
/// answer of each successive poll: a run of not-ready answers closed by one
/// ready answer.  `completion` is what the complete entry point then
/// reports, resolved exactly like a synchronous call status.  The returned
/// trace lists every native call made, in order: one poll per signal, then
/// one complete, then one free — the free comes last whatever the outcome.
#[verifier::loop_isolation(false)]
pub fn drive_future(
    signals: &Vec<PollSignal>,
    completion: &CallStatus,
    ret: Option<&TypeDesc>,
    ret_buf: &Vec<u8>,
    throws: Option<&TypeDesc>,
) -> (r: (Vec<FutureCall>, CallOutcome))
    requires
        signals@.len() >= 1,
        signals@[signals@.len() - 1] == PollSignal::Ready,
        forall|i: int| 0 <= i < signals@.len() - 1 ==> signals@[i] == PollSignal::NotReady,
    ensures
        r.0@.len() == signals@.len() + 2,
        forall|i: int| 0 <= i < signals@.len() ==> r.0@[i] == FutureCall::Poll,
        r.0@[signals@.len() as int] == FutureCall::Complete,
        r.0@[signals@.len() as int + 1] == FutureCall::Free,
        completion.code == 0 ==> (match ret {
            None => r.1 matches CallOutcome::Success(v) && v is None,
            Some(t) => match decoding(*t, ret_buf@, 0) {
                Ok(p) => r.1 matches CallOutcome::Success(ov) && (ov matches Some(v) && sv(v)
                    == p.0 && conforms(sv(v), *t)),
                Err(e) => r.1 == CallOutcome::Fault(FaultKind::Decode(e)),
            },
        }),
        completion.code == 1 ==> (match throws {
            None => r.1 == CallOutcome::Fault(FaultKind::UndeclaredError),
            Some(t) => match decoding(*t, completion.error_buf@, 0) {
                Ok(p) => r.1 matches CallOutcome::DomainError(v) && sv(v) == p.0 && conforms(
                    sv(v),
                    *t,
                ),
                Err(e) => r.1 == CallOutcome::Fault(FaultKind::Decode(e)),
            },
        }),
        completion.code == 2 ==> (if completion.error_buf@.len() == 0 {
            r.1 matches CallOutcome::Fault(f) && (f matches FaultKind::Panic(m) && m@
                == default_panic_message())
        } else if valid_utf8(completion.error_buf@) {
            r.1 matches CallOutcome::Fault(f) && (f matches FaultKind::Panic(m) && m@
                == decode_utf8(completion.error_buf@))
        } else {
            r.1 == CallOutcome::Fault(FaultKind::Decode(DecodeError::InvalidStringData))
        }),
        !(0 <= completion.code <= 2) ==> r.1 == CallOutcome::Fault(
            FaultKind::UnknownStatus(completion.code),
        ),
{
    let n = signals.len();
    let mut trace: Vec<FutureCall> = Vec::new();
    let mut i: usize = 0;
    let mut ready = false;
    while !ready
        invariant
            i <= n,
            n == signals@.len(),
            trace@.len() == i,
            forall|j: int| 0 <= j < i ==> trace@[j] == FutureCall::Poll,
            ready <==> (i > 0 && signals@[i - 1] == PollSignal::Ready),
            !ready ==> forall|j: int| 0 <= j < i ==> signals@[j] == PollSignal::NotReady,
        decreases n - i,
    {
        proof {
            // Were every signal so far not ready, the closing ready signal
            // would still be ahead.
            assert(i < n) by {
                if i == n {
                    assert(signals@[n - 1] == PollSignal::NotReady);
                }
            }
        }
        trace.push(FutureCall::Poll);
        let signal = signals[i];
        ready = match signal {
            PollSignal::Ready => true,
            PollSignal::NotReady => false,
        };
        i = i + 1;
    }
    proof {
        assert(i == n) by {
            if i < n {
                assert(signals@[i - 1] == PollSignal::NotReady);
            }
        }
    }
    trace.push(FutureCall::Complete);
    let outcome = complete_call(completion, ret, ret_buf, throws);
    trace.push(FutureCall::Free);
    (trace, outcome)
}

} // verus!
