//! Checks of call-status interpretation and the future poll protocol.

use uniffi_dart::codec::lower;
use uniffi_dart::codec::DecodeError;
use uniffi_dart::futures::drive_future;
use uniffi_dart::futures::FutureCall;
use uniffi_dart::futures::PollSignal;
use uniffi_dart::interface::FieldDesc;
use uniffi_dart::interface::TypeDesc;
use uniffi_dart::interface::VariantDesc;
use uniffi_dart::status::complete_call;
use uniffi_dart::status::report_callback_outcome;
use uniffi_dart::status::CallbackResult;
use uniffi_dart::status::CallOutcome;
use uniffi_dart::status::CallStatus;
use uniffi_dart::status::FaultKind;
use uniffi_dart::value::WireValue;

fn error_type() -> TypeDesc {
    TypeDesc::Enum {
        name: String::from("large_error"),
        variants: vec![
            VariantDesc { name: String::from("Case1"), fields: vec![] },
            VariantDesc {
                name: String::from("Case2"),
                fields: vec![FieldDesc { name: String::from("arg1"), ty: TypeDesc::Str }],
            },
        ],
        flat: false,
    }
}

#[test]
fn success_with_return_lifts_it() {
    let status = CallStatus { code: 0, error_buf: vec![] };
    let ret_buf = lower(&WireValue::U32(17));
    match complete_call(&status, Some(&TypeDesc::UInt32), &ret_buf, None) {
        CallOutcome::Success(Some(v)) => assert_eq!(v, WireValue::U32(17)),
        other => panic!("unexpected outcome: {:?}", other),
    }
}

#[test]
fn success_void_has_no_value() {
    let status = CallStatus { code: 0, error_buf: vec![] };
    match complete_call(&status, None, &vec![], None) {
        CallOutcome::Success(None) => {},
        other => panic!("unexpected outcome: {:?}", other),
    }
}

#[test]
fn declared_error_surfaces_typed() {
    // Scenario: ERROR status whose payload decodes to the second declared
    // variant carrying the string "x".
    let t = error_type();
    let payload = lower(&WireValue::EnumV {
        index: 1,
        fields: vec![WireValue::Text(String::from("x"))],
    });
    let status = CallStatus { code: 1, error_buf: payload };
    match complete_call(&status, None, &vec![], Some(&t)) {
        CallOutcome::DomainError(v) => {
            assert_eq!(
                v,
                WireValue::EnumV {
                    index: 1,
                    fields: vec![WireValue::Text(String::from("x"))],
                }
            );
        },
        other => panic!("expected the typed error, got {:?}", other),
    }
}

#[test]
fn undeclared_error_is_a_fault() {
    let status = CallStatus { code: 1, error_buf: vec![] };
    match complete_call(&status, None, &vec![], None) {
        CallOutcome::Fault(FaultKind::UndeclaredError) => {},
        other => panic!("unexpected outcome: {:?}", other),
    }
}

#[test]
fn corrupt_error_payload_is_a_decode_fault() {
    let t = error_type();
    let status = CallStatus { code: 1, error_buf: vec![0, 0, 0, 9] };
    match complete_call(&status, None, &vec![], Some(&t)) {
        CallOutcome::Fault(FaultKind::Decode(DecodeError::UnexpectedEnumCase)) => {},
        other => panic!("unexpected outcome: {:?}", other),
    }
}

#[test]
fn panic_carries_its_message() {
    let status = CallStatus { code: 2, error_buf: b"boom".to_vec() };
    match complete_call(&status, None, &vec![], None) {
        CallOutcome::Fault(FaultKind::Panic(m)) => assert_eq!(m, "boom"),
        other => panic!("unexpected outcome: {:?}", other),
    }
}

#[test]
fn panic_without_message_uses_the_default() {
    let status = CallStatus { code: 2, error_buf: vec![] };
    match complete_call(&status, None, &vec![], None) {
        CallOutcome::Fault(FaultKind::Panic(m)) => assert_eq!(m, "Rust panic"),
        other => panic!("unexpected outcome: {:?}", other),
    }
}

#[test]
fn unknown_status_code_is_reported() {
    let status = CallStatus { code: 7, error_buf: vec![] };
    match complete_call(&status, None, &vec![], None) {
        CallOutcome::Fault(FaultKind::UnknownStatus(7)) => {},
        other => panic!("unexpected outcome: {:?}", other),
    }
}

#[test]
fn driver_polls_once_per_signal_then_completes_then_frees() {
    for not_ready in 0..4usize {
        let mut signals = vec![PollSignal::NotReady; not_ready];
        signals.push(PollSignal::Ready);
        let completion = CallStatus { code: 0, error_buf: vec![] };
        let ret_buf = lower(&WireValue::Bool(true));
        let (trace, outcome) =
            drive_future(&signals, &completion, Some(&TypeDesc::Boolean), &ret_buf, None);
        assert_eq!(trace.len(), not_ready + 3);
        for i in 0..(not_ready + 1) {
            assert_eq!(trace[i], FutureCall::Poll);
        }
        assert_eq!(trace[not_ready + 1], FutureCall::Complete);
        assert_eq!(trace[not_ready + 2], FutureCall::Free);
        match outcome {
            CallOutcome::Success(Some(v)) => assert_eq!(v, WireValue::Bool(true)),
            other => panic!("unexpected outcome: {:?}", other),
        }
    }
}

#[test]
fn future_panic_boom_surfaces_and_still_frees() {
    let signals = vec![PollSignal::NotReady, PollSignal::Ready];
    let completion = CallStatus { code: 2, error_buf: b"boom".to_vec() };
    let (trace, outcome) = drive_future(&signals, &completion, None, &vec![], None);
    assert_eq!(trace.last(), Some(&FutureCall::Free));
    match outcome {
        CallOutcome::Fault(FaultKind::Panic(m)) => assert_eq!(m, "boom"),
        other => panic!("unexpected outcome: {:?}", other),
    }
}

#[test]
fn future_panic_empty_message_uses_default() {
    let signals = vec![PollSignal::Ready];
    let completion = CallStatus { code: 2, error_buf: vec![] };
    let (trace, outcome) = drive_future(&signals, &completion, None, &vec![], None);
    assert_eq!(trace, vec![FutureCall::Poll, FutureCall::Complete, FutureCall::Free]);
    match outcome {
        CallOutcome::Fault(FaultKind::Panic(m)) => assert_eq!(m, "Rust panic"),
        other => panic!("unexpected outcome: {:?}", other),
    }
}

#[test]
fn callback_reporting_mirrors_the_forward_direction() {
    let t = error_type();
    let err_value = WireValue::EnumV {
        index: 1,
        fields: vec![WireValue::Text(String::from("x"))],
    };
    let (status, ret) = report_callback_outcome(CallbackResult::DeclaredError(lower(&err_value)));
    assert!(ret.is_empty());
    match complete_call(&status, None, &vec![], Some(&t)) {
        CallOutcome::DomainError(v) => assert_eq!(v, err_value),
        other => panic!("unexpected outcome: {:?}", other),
    }

    let (status, ret) = report_callback_outcome(CallbackResult::Done(lower(&WireValue::U8(9))));
    assert_eq!(status.code, 0);
    match complete_call(&status, Some(&TypeDesc::UInt8), &ret, None) {
        CallOutcome::Success(Some(v)) => assert_eq!(v, WireValue::U8(9)),
        other => panic!("unexpected outcome: {:?}", other),
    }

    let (status, _) = report_callback_outcome(CallbackResult::HostPanic(String::from("oops")));
    match complete_call(&status, None, &vec![], None) {
        CallOutcome::Fault(FaultKind::Panic(m)) => assert_eq!(m, "oops"),
        other => panic!("unexpected outcome: {:?}", other),
    }
}
