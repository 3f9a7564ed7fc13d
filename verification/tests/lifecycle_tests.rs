//! Checks of the object reference-count discipline and the callback handle
//! table.

use uniffi_dart::handles::HandleTable;
use uniffi_dart::lifecycle::dispose;
use uniffi_dart::lifecycle::invoke_method;
use uniffi_dart::lifecycle::run_finalizer;
use uniffi_dart::lifecycle::ObjectWrapper;
use uniffi_dart::lifecycle::RcLedger;

#[test]
fn method_call_balances_the_count_exactly_once() {
    let w = ObjectWrapper { ptr: 0x1000, disposed: false };
    let mut l = RcLedger { clones: 0, frees: 0 };
    invoke_method(&w, &mut l);
    assert_eq!(l, RcLedger { clones: 1, frees: 1 });
    invoke_method(&w, &mut l);
    invoke_method(&w, &mut l);
    assert_eq!(l, RcLedger { clones: 3, frees: 3 });
}

#[test]
fn dispose_twice_frees_once() {
    let mut w = ObjectWrapper { ptr: 0x2000, disposed: false };
    let mut l = RcLedger { clones: 0, frees: 0 };
    assert!(dispose(&mut w, &mut l));
    assert!(!dispose(&mut w, &mut l));
    assert_eq!(l.frees, 1);
    assert!(w.disposed);
}

#[test]
fn finalizer_after_dispose_is_a_no_op() {
    let mut w = ObjectWrapper { ptr: 0x3000, disposed: false };
    let mut l = RcLedger { clones: 0, frees: 0 };
    assert!(dispose(&mut w, &mut l));
    assert!(!run_finalizer(&mut w, &mut l));
    assert_eq!(l.frees, 1);
}

#[test]
fn finalizer_alone_frees_once() {
    let mut w = ObjectWrapper { ptr: 0x4000, disposed: false };
    let mut l = RcLedger { clones: 0, frees: 0 };
    assert!(run_finalizer(&mut w, &mut l));
    assert_eq!(l.frees, 1);
}

#[test]
fn handle_table_issues_fresh_handles() {
    let mut table: HandleTable<String> = HandleTable::new();
    let a = table.insert(String::from("alpha"));
    let b = table.insert(String::from("beta"));
    assert_ne!(a, b);
    assert_eq!(table.get(a), Some(&String::from("alpha")));
    assert_eq!(table.get(b), Some(&String::from("beta")));
    assert!(table.is_live(a));
    assert_eq!(table.get(0), None);
    assert_eq!(table.get(99), None);
}

#[test]
fn removed_handles_stay_dead() {
    let mut table: HandleTable<u32> = HandleTable::new();
    let a = table.insert(11);
    let b = table.insert(22);
    assert_eq!(table.remove(a), Some(11));
    assert_eq!(table.remove(a), None);
    assert!(!table.is_live(a));
    assert_eq!(table.get(b), Some(&22));
    let c = table.insert(33);
    assert_ne!(c, a);
    assert_eq!(table.get(c), Some(&33));
}
