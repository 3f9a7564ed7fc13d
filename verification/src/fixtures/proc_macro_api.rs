//! An interface declared through attributes: records, objects, traits the
//! host implements, and a declared error.

use vstd::prelude::*;
use std::sync::Arc;

verus! {

/// A one-field record.
#[derive(Debug, PartialEq, Eq)]
pub struct One {
    inner: i32,
}

impl One {
    /// The record's field, as the contracts speak of it.
    pub closed spec fn spec_inner(&self) -> i32 {
        self.inner
    }
}

/// A record holding a string.
#[derive(Debug, PartialEq, Eq)]
pub struct Two {
    a: String,
}

impl Two {
    /// The record's field, as the contracts speak of it.
    pub closed spec fn spec_a(&self) -> Seq<char> {
        self.a@
    }

    /// A record holding the given string.
    pub fn new(a: String) -> (r: Self)
        ensures
            r.spec_a() == a@,
    {
        Two { a }
    }
}

/// A record carrying raw bytes.
#[derive(Debug, PartialEq, Eq)]
pub struct RecordWithBytes {
    pub some_bytes: Vec<u8>,
}

/// An object without state.
#[derive(Debug)]
pub struct Object;

impl Object {
    /// A fresh shared object.
    pub fn new() -> (r: Arc<Object>)
    {
        Arc::new(Object)
    }

    /// This object is never known to be heavy.
    pub fn is_heavy(&self) -> (r: MaybeBool)
        ensures
            r == MaybeBool::Uncertain,
    {
        MaybeBool::Uncertain
    }
}

/// A trait the host implements and hands across the boundary.
pub trait Trait {
    fn concat_strings(&self, a: &str, b: &str) -> String;
}

/// A trait whose implementations can live on either side of the boundary.
pub trait TraitWithForeign {
    fn name(&self) -> String;
}

/// The callback interface a host implements for this API.
pub trait TestCallbackInterface {
    fn do_nothing(&self);

    fn add(&self, a: i32, b: i32) -> i32;

    fn optional(&self, a: Option<i32>) -> i32;

    fn with_bytes(&self, rwb: RecordWithBytes) -> Vec<u8>;

    fn try_parse_int(&self, value: String) -> Result<i32, BasicError>;

    fn callback_handler(&self, o: Arc<Object>) -> i32;
}

/// A second callback interface reachable through the first.
pub trait OtherCallbackInterface {
    fn multiply(&self, a: i32, b: i32) -> i32;
}

/// A three-valued truth.
#[derive(Clone, Copy, Debug, PartialEq, Eq, Structural)]
pub enum MaybeBool {
    True,
    False,
    Uncertain,
}

/// An enum mixing bare, string, integer and paired payloads.
#[derive(Debug, PartialEq, Eq)]
pub enum MixedEnum {
    Nothing,
    Text(String),
    Int(i64),
    Both(String, i64),
}

/// The declared error of this interface.
#[derive(Debug, PartialEq, Eq)]
pub enum BasicError {
    InvalidInput,
    OsError,
    UnexpectedError { reason: String },
}

/// A record declared in the interface description without attributes.
#[derive(Debug, PartialEq, Eq)]
pub struct Zero {
    inner: String,
}

impl Zero {
    /// The record's field, as the contracts speak of it.
    pub closed spec fn spec_inner(&self) -> Seq<char> {
        self.inner@
    }
}

/// A one-field record holding the given value.
pub fn make_one(inner: i32) -> (r: One)
    ensures
        r.spec_inner() == inner,
{
    One { inner }
}

/// The string a `Two` holds.
pub fn take_two(two: Two) -> (r: String)
    ensures
        r@ == two.spec_a(),
{
    two.a
}

/// This call always reports the operating-system error.
pub fn always_fails() -> (r: Result<(), BasicError>)
    ensures
        r == Err::<(), BasicError>(BasicError::OsError),
{
    Err(BasicError::OsError)
}

/// The fixed record the zero constructor returns.
pub fn make_zero() -> (r: Zero)
    ensures
        r.spec_inner() == "ZERO"@,
{
    Zero { inner: String::from_str("ZERO") }
}

/// The given record, or the zero-valued one when none was given.
pub fn get_one(one: Option<One>) -> (r: One)
    ensures
        one matches Some(x) ==> r == x,
        one is None ==> r.spec_inner() == 0,
{
    match one {
        Some(x) => x,
        None => One { inner: 0 },
    }
}

/// The given truth, or uncertainty when none was given.
pub fn get_bool(b: Option<MaybeBool>) -> (r: MaybeBool)
    ensures
        b matches Some(x) ==> r == x,
        b is None ==> r == MaybeBool::Uncertain,
{
    match b {
        Some(x) => x,
        None => MaybeBool::Uncertain,
    }
}

/// The given object, or a fresh one when none was given.
pub fn get_object(o: Option<Arc<Object>>) -> (r: Arc<Object>)
    ensures
        o matches Some(x) ==> r == x,
{
    match o {
        Some(x) => x,
        None => Object::new(),
    }
}

/// A pair of optional values, defaulted together.
#[derive(Debug)]
pub struct Externals {
    pub one: Option<One>,
    pub maybe: Option<MaybeBool>,
}

impl Default for Externals {
    /// Both halves absent.
    fn default() -> (r: Self)
        ensures
            r.one is None,
            r.maybe is None,
    {
        Externals { one: None, maybe: None }
    }
}

/// The given pair, or the all-absent default.
pub fn get_externals(e: Option<Externals>) -> (r: Externals)
    ensures
        e matches Some(x) ==> r == x,
        e is None ==> r.one is None && r.maybe is None,
{
    match e {
        Some(x) => x,
        None => Externals::default(),
    }
}

} // verus!
