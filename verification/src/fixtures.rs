//! Sample native interfaces exercised by the test suite.
//!
//! Each module is a small native API of the shape the generator handles:
//! plain functions, records, enums, error enums, objects and callback
//! interfaces.  Their behaviour is specified exactly, so the tests can hold
//! the codec and the generated surface against concrete expectations.

pub mod benchmarks;
pub mod dart_async;
pub mod enum_types;
pub mod external_consumer;
pub mod external_provider;
pub mod large_error;
pub mod large_enum;
pub mod metadata;
pub mod proc_macro_api;
pub mod simple_fns;
pub mod simple_iface;
pub mod struct_defaults;
