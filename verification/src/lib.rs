//! Verified core of a Dart binding generator for native libraries.
//!
//! The crate models a language-agnostic interface description (functions,
//! records, enums, objects), the byte-level wire format that values take when
//! they cross the foreign-function boundary, the call-status protocol that
//! reports success, declared errors and panics, the poll protocol that bridges
//! native asynchronous operations, and the reference-count discipline of
//! opaque object handles.  On top of that model it fixes every decision of
//! the generated Dart surface — names, discriminants, widths and entry
//! points — in declaration models, and emits the fixed runtime preamble.

pub mod codec;
pub mod fixtures;
pub mod futures;
pub mod gen;
pub mod handles;
pub mod interface;
pub mod lifecycle;
pub mod naming;
pub mod numerals;
pub mod registry;
pub mod status;
pub mod value;
pub mod wire;
