//! The generator proper: one declaration model per interface entity.
//!
//! Each generator resolves every name, discriminant, width and entry point
//! a declaration needs and fixes them in a declaration model; rendering the
//! models into host-language source text is a mechanical interpolation that
//! the surrounding tooling performs, so the rendering backend is swappable
//! without touching any codec decision.

pub mod codecs;
pub mod enums;
pub mod functions;
pub mod literals;
pub mod objects;
pub mod records;
pub mod runtime;
pub mod types;
