//! Code-generation backend for an HTTP-API description compiler: given a
//! resolved model of the API's objects, operations and parameters, it
//! synthesizes Rust source for plain data records, typestate-checked
//! builders, and per-builder dispatch descriptors.

pub mod builder;
pub mod emit;
pub mod fields;
pub mod model;
pub mod text;
pub mod typestate;
pub mod walker;
