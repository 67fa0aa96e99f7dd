//! Derivation of a companion builder type from the description of a struct:
//! classification of field types, planning of each field's storage and
//! setters, emission of the builder's source text, and an executable model of
//! how the emitted builder behaves.
pub mod types;
pub mod plan;
pub mod emit;
pub mod model;
pub mod laws;
