//! Translates a GraphQL introspection type collection into native type
//! declarations for Rust: nullability flattening across nested List and
//! NonNull wrappers, sum-type modeling of interfaces, unions and enums, and
//! identifier normalization with wire-name preservation. Every emitted byte
//! is pinned by the contracts over the spec-level model of the output.

use vstd::prelude::*;

pub mod languages;
pub mod schema_types;

verus! {

/// A diagnostic failure raised while turning input text into a schema:
/// the text was not valid JSON or did not have the introspection shape.
pub struct Error(pub String);

impl Error {
    pub fn new(message: String) -> (e: Error)
        ensures
            e.0 == message,
    {
        Error(message)
    }

    pub fn message(&self) -> (m: &String)
        ensures
            m@ == self.0@,
    {
        &self.0
    }
}

} // verus!
