//! Typed cross-document references and bare input descriptors, the
//! earliest sketch of the schema system: a reference serializes as a
//! `_type`/`_ref` pair whose `_type` is always the word `reference`.

use vstd::prelude::*;

verus! {

/// A bare text input descriptor.
#[derive(Debug)]
pub struct InputField {
    pub label: String,
    pub hint: String,
}

/// A bare multi-line input descriptor.
#[derive(Debug)]
pub struct InputArea {
    pub label: String,
    pub hint: String,
}

/// A bare date input descriptor.
#[derive(Debug)]
pub struct InputDate {
    pub label: String,
    pub hint: String,
}

/// A typed reference to another document: the target's identity plus the
/// constant type marker.
pub struct Reference<T> {
    pub ref_type: String,
    pub id: String,
    pub marker: core::marker::PhantomData<T>,
}

impl<T> Reference<T> {
    /// A reference to the document with the given identity; the type
    /// marker is always the word `reference`.
    pub fn new(id: &str) -> (r: Self)
        ensures
            r.ref_type@ == "reference"@,
            r.id@ == id@,
    {
        Reference {
            ref_type: "reference".to_owned(),
            id: id.to_owned(),
            marker: core::marker::PhantomData,
        }
    }
}

} // verus!
