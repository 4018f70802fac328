//! Error taxonomy: user-input faults (validation), missing documents and
//! store failures are kept apart so callers can map them to distinct
//! responses without parsing messages.

use vstd::prelude::*;

verus! {

/// A fault in user-supplied input, rejected before any store write.
#[derive(Debug)]
pub enum ValidationError {
    /// The `form_type` string of a field names no known input kind.
    InvalidFormKind(String),
    /// The tag of a block payload names no known block variant.
    UnknownBlockKind(String),
}

/// Mathematical image of a `ValidationError`: the carried strings as
/// character sequences.
pub enum ValidationErrorV {
    InvalidFormKind(Seq<char>),
    UnknownBlockKind(Seq<char>),
}

impl View for ValidationError {
    type V = ValidationErrorV;

    open spec fn view(&self) -> ValidationErrorV {
        match self {
            ValidationError::InvalidFormKind(s) => ValidationErrorV::InvalidFormKind(s@),
            ValidationError::UnknownBlockKind(s) => ValidationErrorV::UnknownBlockKind(s@),
        }
    }
}

impl ValidationError {
    /// A short description for operator diagnostics.
    pub fn message(&self) -> (r: String)
        ensures
            self@ matches ValidationErrorV::InvalidFormKind(s) ==> r@ == s,
            self@ matches ValidationErrorV::UnknownBlockKind(s) ==> r@ == s,
    {
        match self {
            ValidationError::InvalidFormKind(s) => s.clone(),
            ValidationError::UnknownBlockKind(s) => s.clone(),
        }
    }
}

/// A failure of the document store.
#[derive(Debug)]
pub enum StoreError {
    /// The referenced document does not exist.
    NotFound,
    /// The store could not be reached; the message is diagnostic only.
    Unavailable(String),
    /// The store refused the write; the message is diagnostic only.
    WriteRejected(String),
}

/// Mathematical image of a `StoreError`.
pub enum StoreErrorV {
    NotFound,
    Unavailable(Seq<char>),
    WriteRejected(Seq<char>),
}

impl View for StoreError {
    type V = StoreErrorV;

    open spec fn view(&self) -> StoreErrorV {
        match self {
            StoreError::NotFound => StoreErrorV::NotFound,
            StoreError::Unavailable(s) => StoreErrorV::Unavailable(s@),
            StoreError::WriteRejected(s) => StoreErrorV::WriteRejected(s@),
        }
    }
}

/// An error of the update protocol: either the inbound edit was malformed
/// (rejected before any write) or the store operation failed.
#[derive(Debug)]
pub enum UpdateError {
    Validation(ValidationError),
    Store(StoreError),
}

/// Mathematical image of an `UpdateError`.
pub enum UpdateErrorV {
    Validation(ValidationErrorV),
    Store(StoreErrorV),
}

impl View for UpdateError {
    type V = UpdateErrorV;

    open spec fn view(&self) -> UpdateErrorV {
        match self {
            UpdateError::Validation(e) => UpdateErrorV::Validation(e@),
            UpdateError::Store(e) => UpdateErrorV::Store(e@),
        }
    }
}

} // verus!
