//! Content model for a small posts-based website backend.
//!
//! The library covers the typed, polymorphic content-block document model
//! and its persistence protocol: form fields with a closed set of input
//! kinds, tagged content blocks, post documents, a static schema registry
//! driving form rendering, an in-memory document store with full-replace
//! and merge (append-block) updates, and the update protocol that
//! validates inbound edits before any write.

pub mod blocks;
pub mod counter;
pub mod errors;
pub mod fields;
pub mod pages;
pub mod post;
pub mod protocol;
pub mod refs;
pub mod registry;
pub mod seo;
pub mod store;
