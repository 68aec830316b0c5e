//! Errors of a vector store.
use vstd::prelude::*;

verus! {

/// An error of looking documents up in a vector store.
pub enum VectorStoreError {
    /// The query could not be embedded.
    EmbeddingError(String),
    /// A stored document could not be read as JSON.
    JsonError(String),
    /// The store itself failed.
    DatastoreError(String),
    /// A document that was asked for by id does not exist.
    MissingIdError(String),
}

} // verus!
