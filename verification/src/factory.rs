//! Construction of the repository implementation.

use vstd::prelude::*;

use crate::repository::InMemoryDocumentRepository;

verus! {

/// Factory for the registry implementation the domain layer works on.
pub struct RepositoryFactory;

impl RepositoryFactory {
    /// Creates the default document repository: the in-memory registry.
    pub fn create_document_repository() -> (r: InMemoryDocumentRepository)
        ensures
            r.wf(),
            r@ == Seq::<crate::repository::DocEntry>::empty(),
    {
        InMemoryDocumentRepository::new()
    }
}

} // verus!
