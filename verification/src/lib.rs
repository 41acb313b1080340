//! Core of a real-time collaborative document server.
//!
//! Clients attach to named documents, submit incremental updates, and receive
//! each other's changes.  The crate verifies the document synchronization and
//! session-broadcast engine: the per-document state container, the
//! get-or-create document registry, the sync/update/diff protocol, and the
//! session fanout that delivers updates to all other connected clients.
//! The conflict-free merge algorithm itself is an external capability,
//! consumed through a narrow trusted interface.

pub mod broadcast;
pub mod codec;
pub mod crdt;
pub mod config;
pub mod document_service;
pub mod factory;
pub mod messages;
pub mod repository;
pub mod streaming;
pub mod use_cases;
pub mod ws;

pub use crdt::CollaborativeDocument;
pub use document_service::{DocumentService, SingleDocumentService, SyncResponse};
pub use repository::InMemoryDocumentRepository;
pub use streaming::StreamingSessions;
pub use use_cases::DocumentUseCases;
