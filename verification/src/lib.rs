//! A concurrency-safe bridge exposing a stateful, transactional entity store
//! to a host runtime through opaque integer handles.
//!
//! The store itself is an external collaborator; this crate verifies the
//! bridge around it: the generation-checked handle registry, the translation
//! of each request into an atomic batch of store operations with auto-derived
//! "modified" timestamps, the query and document-merging layer, and the
//! parser for declarative synchronization configurations.

pub mod bridge;
pub mod config;
pub mod doc;
pub mod json;
pub mod model;
pub mod numfmt;
pub mod plan;
pub mod registry;
pub mod store;
pub mod types;
