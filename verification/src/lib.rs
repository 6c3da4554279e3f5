//! Core of a catalog service for a software-project builder: categories,
//! features, templates, prototypes and projects live in document collections
//! keyed by store-generated identifiers. The crate provides the identifier
//! codec, a generic repository with full CRUD contracts, the read-side
//! aggregation that joins reference fields to the referenced documents, the
//! response builders that shape merged documents for the wire, and the
//! request handlers that validate, run store operations and map outcomes.

pub mod api;
pub mod categories;
pub mod container;
pub mod entities;
pub mod ids;
pub mod prototypes;
pub mod repo;
pub mod response;

pub use api::{ApiError, IdPayload};
pub use container::CollectionsContainer;
pub use entities::{
    Category, Connection, Doc, Feature, File, FileWithId, Introduction, NonFunctionalRequirements,
    OverallDescription, Project, ProjectState, Prototype, PrototypeNode, Specification, Template,
};
pub use ids::Id;
pub use repo::{Entry, Repository, StoreError};
