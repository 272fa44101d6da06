//! Index resolution and search-index synchronization for a multi-tenant
//! dictionary service.

pub mod text;
pub mod resolver;
pub mod document;
pub mod sync;
pub mod consumer;
pub mod query;
pub mod metadata;
