//! The domain model: documents, the requests on them, and the domain error.

pub mod document;
pub mod error;
