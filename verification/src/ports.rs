//! The ports of the domain: what inbound adapters may ask of it, and what
//! it asks of a storage backend.

pub mod primary;
pub mod secondary;
