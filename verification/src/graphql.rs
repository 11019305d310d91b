//! The inbound GraphQL adapter.

pub mod api;
