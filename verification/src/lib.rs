//! A document store: the domain model, the storage ports that adapters
//! implement, and the adapters' own value mappings, each with a contract.

pub mod client;
pub mod graphql;
pub mod memory;
pub mod model;
pub mod ports;
pub mod postgres;
pub mod server;
pub mod text;
