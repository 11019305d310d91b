//! The ports that inbound adapters call.

pub mod storage;
