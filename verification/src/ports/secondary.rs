//! The ports that storage backends implement.

pub mod remote;
pub mod storage;
