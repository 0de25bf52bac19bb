//! A memory-resident URL shortener: identifiers are minted by an identifier
//! provider, stored with their URL in a concurrent map, and resolved back.

pub mod command;
pub mod container;
pub mod error;
pub mod id_provider;
pub mod laws;
pub mod query;
pub mod server;
pub mod storage;
