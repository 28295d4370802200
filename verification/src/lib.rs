//! Storage abstraction and metadata-consistency layer of a file service.
//!
//! Users upload, list, search, retrieve and delete binary files. The bytes
//! live in a backend (local disk or an object store); a relational catalog
//! keeps one row of metadata per file. This crate holds the rules that keep
//! the two consistent: how an address is generated, how a transfer is
//! accounted for, who may delete what, how the catalog answers queries, and
//! the protocol the coordinator follows across partial failures.

pub mod auth;
pub mod catalog;
pub mod config;
pub mod coordinator;
pub mod error;
pub mod memory;
pub mod models;
pub mod naming;
pub mod policy;
pub mod record;
pub mod requests;
pub mod storage;
pub mod text;
pub mod timestamp;
pub mod transfer;
pub mod vault;
