//! A private package-registry library: upload framing, index sharding and
//! append semantics, checksum-bearing index records, storage-backend
//! modelling, and the publish pipeline's decision logic.

pub mod authentication;
pub mod checksum;
pub mod config;
pub mod errors;
pub mod json;
pub mod parser;
pub mod registry;
pub mod service;
pub mod storage;
pub mod strutil;
