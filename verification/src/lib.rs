//! Transaction publishing for a trie-backed data service: request
//! validation, record hashing and the decision logic of `publish`.

pub mod defaults;
pub mod digest;
pub mod transaction;
pub mod metadata;
pub mod meta_contract;
pub mod error;
pub mod result;
pub mod publish;
pub mod laws;
pub mod host;
pub mod base58;
pub mod hash_laws;
