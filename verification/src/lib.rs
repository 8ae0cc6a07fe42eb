//! The decisions of an Ethereum validator client's validator store.

pub mod chain_spec;
pub mod doppelganger;
pub mod error;
pub mod initialized_validators;
pub mod laws;
pub mod local_validator;
pub mod messages;
pub mod pending;
pub mod primitives;
pub mod pubkey_map;
pub mod store;
