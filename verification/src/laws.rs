//! What holds of the store as a whole, beyond what each function says of itself.

pub mod attestations;
pub mod blocks;
pub mod chain;
pub mod contents;
pub mod database;
pub mod database_calls;
pub mod forks;
pub mod interchange;
pub mod local_validators;
pub mod plain;
pub mod protection;
pub mod pruning;
pub mod questions;
pub mod registration;
pub mod registration_calls;
pub mod requests;
pub mod settings;
pub mod steps;
