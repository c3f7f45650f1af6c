//! Passphrase-based file encryption and the ledger of stored files.

pub mod encryption;
pub mod handlers;
pub mod host;
pub mod models;
pub mod primitives;
pub mod store;
pub mod text;
pub mod utils;
