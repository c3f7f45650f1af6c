//! The operations that the transport layer offers on stored files.

pub mod files;
