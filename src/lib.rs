//! Configuration schema of a network scanner: the settings tree, its
//! built-in defaults, and the port count derived from the scanned range.

pub mod config;
