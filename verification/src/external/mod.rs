//! The calls into other crates. Each function states what is assumed of the call it makes;
//! everything else in the library is proved from these statements.

pub mod client;
pub mod defaults;
pub mod hashing;
pub mod http;
pub mod process;
pub mod provider;
pub mod roots;
