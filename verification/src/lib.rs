//! Outbound TLS for the router and process-wide cryptography for the gateway.
//!
//! * [`backend`]: the cryptographic backends and the algorithms a FIPS build offers.
//! * [`error`]: why TLS could not be set up, and the text of each failure.
//! * [`provider`]: making and initializing the crypto provider of the process.
//! * [`trust`]: CA bundles and what servers are verified against.
//! * [`tls`]: TLS settings, their one-time initialization and the HTTP clients.
//! * [`kubernetes`]: what the TLS settings make of a Kubernetes configuration.
//! * [`crypto`]: provider installation and SHA-256 hashing for the gateway.
//! * [`external`]: the calls into other crates, with what is assumed of each.

pub mod backend;
pub mod crypto;
pub mod error;
pub mod external;
pub mod kubernetes;
pub mod provider;
pub mod tls;
pub mod trust;
