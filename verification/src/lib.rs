//! Revocation checking with upki for OpenSSL's verification of certificate
//! chains.
//!
//! OpenSSL calls back once for each certificate of a chain. The callback for
//! the leaf copies the chain, has upki check it, and lets the chain pass, or
//! refuses it with an error.
//!
//! The library decides which call of OpenSSL or upki comes next and what its
//! answer leads to; it makes none of these calls. `verify` is the callback and
//! `config` sets the configuration that it uses. `run` tells what a whole
//! verification does and returns, and `laws` and `calls` what holds of every one.

pub mod calls;
pub mod certificate;
pub mod config;
pub mod laws;
pub mod openssl;
pub mod run;
pub mod verify;

pub use config::upki_openssl_set_config;
pub use verify::upki_openssl_verify_callback;
