//! A remote transaction-signing service for Solana, as a verified library.
//!
//! A process is configured once with a [`signer::SignerConfig`], which selects
//! the backend that holds the key. Each request is then validated, its
//! transaction brought into canonical form, signed by the backend, and the
//! signature returned in an envelope that echoes the request's `id` and
//! `jsonrpc` tag, on success and on failure alike.
pub mod bytes;
pub mod config;
pub mod error;
pub mod route;
pub mod signer;
pub mod text;
pub mod transaction;
pub mod view;
