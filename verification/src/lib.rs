//! A typed bridge to an external OpenPGP engine.
//!
//! The engine itself (key storage, encryption, decryption, trust evaluation)
//! is an outside capability; what this library states and verifies is the
//! bridge's own policy: how an operation context is configured, how textual
//! identifiers are resolved into usable keys, how engine output buffers are
//! turned into caller-visible values, and how every engine failure mode is
//! translated into one stable error taxonomy. Each public function takes the
//! engine's possible outcomes as plain values and is verified for every one
//! of them.

pub mod context;
pub mod engine;
pub mod errors;
pub mod executor;
pub mod keys;
