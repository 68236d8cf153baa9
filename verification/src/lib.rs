//! Trust-verification layer for responses from an untrusted remote node.
//!
//! The remote node answers key/value state lookups, account balance lookups
//! and block-by-identifier lookups. Each validator here decides, without
//! re-executing the ledger, whether a response is consistent with a state
//! commitment (a root hash) the caller already trusts: it decodes the
//! Merkle proof material, walks the proof chain back to the trusted root,
//! cross-checks the human-readable payload against the proven payload, and
//! returns acceptance or a typed rejection.

pub mod block;
pub mod chain;
pub mod codec;
pub mod decode;
pub mod digest;
pub mod encode;
pub mod error;
pub mod laws;
pub mod model;
pub mod motes;
pub mod response;
pub mod roundtrip;
pub mod validate;
