//! Verified core of a distributed code-hosting node and its push gatekeeper.
//!
//! Two subsystems share this library: an anchor-driven replication engine
//! that turns on-chain project anchors into tracked project identifiers,
//! and a pre-receive push authorizer that checks a signed push certificate
//! and the identity behind every proposed ref update.

pub mod bytes;
pub mod error;
pub mod fingerprint;
pub mod peer;
pub mod pre_receive;
pub mod signer;
pub mod tracker;
pub mod urn;
