//! Certification-path discovery and validation: construction of the
//! candidate-path graph from trust anchors and intermediates, bounded
//! enumeration of all acyclic paths from a target certificate to an
//! anchor, per-path validation (validity windows, signature chaining,
//! basic constraints, key usage, extended key usage, name constraints,
//! trust-anchor constraints), and the driver that turns the outcomes
//! into a single verdict per test vector.
//!
//! Certificates enter as already-decoded plain values; DER and PEM
//! handling, corpus loading and report writing are collaborators outside
//! this crate. The one outside call the engine itself makes is signature
//! verification.
pub mod bytes;
pub mod model;
pub mod crypto;
pub mod names;
pub mod graph;
pub mod enforce;
pub mod validate;
pub mod driver;
pub mod laws;
