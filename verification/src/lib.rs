//! Signature-coordination core of a proof-of-space farming node.
//!
//! The library receives partial BLS signatures produced by harvester
//! processes, locates the matching signage point and proof-of-space
//! candidate in the shared farming state, reconstructs and checks the
//! aggregate signatures, and hands back a dispatch-ready declaration or
//! signed-values message. Everything the engine decides is stated as a
//! function of its inputs; the cryptographic primitives of the outside
//! crates stand behind trusted wrappers with named results.

pub mod bytes;
pub mod model;
pub mod bls;
pub mod engine;
pub mod config;
