//! Zero-knowledge interval proofs over BLS12-381: Pedersen-style commitments,
//! a pairing-checked range proof built from them, and non-interactive Schnorr
//! proofs of knowledge for the blinding factors the range proof consumes.
//!
//! Curve and field arithmetic, hashing and hex coding are done by outside
//! crates. Their results are described by the integer each value stands for:
//! a scalar is a residue modulo the prime group order, a point of a
//! prime-order group is the multiple of the group's generator that it is.
//! Over that model the algebra of the protocols is proved.

pub mod constants;
pub mod curve;
pub mod encoding;
pub mod field;
pub mod pedersen;
pub mod range;
pub mod schnorr;
