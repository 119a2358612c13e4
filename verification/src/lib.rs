//! A non-interactive zero-knowledge proof of knowledge of a discrete
//! logarithm over secp256k1 (a Schnorr proof made non-interactive by the
//! Fiat-Shamir transform), used to prove possession of an ordered list of
//! puzzle-solution strings without revealing them.
//!
//! The solver hashes the solution strings into a scalar `w` and publishes
//! the commitment `W = g^w`. A proof is a pair `(A, z)` with `A = g^r` for
//! a fresh random blinding scalar `r` and `z = w*e + r`, where the
//! challenge `e` is derived by hashing the transcript `(g, W, A)` together
//! with an optional bound message. The verifier recomputes `e` and checks
//! `g^z == A + W^e`.

pub mod scalar;
pub mod point;
pub mod transcript;
pub mod protocol;

pub use protocol::PuzzleError;
pub use protocol::PuzzleSolution;
pub use protocol::PuzzleSolutionProof;
