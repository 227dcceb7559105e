//! Proof-of-work nonce search: a digest comparator, a sequential search
//! engine, the host side of a parallel device dispatch, and a verifier that
//! holds the two engines' results against each other.

pub mod difficulty;
pub mod dispatch;
pub mod encoding;
pub mod hash;
pub mod laws;
pub mod search;
pub mod crosscheck;
