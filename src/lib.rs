//! Protocol core of a cross-chain atomic swap between an arbitrating chain
//! with scripts and an accordant chain without them.
//!
//! - `codec`: the canonical wire encoding and its round-trip laws.
//! - `crypto`: commitments, tagged signatures, cross-group proofs, and the
//!   curve primitives the arbitrating chain signs with.
//! - `script`: the lock data and the scripts that enforce them.
//! - `fee`: fee strategies and the weight-based fee of a transaction.
//! - `transaction`: transaction identities, partial transactions, their
//!   extraction, and the capabilities of each kind of transaction.
//! - `spend`, `cancel`, `punish`: building, signing and finalizing the
//!   transactions that spend a lock through its timelocked branch.
//! - `protocol`: the parameter bundles, the protocol messages, and the
//!   order in which they are accepted.
//! - `error`: the errors the core reports.

pub mod cancel;
pub mod codec;
pub mod crypto;
pub mod error;
pub mod fee;
pub mod protocol;
pub mod punish;
pub mod script;
pub mod spend;
pub mod transaction;
