//! Vanity search over EIP-1559 transaction fees.
//!
//! The library signs candidate transactions that differ only in their fee
//! parameters until the hash of one of them, rendered as a `0x`-prefixed
//! lowercase hexadecimal string, starts with a caller-supplied target prefix.
//! It provides the fee-space partitioning for parallel workers, the batch
//! generation over a fee cursor, the deterministic signing of one candidate,
//! the prefix matcher, the first-match-wins claim on a shared cancellation
//! flag, and the prediction of the contract address the winning transaction
//! would create.

pub mod address;
pub mod coordinator;
pub mod digest;
pub mod fees;
pub mod hexfmt;
pub mod signer;
pub mod tx;
pub mod worker;
