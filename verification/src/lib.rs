//! A signing oracle for EVM transactions.
//!
//! The crate fronts a private key: it agrees on a session secret with a peer,
//! authenticates signed envelopes, builds native and ERC-20 transfers, encodes
//! them in one of three wire formats and signs them. Nothing is ever broadcast.

pub mod envelope;
pub mod error;
pub mod pipeline;
pub mod primitives;
pub mod recovery;
pub mod request;
pub mod rlp;
pub mod session;
pub mod signer;
pub mod transaction;

