//! Projection of typed IBC protocol messages into a generic value tree of
//! nulls, booleans, numbers, strings, byte arrays, arrays and objects.
//!
//! - `value`: the value tree, its model, and the builders that the
//!   projection uses (numbers, strings, bytes, objects).
//! - `encode`: the [`encode::ToJS`] trait and the protocol's leaf types:
//!   identifiers, heights, timeouts, proofs, counterparties.
//! - `consensus`: light-client headers and the block structures inside them.
//! - `transfer`: fungible and NFT transfer messages.
//! - `envelope`: the core protocol messages, by category.
//! - `decode`: the top-level message and the entry point [`decode::Decode`].
//! - `laws`: properties of the projection as a whole.
pub mod value;
pub mod encode;
pub mod consensus;
pub mod transfer;
pub mod envelope;
pub mod decode;
pub mod laws;
