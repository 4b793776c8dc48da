//! A seed rotator for on-chain pseudo-random numbers: the seed is refreshed
//! from the host's entropy once per execution context and advanced through a
//! ChaCha12 stream on every call.

pub mod bytes;
pub mod contract;
pub mod generator;
pub mod lifecycle;

pub use bytes::u64_from_be_prefix;
pub use contract::{initialize, Contract, ContractError};
