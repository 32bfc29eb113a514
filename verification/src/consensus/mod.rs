//! Proof of work: the sizes, the seed and the light cache of an epoch, and
//! the miner.

pub mod dag;
pub mod ethash;
pub mod miner;
