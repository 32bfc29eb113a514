//! The miner.

use vstd::prelude::*;

verus! {

/// The one who searches a nonce for a header. It holds nothing: what it
/// works on is handed to it.
#[derive(PartialEq, Eq, Structural, Debug, Clone, Copy)]
pub struct Miner;

impl Miner {
    /// A miner.
    pub fn new() -> (miner: Miner)
        ensures
            miner == Miner,
    {
        Miner {  }
    }
}

impl Default for Miner {
    fn default() -> (miner: Miner)
        ensures
            miner == Miner,
    {
        Miner::new()
    }
}

} // verus!
