//! The light cache of an epoch, from which a header's proof of work is
//! checked without the full dataset.

use vstd::prelude::*;
use std::marker::PhantomData;
use crate::consensus::ethash::{
    cache_of,
    cache_size_of,
    epoch_in_reach,
    full_size_of,
    hashimoto_of,
    light_cache,
    light_digest,
    parameters_for,
    seed_of,
};
use crate::uint::Uint256;

verus! {

/// What differs from chain to chain.
pub trait Patch {
    /// The blocks of one epoch.
    spec fn spec_epoch_length() -> nat;

    /// The blocks of one epoch.
    fn epoch_length() -> (length: Uint256)
        ensures
            length.value() == Self::spec_epoch_length(),
    ;
}

/// The main chain: an epoch has 30000 blocks.
pub struct EthereumPatch;

impl Patch for EthereumPatch {
    open spec fn spec_epoch_length() -> nat {
        30000
    }

    fn epoch_length() -> (length: Uint256) {
        Uint256::from(30000u64)
    }
}

/// The epoch of block `number` where an epoch has `length` blocks.
pub open spec fn epoch_of(number: nat, length: nat) -> nat
    recommends
        length != 0,
{
    number / length
}

/// The cache of one epoch.
pub struct LightDAG<P: Patch> {
    epoch: usize,
    cache: Vec<u8>,
    cache_size: usize,
    full_size: usize,
    _marker: PhantomData<P>,
}

impl<P: Patch> LightDAG<P> {
    #[verifier::type_invariant]
    spec fn well_formed(self) -> bool {
        &&& self.cache@.len() == self.cache_size
        &&& self.cache_size >= 64
        &&& self.cache_size % 64 == 0
        &&& self.full_size >= 128
    }

    /// The epoch that the cache was made for.
    pub closed spec fn epoch(&self) -> nat {
        self.epoch as nat
    }

    /// The size that the cache was made with.
    pub closed spec fn cache_size(&self) -> nat {
        self.cache_size as nat
    }

    /// The bytes of the cache.
    pub closed spec fn cache(&self) -> Seq<u8> {
        self.cache@
    }

    /// The size of the dataset that the cache stands for.
    pub closed spec fn full_size(&self) -> nat {
        self.full_size as nat
    }

    /// The epoch of block `number`, where the chain has epochs and the epoch
    /// fits a `usize`.
    pub fn epoch_for(number: &Uint256) -> (epoch: Option<usize>)
        ensures
            epoch is Some <==> P::spec_epoch_length() != 0 && epoch_of(
                number.value(),
                P::spec_epoch_length(),
            ) <= usize::MAX,
            epoch is Some ==> epoch.unwrap() == epoch_of(number.value(), P::spec_epoch_length()),
    {
        let length = P::epoch_length();
        match number.checked_div(&length) {
            Some(quotient) => quotient.to_usize(),
            None => None,
        }
    }

    /// The cache of the epoch of block `number`.
    pub fn new(number: Uint256) -> (dag: Self)
        requires
            P::spec_epoch_length() != 0,
            epoch_in_reach(epoch_of(number.value(), P::spec_epoch_length())),
        ensures
            dag.epoch() == epoch_of(number.value(), P::spec_epoch_length()),
            dag.cache_size() == cache_size_of(dag.epoch()),
            dag.full_size() == full_size_of(dag.epoch()),
            dag.cache() == cache_of(cache_size_of(dag.epoch()), seed_of(dag.epoch())),
            dag.cache().len() == dag.cache_size(),
    {
        let epoch = match Self::epoch_for(&number) {
            Some(epoch) => epoch,
            None => vstd::pervasive::unreached(),
        };
        let parameters = match parameters_for(epoch) {
            Some(parameters) => parameters,
            None => vstd::pervasive::unreached(),
        };
        let cache = match light_cache(parameters.cache_size, &parameters.seed) {
            Some(cache) => cache,
            None => vstd::pervasive::unreached(),
        };

        LightDAG {
            cache,
            cache_size: parameters.cache_size,
            full_size: parameters.full_size,
            epoch,
            _marker: PhantomData,
        }
    }

    /// The cache of the epoch of block `number`, where its sizes can be
    /// computed on this machine.
    pub fn checked_new(number: Uint256) -> (dag: Option<Self>)
        ensures
            dag is Some <==> P::spec_epoch_length() != 0 && epoch_in_reach(
                epoch_of(number.value(), P::spec_epoch_length()),
            ),
            dag is Some ==> {
                &&& dag.unwrap().epoch() == epoch_of(number.value(), P::spec_epoch_length())
                &&& dag.unwrap().cache_size() == cache_size_of(dag.unwrap().epoch())
                &&& dag.unwrap().full_size() == full_size_of(dag.unwrap().epoch())
                &&& dag.unwrap().cache().len() == dag.unwrap().cache_size()
                &&& dag.unwrap().cache() == cache_of(
                    cache_size_of(dag.unwrap().epoch()),
                    seed_of(dag.unwrap().epoch()),
                )
            },
    {
        match Self::epoch_for(&number) {
            Some(epoch) => {
                if parameters_for(epoch).is_some() {
                    Some(Self::new(number))
                } else {
                    None
                }
            },
            None => None,
        }
    }

    /// The mix digest and the result of the header hash `hash` with `nonce`.
    pub fn hashimoto(&self, hash: [u8; 32], nonce: [u8; 8]) -> (digest: ([u8; 32], [u8; 32]))
        ensures
            (digest.0@, digest.1@) == hashimoto_of(hash@, nonce@, self.full_size(), self.cache()),
    {
        proof {
            use_type_invariant(self);
        }
        match light_digest(&hash, &nonce, self.full_size, &self.cache) {
            Some(digest) => digest,
            None => vstd::pervasive::unreached(),
        }
    }

    /// Whether block `number` lies in the epoch of this cache.
    pub fn is_valid_for(&self, number: Uint256) -> (valid: bool)
        requires
            P::spec_epoch_length() != 0,
            epoch_of(number.value(), P::spec_epoch_length()) <= usize::MAX,
        ensures
            valid == (epoch_of(number.value(), P::spec_epoch_length()) == self.epoch()),
    {
        match Self::epoch_for(&number) {
            Some(epoch) => epoch == self.epoch,
            None => vstd::pervasive::unreached(),
        }
    }
}

} // verus!
