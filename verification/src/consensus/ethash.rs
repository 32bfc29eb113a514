//! The hashing that proof of work rests on. It is done by the `ethash` crate;
//! what stands here gives each of its functions a name for its result, says
//! on which inputs it may be called, and offers the calls behind a test of
//! those inputs.

use vstd::prelude::*;

verus! {

/// Whether `n` is a prime number.
pub open spec fn is_prime(n: nat) -> bool {
    n >= 2 && forall|d: nat| 2 <= d < n ==> #[trigger] (n % d) != 0
}

/// Whether `p` is the largest prime number that is not above `bound`.
pub open spec fn is_largest_prime_up_to(p: nat, bound: nat) -> bool {
    &&& is_prime(p)
    &&& p <= bound
    &&& forall|q: nat| p < q <= bound ==> !#[trigger] is_prime(q)
}

/// The largest prime number that is not above `bound`, where `bound` is at
/// least 2.
pub open spec fn largest_prime_up_to(bound: nat) -> nat {
    choose|p: nat| is_largest_prime_up_to(p, bound)
}

/// The bytes of the light cache in `epoch`: items of 64 bytes, as many as
/// the largest prime number that is not above `2^18 + 2^11 * epoch - 1`.
pub open spec fn cache_size_of(epoch: nat) -> nat {
    64 * largest_prime_up_to((262144 + 2048 * epoch - 1) as nat)
}

/// The bytes of the full dataset in `epoch`: pages of 128 bytes, as many as
/// the largest prime number that is not above `2^23 + 2^16 * epoch - 1`.
pub open spec fn full_size_of(epoch: nat) -> nat {
    128 * largest_prime_up_to((8388608 + 65536 * epoch - 1) as nat)
}

/// The seed from which the cache of `epoch` is made.
pub uninterp spec fn seed_of(epoch: nat) -> Seq<u8>;

/// The light cache of `length` bytes made from `seed`.
pub uninterp spec fn cache_of(length: nat, seed: Seq<u8>) -> Seq<u8>;

/// The mix digest and the result for a header hash and a nonce, computed
/// from a light cache for a dataset of `full_size` bytes.
pub uninterp spec fn hashimoto_of(hash: Seq<u8>, nonce: Seq<u8>, full_size: nat, cache: Seq<u8>) -> (
    Seq<u8>,
    Seq<u8>,
);

/// The full dataset of `length` bytes made from a light cache.
pub uninterp spec fn dataset_of(length: nat, cache: Seq<u8>) -> Seq<u8>;

/// Whether the sizes of `epoch` can be computed on this machine: its word
/// has 64 bits, and the dataset, the larger of the two, starts from
/// `2^30 + 2^23 * epoch` bytes, which must fit the word.
pub open spec fn epoch_in_reach(epoch: nat) -> bool {
    usize::BITS == 64 && 1073741824 + 8388608 * epoch <= usize::MAX
}

/// Whether a cache may have `size` bytes: at least one item of 64 bytes, and
/// no part of one.
pub open spec fn cache_size_is_whole(size: nat) -> bool {
    size >= 64 && size % 64 == 0
}

/// `ethash::get_cache_size`. The function starts from the odd number
/// `2^18 + 2^11 * epoch - 1` of 64-byte items and goes down by two until its
/// test for primes accepts the number; that test is exact on every number
/// that fits here. So the contract claims that the result is 64 times the
/// largest prime not above the start. The function is written for a word of
/// 64 bits, and the sum that it starts from must fit.
#[verifier::external_body]
fn cache_size(epoch: usize) -> (size: usize)
    requires
        usize::BITS == 64,
        16777216 + 131072 * epoch <= usize::MAX,
    ensures
        size == cache_size_of(epoch as nat),
{
    ethash::get_cache_size(epoch)
}

/// `ethash::get_full_size`. The function starts from the odd number
/// `2^23 + 2^16 * epoch - 1` of 128-byte pages and goes down by two until its
/// test for primes accepts the number; that test is exact on every number
/// that fits here. So the contract claims that the result is 128 times the
/// largest prime not above the start. The function is written for a word of
/// 64 bits, and the sum that it starts from must fit.
#[verifier::external_body]
fn full_size(epoch: usize) -> (size: usize)
    requires
        epoch_in_reach(epoch as nat),
    ensures
        size == full_size_of(epoch as nat),
{
    ethash::get_full_size(epoch)
}

/// `ethash::get_seedhash`. The contract names the 32 bytes of the result.
#[verifier::external_body]
fn seedhash(epoch: usize) -> (seed: [u8; 32])
    ensures
        seed@ == seed_of(epoch as nat),
{
    ethash::get_seedhash(epoch).0
}

/// `ethash::make_cache`. The function writes every byte of the cache from
/// the seed alone, so the contract names the new content by the length and
/// the seed, and claims that the length stays. The cache holds at least one
/// item of 64 bytes and no part of one; on others the function panics.
#[verifier::external_body]
fn fill_cache(cache: &mut Vec<u8>, seed: &[u8; 32])
    requires
        old(cache)@.len() >= 64,
        old(cache)@.len() % 64 == 0,
    ensures
        final(cache)@.len() == old(cache)@.len(),
        final(cache)@ == cache_of(old(cache)@.len(), seed@),
{
    ethash::make_cache(cache, ethereum_types::H256(*seed))
}

/// `ethash::hashimoto_light`. The contract names the pair that it returns.
/// The dataset has at least one page of 128 bytes and the cache at least one
/// item of 64 bytes and no part of one; on others the function divides by
/// zero or fails a check of its own.
#[verifier::external_body]
fn hashimoto_light(hash: &[u8; 32], nonce: &[u8; 8], full_size: usize, cache: &Vec<u8>) -> (digest: (
    [u8; 32],
    [u8; 32],
))
    requires
        full_size >= 128,
        cache@.len() >= 64,
        cache@.len() % 64 == 0,
    ensures
        (digest.0@, digest.1@) == hashimoto_of(hash@, nonce@, full_size as nat, cache@),
{
    let (mix, result) = ethash::hashimoto_light(
        ethereum_types::H256(*hash),
        ethereum_types::H64(*nonce),
        full_size,
        cache,
    );
    (mix.0, result.0)
}

/// `ethash::make_dataset`. The function writes every whole item of 64
/// bytes of the dataset from the cache alone, so the contract names the new
/// content by the length and the cache, and claims that the length stays. The
/// dataset holds no part of an item, so that no byte keeps what it held, and
/// the cache holds at least one item and no part of one; on other caches the
/// function divides by zero or fails a check of its own.
#[verifier::external_body]
fn fill_dataset(dataset: &mut Vec<u8>, cache: &Vec<u8>)
    requires
        old(dataset)@.len() % 64 == 0,
        cache@.len() >= 64,
        cache@.len() % 64 == 0,
    ensures
        final(dataset)@.len() == old(dataset)@.len(),
        final(dataset)@ == dataset_of(old(dataset)@.len(), cache@),
{
    ethash::make_dataset(dataset, cache)
}

/// Below every bound from 2 on there is a largest prime number.
pub proof fn lemma_largest_prime_exists(bound: nat)
    requires
        bound >= 2,
    ensures
        is_largest_prime_up_to(largest_prime_up_to(bound), bound),
    decreases bound,
{
    if is_prime(bound) {
        assert(is_largest_prime_up_to(bound, bound));
    } else {
        assert(is_prime(2));
        lemma_largest_prime_exists((bound - 1) as nat);
        let p = largest_prime_up_to((bound - 1) as nat);
        assert(is_largest_prime_up_to(p, bound));
    }
}

/// There is only one largest prime number below a bound.
pub proof fn lemma_largest_prime_is_unique(p: nat, q: nat, bound: nat)
    requires
        is_largest_prime_up_to(p, bound),
        is_largest_prime_up_to(q, bound),
    ensures
        p == q,
{
}

/// The sizes of every epoch: the cache is made of whole items of 64 bytes,
/// the dataset of whole pages of 128 bytes, there are at least two of each,
/// and neither is larger than what it starts from.
pub proof fn lemma_sizes_of_an_epoch(epoch: nat)
    ensures
        cache_size_of(epoch) % 64 == 0,
        128 <= cache_size_of(epoch) <= 16777216 + 131072 * epoch - 64,
        full_size_of(epoch) % 128 == 0,
        256 <= full_size_of(epoch) <= 1073741824 + 8388608 * epoch - 128,
{
    lemma_largest_prime_exists((262144 + 2048 * epoch - 1) as nat);
    lemma_largest_prime_exists((8388608 + 65536 * epoch - 1) as nat);
}

/// What an epoch fixes: the sizes of its cache and of its dataset, and the
/// seed of its cache.
#[derive(PartialEq, Eq, Debug, Clone, Copy)]
pub struct EpochParameters {
    pub cache_size: usize,
    pub full_size: usize,
    pub seed: [u8; 32],
}

/// The parameters of `epoch`, where its sizes can be computed on this
/// machine.
pub fn parameters_for(epoch: usize) -> (parameters: Option<EpochParameters>)
    ensures
        parameters is Some <==> epoch_in_reach(epoch as nat),
        parameters is Some ==> {
            &&& parameters.unwrap().cache_size == cache_size_of(epoch as nat)
            &&& parameters.unwrap().full_size == full_size_of(epoch as nat)
            &&& parameters.unwrap().seed@ == seed_of(epoch as nat)
            &&& cache_size_is_whole(parameters.unwrap().cache_size as nat)
            &&& parameters.unwrap().full_size >= 128
            &&& parameters.unwrap().full_size % 64 == 0
        },
{
    if usize::BITS == 64 && epoch <= (usize::MAX - 1073741824) / 8388608 {
        proof {
            lemma_sizes_of_an_epoch(epoch as nat);
        }
        Some(
            EpochParameters {
                cache_size: cache_size(epoch),
                full_size: full_size(epoch),
                seed: seedhash(epoch),
            },
        )
    } else {
        None
    }
}

/// The light cache of `size` bytes made from `seed`, where a cache can have
/// that size.
pub fn light_cache(size: usize, seed: &[u8; 32]) -> (cache: Option<Vec<u8>>)
    ensures
        cache is Some <==> cache_size_is_whole(size as nat),
        cache is Some ==> cache.unwrap()@ == cache_of(size as nat, seed@) && cache.unwrap()@.len()
            == size,
{
    if size >= 64 && size % 64 == 0 {
        let mut cache: Vec<u8> = Vec::with_capacity(size);
        cache.resize(size, 0);
        fill_cache(&mut cache, seed);
        Some(cache)
    } else {
        None
    }
}

/// The mix digest and the result of the header hash `hash` with `nonce`,
/// from a light cache for a dataset of `full_size` bytes: where the dataset
/// has at least one page of 128 bytes and the cache is whole.
pub fn light_digest(hash: &[u8; 32], nonce: &[u8; 8], full_size: usize, cache: &Vec<u8>) -> (digest: Option<
    ([u8; 32], [u8; 32]),
>)
    ensures
        digest is Some <==> full_size >= 128 && cache_size_is_whole(cache@.len()),
        digest is Some ==> (digest.unwrap().0@, digest.unwrap().1@) == hashimoto_of(
            hash@,
            nonce@,
            full_size as nat,
            cache@,
        ),
{
    let length = cache.len();
    if full_size >= 128 && length >= 64 && length % 64 == 0 {
        Some(hashimoto_light(hash, nonce, full_size, cache))
    } else {
        None
    }
}

/// The full dataset of `full_size` bytes made from a light cache, where the
/// dataset is made of whole items of 64 bytes and the cache is whole.
pub fn full_dataset(full_size: usize, cache: &Vec<u8>) -> (dataset: Option<Vec<u8>>)
    ensures
        dataset is Some <==> full_size % 64 == 0 && cache_size_is_whole(cache@.len()),
        dataset is Some ==> dataset.unwrap()@ == dataset_of(full_size as nat, cache@)
            && dataset.unwrap()@.len() == full_size,
{
    let length = cache.len();
    if full_size % 64 == 0 && length >= 64 && length % 64 == 0 {
        let mut dataset: Vec<u8> = Vec::with_capacity(full_size);
        dataset.resize(full_size, 0);
        fill_dataset(&mut dataset, cache);
        Some(dataset)
    } else {
        None
    }
}

} // verus!
