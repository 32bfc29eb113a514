//! Unsigned numbers of 256 bits, as the chain counts blocks with them.

use vstd::prelude::*;

verus! {

/// An unsigned number of 256 bits in four words of 64 bits, the least
/// significant first.
#[derive(PartialEq, Eq, Debug, Clone, Copy)]
pub struct Uint256 {
    pub words: [u64; 4],
}

/// The number that four words stand for, the least significant first.
pub open spec fn value_of(words: Seq<u64>) -> nat
    recommends
        words.len() == 4,
{
    (words[0] + words[1] * 0x1_0000_0000_0000_0000 + words[2]
        * 0x1_0000_0000_0000_0000_0000_0000_0000_0000 + words[3]
        * 0x1_0000_0000_0000_0000_0000_0000_0000_0000_0000_0000_0000_0000) as nat
}

impl Uint256 {
    /// The number itself.
    pub open spec fn value(&self) -> nat {
        value_of(self.words@)
    }

    /// The number as a `usize`, where it is small enough for one.
    pub fn to_usize(&self) -> (small: Option<usize>)
        ensures
            self.value() <= usize::MAX ==> small == Some(self.value() as usize),
            self.value() > usize::MAX ==> small is None,
    {
        if self.words[1] == 0 && self.words[2] == 0 && self.words[3] == 0 && self.words[0]
            <= usize::MAX as u64 {
            Some(self.words[0] as usize)
        } else {
            None
        }
    }

    /// The number as a `u32`, where it is small enough for one.
    pub fn to_u32(&self) -> (small: Option<u32>)
        ensures
            self.value() <= u32::MAX ==> small == Some(self.value() as u32),
            self.value() > u32::MAX ==> small is None,
    {
        if self.words[1] == 0 && self.words[2] == 0 && self.words[3] == 0 && self.words[0]
            <= u32::MAX as u64 {
            Some(self.words[0] as u32)
        } else {
            None
        }
    }

    /// Whether the number is zero.
    pub fn is_zero(&self) -> (zero: bool)
        ensures
            zero == (self.value() == 0),
    {
        self.words[0] == 0 && self.words[1] == 0 && self.words[2] == 0 && self.words[3] == 0
    }

    /// The whole part of `self / divisor`, where there is one: nothing can be
    /// divided by zero.
    pub fn checked_div(&self, divisor: &Uint256) -> (quotient: Option<Uint256>)
        ensures
            divisor.value() == 0 ==> quotient is None,
            divisor.value() != 0 ==> quotient is Some && quotient.unwrap().value() == self.value()
                / divisor.value(),
    {
        if divisor.is_zero() {
            None
        } else {
            Some(quotient_words(self, divisor))
        }
    }
}

impl vstd::std_specs::convert::FromSpecImpl<u64> for Uint256 {
    open spec fn obeys_from_spec() -> bool {
        true
    }

    open spec fn from_spec(small: u64) -> Uint256 {
        Uint256 { words: [small, 0, 0, 0] }
    }
}

impl From<u64> for Uint256 {
    fn from(small: u64) -> (number: Uint256)
        ensures
            number.value() == small,
    {
        Uint256 { words: [small, 0, 0, 0] }
    }
}

/// Division of `ethereum_types::U256` by the `/` operator, on the words of
/// both numbers. The contract claims that the result is the whole part of the
/// quotient; the divisor is not zero, on which the operator panics.
#[verifier::external_body]
fn quotient_words(dividend: &Uint256, divisor: &Uint256) -> (quotient: Uint256)
    requires
        divisor.value() != 0,
    ensures
        quotient.value() == dividend.value() / divisor.value(),
{
    let whole = ethereum_types::U256(dividend.words) / ethereum_types::U256(divisor.words);
    Uint256 { words: whole.0 }
}

} // verus!
