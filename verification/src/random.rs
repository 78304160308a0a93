//! The random source: one deterministic stream of numbers that a whole roll
//! draws from.

use vstd::prelude::*;
use std::rc::Rc;
use crate::share::share;
use instant_hasher::{hash, now};

pub mod instant_hasher;

verus! {

/// The multiplier of the generator.
pub const A: u64 = 48_271;

/// The modulus of the generator: 2^31 - 1.
pub const M: u64 = 2_147_483_647;

/// The seed that follows `seed`: `A * seed` modulo `M`.
pub open spec fn next_seed(seed: u64) -> u64 {
    ((A * seed) % (M as int)) as u64
}

/// Where the stream stands after `draws` numbers were taken from `seed`.
pub open spec fn seed_after(seed: u64, draws: nat) -> u64
    decreases draws,
{
    if draws == 0 {
        seed
    } else {
        next_seed(seed_after(seed, (draws - 1) as nat))
    }
}

/// The index that the number `drawn` selects among `length` items: `drawn - 1`
/// modulo `length`.
pub open spec fn index_for(drawn: u64, length: usize) -> int {
    (drawn - 1) % (length as int)
}

fn next(current: u64) -> (r: u64)
    ensures
        r == next_seed(current),
        r < M,
{
    assert(A * current <= 48_271 * 0xffff_ffff_ffff_ffff) by (nonlinear_arith)
        requires
            current <= 0xffff_ffff_ffff_ffff,
    ;
    let product: u128 = (A as u128) * (current as u128);
    (product % (M as u128)) as u64
}

fn get_u64() -> u64 {
    hash(now())
}

/// Picks one element of `vec` by the next number of `rng` and returns a handle
/// to it.
pub fn choose_from<T>(vec: &Vec<Rc<T>>, rng: &mut Rng) -> (r: Rc<T>)
    requires
        vec.len() > 0,
    ensures
        final(rng).seed() == next_seed(old(rng).seed()),
        r == vec@[index_for(final(rng).seed(), vec.len())],
{
    let index = rng.next_index(vec.len());
    share(&vec[index])
}

/// A generator that starts from a seed taken from the clock.
pub fn default_rng() -> Rng {
    Rng::new()
}

/// A generator that starts from `seed`.
pub fn with_seed(seed: u64) -> (r: Rng)
    ensures
        r.seed() == if seed == 0 {
            1
        } else {
            seed
        },
{
    Rng::from_seed(seed)
}

/// The generator that starts from the seed 1.
pub fn test_rng() -> (r: Rng)
    ensures
        r.seed() == 1,
{
    Rng::from_seed(1)
}

/// A new id for a unit, taken from the clock.
pub fn new_id() -> u64 {
    get_u64()
}

/// A random number generator: the state of a multiplicative congruential
/// stream. A roll borrows it mutably, so that every die of the roll draws the
/// next number of the same stream.
#[derive(Debug)]
pub struct Rng {
    seed: u64,
}

impl Rng {
    /// The current state of the stream.
    pub closed spec fn seed(&self) -> u64 {
        self.seed
    }

    /// A generator that starts from `seed`; a seed of 0, from which the stream
    /// would never leave, is replaced by 1.
    pub fn from_seed(seed: u64) -> (r: Rng)
        ensures
            r.seed() == if seed == 0 {
                1
            } else {
                seed
            },
    {
        if seed == 0 {
            return Rng { seed: 1 };
        }
        Rng { seed }
    }

    /// A generator that starts from a seed taken from the clock.
    pub fn new() -> Rng {
        Rng { seed: get_u64() }
    }

    /// Advances the stream and returns its new state.
    pub fn next(&mut self) -> (r: u64)
        ensures
            final(self).seed() == next_seed(old(self).seed()),
            r == final(self).seed(),
            r < M,
    {
        let next = next(self.seed);
        self.seed = next;
        next
    }

    /// Advances the stream and returns an index into a collection of `length`
    /// items.
    pub fn next_index(&mut self, length: usize) -> (r: usize)
        requires
            length > 0,
        ensures
            final(self).seed() == next_seed(old(self).seed()),
            r == index_for(final(self).seed(), length),
            r < length,
    {
        let drawn = self.next();
        if drawn == 0 {
            proof {
                vstd::arithmetic::div_mod::lemma_mod_multiples_vanish(1, -1, length as int);
                vstd::arithmetic::div_mod::lemma_small_mod((length - 1) as nat, length as nat);
            }
            length - 1
        } else {
            ((drawn - 1) % (length as u64)) as usize
        }
    }
}

} // verus!
