//! The random number generators that programs seed and draw from.
//!
//! A generator is a ChaCha stream with eight rounds. Its values are not
//! modelled: a draw promises its range and nothing more.

use vstd::prelude::*;
use std::collections::HashMap;
use rand::Rng;
use rand::SeedableRng;
use rand_chacha::ChaCha8Rng;

verus! {

/// The generator type of `rand_chacha`. Nothing of its inside is known here.
#[verifier::external_type_specification]
#[verifier::external_body]
pub struct ExChaCha8Rng(ChaCha8Rng);

/// `ChaCha8Rng::seed_from_u64`: makes a generator from a 64-bit seed. The call
/// never fails; nothing is claimed of the generator.
#[verifier::external_body]
fn seeded(seed: u64) -> ChaCha8Rng {
    ChaCha8Rng::seed_from_u64(seed)
}

/// `Rng::gen::<u32>`: draws the next 32 bits. Nothing is claimed of the value.
#[verifier::external_body]
fn next_word(generator: &mut ChaCha8Rng) -> u32 {
    generator.gen()
}

/// `Rng::gen_range(0..max)`: draws a value below `max`. The outside function
/// panics on an empty range, so `max` must not be 0.
#[verifier::external_body]
fn next_below(generator: &mut ChaCha8Rng, max: u32) -> (value: u32)
    requires
        max > 0,
    ensures
        value < max,
{
    generator.gen_range(0..max)
}

/// The generators of one run, by the number that programs know them by.
pub struct Generators {
    map: HashMap<u32, ChaCha8Rng>,
}

impl View for Generators {
    type V = Set<u32>;

    closed spec fn view(&self) -> Set<u32> {
        self.map@.dom()
    }
}

impl Generators {
    /// The generators of a fresh run: `default` under number 0.
    pub fn new(default: ChaCha8Rng) -> (generators: Generators)
        ensures
            generators@ == set![0u32],
    {
        broadcast use vstd::std_specs::hash::group_hash_axioms;

        let mut map: HashMap<u32, ChaCha8Rng> = HashMap::new();
        map.insert(0, default);
        let generators = Generators { map };
        assert(generators@ =~= set![0u32]);
        generators
    }

    /// Whether a generator is known by `id`.
    pub fn has(&self, id: u32) -> (known: bool)
        ensures
            known == self@.contains(id),
    {
        broadcast use vstd::std_specs::hash::group_hash_axioms;

        self.map.contains_key(&id)
    }

    /// Puts a generator made from `seed` under `id`, in place of the one that
    /// was there.
    pub fn seed(&mut self, id: u32, seed: u64)
        ensures
            final(self)@ == old(self)@.insert(id),
    {
        broadcast use vstd::std_specs::hash::group_hash_axioms;

        self.map.insert(id, seeded(seed));
        assert(self@ =~= old(self)@.insert(id));
    }

    /// Draws 32 bits from generator `id`, if there is one.
    pub fn draw(&mut self, id: u32) -> (value: Option<u32>)
        ensures
            final(self)@ == old(self)@,
            value is Some <==> old(self)@.contains(id),
    {
        broadcast use vstd::std_specs::hash::group_hash_axioms;

        match self.map.remove(&id) {
            Some(generator) => {
                let mut generator = generator;
                let value: u32 = next_word(&mut generator);
                self.map.insert(id, generator);
                assert(self@ =~= old(self)@);
                Some(value)
            },
            None => {
                assert(self@ =~= old(self)@);
                None
            },
        }
    }

    /// Draws a value below `max` from generator `id`, if there is one.
    pub fn draw_below(&mut self, id: u32, max: u32) -> (value: Option<u32>)
        requires
            max > 0,
        ensures
            final(self)@ == old(self)@,
            value is Some <==> old(self)@.contains(id),
            value matches Some(drawn) ==> drawn < max,
    {
        broadcast use vstd::std_specs::hash::group_hash_axioms;

        match self.map.remove(&id) {
            Some(generator) => {
                let mut generator = generator;
                let value: u32 = next_below(&mut generator, max);
                self.map.insert(id, generator);
                assert(self@ =~= old(self)@);
                Some(value)
            },
            None => {
                assert(self@ =~= old(self)@);
                None
            },
        }
    }
}

} // verus!
