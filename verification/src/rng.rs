//! A xorshift-style pseudo-random generator seeded from the free-running
//! horizontal/vertical counter.

use vstd::prelude::*;

verus! {

/// A small pseudo-random generator.
///
/// Each step folds in a sample of the hardware's HV counter, which the
/// caller reads and hands in as a plain value.
pub struct PseudoRng {
    current_rand: u16,
}

impl PseudoRng {
    /// The internal generator state.
    pub closed spec fn state(self) -> u16 {
        self.current_rand
    }

    /// Seed the generator; the constant keeps an all-zero seed from
    /// producing a stuck zero state.
    pub fn from_seed(seed: u16) -> (r: PseudoRng)
        ensures
            r.state() == seed ^ 0xD94B,
    {
        PseudoRng { current_rand: seed ^ 0xD94B }
    }

    /// Advance the generator with a fresh HV-counter sample and return the
    /// new value.
    pub fn random(&mut self, hv_counter: u16) -> (r: u16)
        ensures
            ({
                let a = old(self).state() ^ ((old(self).state() >> 1) ^ hv_counter);
                &&& final(self).state() == a ^ (a << 1)
                &&& r == a ^ (a << 1)
            }),
    {
        self.current_rand = self.current_rand ^ ((self.current_rand >> 1) ^ hv_counter);
        self.current_rand = self.current_rand ^ (self.current_rand << 1);
        self.current_rand
    }
}

} // verus!
