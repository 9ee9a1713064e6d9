//! Adapter types that expose the Jenkins hash as a hashing strategy for a
//! generic map container: a stateful hasher and two builder/factory types,
//! one with a fixed seed and one that draws a random seed once at
//! construction.

use vstd::prelude::*;

use crate::jhash;
use crate::spec_jhash;

verus! {

/// Stateful accumulator: holds one 32-bit running state register.
pub struct JHasher {
    state: u32,
}

impl JHasher {
    /// The running 32-bit state of this hasher.
    pub closed spec fn spec_state(&self) -> u32 {
        self.state
    }

    /// A hasher whose running state starts at zero.
    pub fn new() -> (r: JHasher)
        ensures
            r.spec_state() == 0,
    {
        JHasher::with_seed(0)
    }

    /// A hasher whose running state starts at `seed`.
    pub fn with_seed(seed: u32) -> (r: JHasher)
        ensures
            r.spec_state() == seed,
    {
        JHasher { state: seed }
    }

    /// Feeds more bytes in: the new state is the hash of `buf` seeded with
    /// the old state. Chaining through the seed this way is not the same as
    /// hashing the concatenation of all buffers in one call; it is the
    /// documented seeded-chaining behaviour and is kept as such.
    pub fn write(&mut self, buf: &[u8])
        ensures
            final(self).spec_state() == spec_jhash(buf@, old(self).spec_state()),
    {
        self.state = jhash(buf, self.state);
    }

    /// The current 32-bit state, zero-extended to the 64 bits a generic map
    /// container expects. Reads without mixing or resetting anything, so
    /// repeated calls return the same value.
    pub fn finish(&self) -> (r: u64)
        ensures
            r == self.spec_state() as u64,
    {
        self.state as u64
    }
}

impl Default for JHasher {
    /// Same as [`JHasher::new`]: the running state starts at zero.
    fn default() -> (r: JHasher)
        ensures
            r.spec_state() == 0,
    {
        JHasher::new()
    }
}

/// Fixed-seed factory: every hasher it builds starts from the same seed, so
/// hashing is deterministic across instances and runs.
pub struct JHashState(u32);

impl JHashState {
    /// The seed every built hasher starts from.
    pub closed spec fn spec_seed(&self) -> u32 {
        self.0
    }

    /// A factory whose seed is zero.
    pub fn new() -> (r: JHashState)
        ensures
            r.spec_seed() == 0,
    {
        JHashState(0)
    }

    /// A fresh hasher, started from this factory's seed.
    pub fn build_hasher(&self) -> (r: JHasher)
        ensures
            r.spec_state() == self.spec_seed(),
    {
        JHasher::with_seed(self.0)
    }
}

impl Default for JHashState {
    /// Same as [`JHashState::new`]: the seed is zero.
    fn default() -> (r: JHashState)
        ensures
            r.spec_seed() == 0,
    {
        JHashState::new()
    }
}

/// Relies on rand::random: draws a fresh value from the thread-local
/// generator, seeded by the operating system. Nothing can be promised of the
/// value; construction aborts if the host has no randomness to give.
#[verifier::external_body]
fn random_seed() -> (r: u32) {
    rand::random()
}

/// Random-seed factory: draws one random seed when constructed and hands it
/// to every hasher it builds thereafter. Hashes agree between instances
/// built by one factory, and differ (with overwhelming probability) between
/// factories.
pub struct RandomJHashState(u32);

impl RandomJHashState {
    /// The seed every built hasher starts from, drawn at construction.
    pub closed spec fn spec_seed(&self) -> u32 {
        self.0
    }

    /// A factory seeded with one freshly drawn random value.
    pub fn new() -> (r: RandomJHashState) {
        RandomJHashState(random_seed())
    }

    /// A fresh hasher, started from this factory's seed.
    pub fn build_hasher(&self) -> (r: JHasher)
        ensures
            r.spec_state() == self.spec_seed(),
    {
        JHasher::with_seed(self.0)
    }
}

impl Default for RandomJHashState {
    /// Same as [`RandomJHashState::new`]: seeded with a fresh random value.
    fn default() -> (r: RandomJHashState) {
        RandomJHashState::new()
    }
}

} // verus!
