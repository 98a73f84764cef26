//! Stream-serial allocation.  Every Ogg client session needs a serial no
//! other open session shares, so that independent logical streams never
//! interleave identifiers.  A serial is a time-derived seed, taken once
//! when the allocator is made, plus a monotonic counter.

use vstd::prelude::*;
use vstd::wrapping::u32_specs;

verus! {

/// The serial handed out `n`-th by an allocator seeded with `seed`.
pub open spec fn serial_at(seed: u32, n: u32) -> u32 {
    u32_specs::wrapping_add(seed, n)
}

/// Hands out stream serials: a fixed time-derived seed plus a counter.
pub struct SerialAllocator {
    /// Seed taken from a high-resolution timestamp at construction.
    pub seed: u32,
    /// How many serials have been handed out.
    pub issued: u32,
}

impl SerialAllocator {
    /// A fresh allocator around a time-derived seed.
    pub fn new(seed: u32) -> (a: Self)
        ensures
            a.seed == seed,
            a.issued == 0,
    {
        SerialAllocator { seed, issued: 0 }
    }

    /// Hand out the next serial for a new client session.
    pub fn generate_serial(&mut self) -> (s: u32)
        requires
            old(self).issued < u32::MAX,
        ensures
            final(self).seed == old(self).seed,
            final(self).issued == old(self).issued + 1,
            s == serial_at(old(self).seed, old(self).issued),
    {
        let s = self.seed.wrapping_add(self.issued);
        self.issued = self.issued + 1;
        s
    }
}

/// Serials from one allocator never collide: distinct issue counts give
/// distinct serials, so two concurrently open sessions never share one.
pub proof fn lemma_serials_distinct(seed: u32, m: u32, n: u32)
    requires
        m != n,
    ensures
        serial_at(seed, m) != serial_at(seed, n),
{
}

} // verus!
