//! A small deterministic pseudo-random source. The search loop's only side
//! effects are the draws it takes from here, and every draw is pinned by
//! contract to the stream the seed determines, so a run is reproducible
//! from its seed; nothing is claimed of the values' distribution.

use vstd::prelude::*;

verus! {

/// The state one call advances to: the splittable-mix increment, wrapping.
pub open spec fn advanced_state(s: u64) -> u64 {
    vstd::wrapping::u64_specs::wrapping_add(s, 0x9E37_79B9_7F4A_7C15)
}

/// The output scramble: xor-shifts and wrapping multiplications of the
/// advanced state. Opaque: callers treat the output as an arbitrary word.
#[verifier::opaque]
pub open spec fn mix64(s: u64) -> u64 {
    let z1 = vstd::wrapping::u64_specs::wrapping_mul(s ^ (s >> 30), 0xBF58_476D_1CE4_E5B9);
    let z2 = vstd::wrapping::u64_specs::wrapping_mul(z1 ^ (z1 >> 27), 0x94D0_49BB_1331_11EB);
    z2 ^ (z2 >> 31)
}

/// The word a call starting from state `s` hands out.
pub open spec fn next_output(s: u64) -> u64 {
    mix64(advanced_state(s))
}

/// The state after `k` calls starting from `s`.
pub open spec fn stepped(s: u64, k: nat) -> u64
    decreases k,
{
    if k == 0 {
        s
    } else {
        advanced_state(stepped(s, (k - 1) as nat))
    }
}

/// A word reduced into the half-open range [lo, hi).
pub open spec fn ranged(o: u64, lo: i32, hi: i32) -> i32
    recommends
        lo < hi,
{
    (lo as int + (o as int % (hi as int - lo as int))) as i32
}

/// Taking no call leaves the state alone.
pub proof fn lemma_stepped_zero(s: u64)
    ensures
        stepped(s, 0) == s,
{
}

/// One more call advances the state once more.
pub proof fn lemma_stepped_one(s: u64, k: nat)
    ensures
        stepped(s, k + 1) == advanced_state(stepped(s, k)),
{
}

/// Advancing `a` calls and then `b` more is advancing `a + b` calls.
pub proof fn lemma_stepped_add(s: u64, a: nat, b: nat)
    ensures
        stepped(stepped(s, a), b) == stepped(s, a + b),
    decreases b,
{
    if b > 0 {
        lemma_stepped_add(s, a, (b - 1) as nat);
    }
}

/// A splittable-mix style 64-bit generator: one word of state, advanced by a
/// fixed odd increment, with the output scrambled by xor-shifts and
/// multiplications.
pub struct SeededRng {
    pub state: u64,
}

impl SeededRng {
    /// Starts the stream that the given seed determines.
    pub fn new(seed: u64) -> (r: SeededRng)
        ensures
            r.state == seed,
    {
        SeededRng { state: seed }
    }

    /// Draws the next 64-bit word of the stream.
    pub fn next_u64(&mut self) -> (r: u64)
        ensures
            final(self).state == advanced_state(old(self).state),
            r == next_output(old(self).state),
    {
        proof {
            reveal(mix64);
        }
        self.state = self.state.wrapping_add(0x9E37_79B9_7F4A_7C15);
        let mut z: u64 = self.state;
        z = (z ^ (z >> 30)).wrapping_mul(0xBF58_476D_1CE4_E5B9);
        z = (z ^ (z >> 27)).wrapping_mul(0x94D0_49BB_1331_11EB);
        z ^ (z >> 31)
    }

    /// A coin: the low bit of the next word.
    pub fn next_bool(&mut self) -> (r: bool)
        ensures
            final(self).state == advanced_state(old(self).state),
            r == ((next_output(old(self).state) & 1) == 1),
    {
        self.next_u64() & 1 == 1
    }

    /// A channel byte: the low eight bits of the next word.
    pub fn next_byte(&mut self) -> (r: u8)
        ensures
            final(self).state == advanced_state(old(self).state),
            r == (next_output(old(self).state) & 0xFF) as u8,
    {
        (self.next_u64() & 0xFF) as u8
    }

    /// A draw strictly below `bound`: the next word reduced modulo `bound`.
    pub fn next_below(&mut self, bound: u64) -> (r: u64)
        requires
            bound > 0,
        ensures
            final(self).state == advanced_state(old(self).state),
            r == next_output(old(self).state) % bound,
            r < bound,
    {
        self.next_u64() % bound
    }

    /// A draw from the half-open range [lo, hi): the next word reduced into
    /// the range.
    pub fn next_in_range(&mut self, lo: i32, hi: i32) -> (r: i32)
        requires
            lo < hi,
        ensures
            final(self).state == advanced_state(old(self).state),
            r == ranged(next_output(old(self).state), lo, hi),
            lo <= r < hi,
    {
        let span: u64 = (hi as i64 - lo as i64) as u64;
        let offset: u64 = self.next_below(span);
        (lo as i64 + offset as i64) as i32
    }
}

}
