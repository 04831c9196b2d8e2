//! Exponential backoff generator for pacing DNS resolution retries.
//!
//! The generator is parameterized with a starting delay, a multiplicative
//! growth factor and a ceiling, all in milliseconds. Each call to
//! [`Backoff::next_delay_millis`] advances the cursor and returns
//! `min(ceiling, previous * factor)`: the delays never decrease and never
//! exceed the ceiling.

use vstd::prelude::*;

verus! {

/// Stateful cursor over an exponential progression of retry delays.
///
/// The cursor is deliberately never reset when a later resolution succeeds:
/// backoff state persists for the lifetime of the sink.
pub struct Backoff {
    /// The previous delay (initially the configured starting delay), in ms.
    pub current_millis: u64,
    /// Multiplicative growth factor applied on every step.
    pub factor: u64,
    /// Hard ceiling on any returned delay, in ms.
    pub max_millis: u64,
}

impl Backoff {
    /// A generator is well formed when its factor does not shrink delays.
    pub open spec fn wf(self) -> bool {
        self.factor >= 1
    }

    /// The delay the next call to `next_delay_millis` will return.
    pub open spec fn spec_peek(self) -> u64 {
        if self.current_millis * self.factor > self.max_millis {
            self.max_millis
        } else {
            (self.current_millis * self.factor) as u64
        }
    }

    /// The generator state after one step: the cursor becomes the delay
    /// that the step returned.
    pub open spec fn spec_next(self) -> Backoff {
        Backoff { current_millis: self.spec_peek(), ..self }
    }

    pub fn new(start_millis: u64, factor: u64, max_millis: u64) -> (r: Self)
        requires
            factor >= 1,
        ensures
            r == (Backoff { current_millis: start_millis, factor, max_millis }),
            r.wf(),
    {
        Backoff { current_millis: start_millis, factor, max_millis }
    }

    /// Advance the cursor and return the next retry delay in milliseconds.
    pub fn next_delay_millis(&mut self) -> (r: u64)
        ensures
            r == old(self).spec_peek(),
            *final(self) == old(self).spec_next(),
            r <= old(self).max_millis,
    {
        let c = self.current_millis;
        let f = self.factor;
        proof {
            assert(c * f <= 0xffff_ffff_ffff_ffff * 0xffff_ffff_ffff_ffff) by (nonlinear_arith)
                requires
                    c <= 0xffff_ffff_ffff_ffff,
                    f <= 0xffff_ffff_ffff_ffff,
            {
            }
        }
        let product: u128 = (c as u128) * (f as u128);
        let delay: u64 = if product > self.max_millis as u128 {
            self.max_millis
        } else {
            product as u64
        };
        self.current_millis = delay;
        delay
    }
}

/// No delay the generator produces ever exceeds the configured ceiling.
pub proof fn lemma_backoff_bounded(b: Backoff)
    ensures
        b.spec_peek() <= b.max_millis,
{
}

/// Across two consecutive steps the delay never decreases: the progression
/// is monotone up to (and then at) the ceiling.
pub proof fn lemma_backoff_monotone(b: Backoff)
    requires
        b.wf(),
    ensures
        b.spec_next().spec_peek() >= b.spec_peek(),
{
    let d1 = b.spec_peek();
    assert(d1 * b.factor >= d1) by (nonlinear_arith)
        requires b.factor >= 1, d1 >= 0,
    {
    }
}

} // verus!
