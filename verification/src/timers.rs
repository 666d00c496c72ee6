//! The delay and sound timers: two bytes that count down to zero at 60 Hz.

use vstd::prelude::*;

verus! {

/// A timer value one tick later: one less, and zero stays zero.
pub open spec fn ticked(value: u8) -> u8 {
    if value > 0 {
        (value - 1) as u8
    } else {
        0
    }
}

/// A timer value `n` ticks later.
pub open spec fn ticked_times(value: u8, n: nat) -> u8
    decreases n,
{
    if n == 0 {
        value
    } else {
        ticked(ticked_times(value, (n - 1) as nat))
    }
}

/// The two countdown timers. Both fields are plain bytes without an
/// invariant; the audio side reads `sound` to know whether to play a tone.
#[derive(Clone, Copy, Debug, PartialEq, Eq)]
pub struct Timers {
    /// The delay timer.
    pub delay: u8,
    /// The sound timer.
    pub sound: u8,
}

impl Timers {
    /// Both timers at zero.
    pub fn new() -> (t: Timers)
        ensures
            t.delay == 0,
            t.sound == 0,
    {
        Timers { delay: 0, sound: 0 }
    }

    /// One tick of the 60 Hz clock: each timer that is not zero loses one.
    pub fn tick(&mut self)
        ensures
            final(self).delay == ticked(old(self).delay),
            final(self).sound == ticked(old(self).sound),
    {
        if self.delay > 0 {
            self.delay = self.delay - 1;
        }
        if self.sound > 0 {
            self.sound = self.sound - 1;
        }
    }
}

/// After `n` ticks a timer holds its old value less `n`, and zero where that
/// would be negative: it never wraps around.
pub proof fn lemma_ticked_times(value: u8, n: nat)
    ensures
        ticked_times(value, n) == if value >= n { value - n } else { 0 },
    decreases n,
{
    if n > 0 {
        lemma_ticked_times(value, (n - 1) as nat);
    }
}

/// A timer at zero stays at zero, however many ticks follow.
pub proof fn lemma_zero_stays_zero(n: nat)
    ensures
        ticked_times(0, n) == 0,
{
    lemma_ticked_times(0, n);
}

} // verus!
