//! Fade animator: a decay counter that turns timer ticks into a triangular
//! alpha envelope, producing a brief opaque flash after each capture that
//! settles back toward the keyed-out idle look.

use vstd::prelude::*;

verus! {

/// How much the decay counter loses on each timer tick.
pub const DECAY_STEP: u8 = 20;

/// Midpoint of the triangular envelope (floor of 255 / 2).
pub const DECAY_HALF: u8 = 127;

/// Value the decay counter is armed to by a successful capture.
pub const DECAY_FULL: u8 = 255;

/// Distance of the decay counter from the nearer end of the triangle:
/// the counter itself below the midpoint, its complement above.
pub open spec fn spec_distance(decay: u8) -> int {
    if decay < DECAY_HALF {
        decay as int
    } else {
        255 - decay as int
    }
}

/// Alpha applied for a given decay value: 255 minus twice the distance,
/// clamped at zero (the clamp matters only at the exact midpoint).
pub open spec fn spec_alpha(decay: u8) -> u8 {
    if 255 - 2 * spec_distance(decay) >= 0 {
        (255 - 2 * spec_distance(decay)) as u8
    } else {
        0u8
    }
}

/// Decay counter after one tick: lowered by DECAY_STEP, floored at zero.
pub open spec fn spec_decayed(decay: u8) -> u8 {
    if decay >= DECAY_STEP {
        (decay - DECAY_STEP) as u8
    } else {
        0u8
    }
}

/// Remaining animation ticks; zero means the window is idle and the
/// periodic timer does nothing.
#[derive(Clone, Copy, Debug, PartialEq, Eq, Structural)]
pub struct FadeState {
    pub decay: u8,
}

impl FadeState {
    /// A fresh animator: no capture has happened, nothing to animate.
    pub fn new() -> (s: Self)
        ensures
            s.decay == 0,
    {
        FadeState { decay: 0 }
    }

    /// Arm the flash after a successful capture, whatever ran before.
    pub fn arm(&mut self)
        ensures
            final(self).decay == DECAY_FULL,
    {
        self.decay = DECAY_FULL;
    }

    /// One animation tick: returns the alpha to apply to the window,
    /// computed from the counter as it was, then lowers the counter.
    /// The counter loses exactly the smaller of DECAY_STEP and itself,
    /// so it strictly decreases and never goes below zero.
    pub fn step(&mut self) -> (alpha: u8)
        requires
            old(self).decay > 0,
        ensures
            alpha == spec_alpha(old(self).decay),
            final(self).decay == spec_decayed(old(self).decay),
            old(self).decay as int - final(self).decay as int == if old(self).decay
                >= DECAY_STEP { DECAY_STEP as int } else { old(self).decay as int },
            final(self).decay < old(self).decay,
    {
        let d: u8 = self.decay;
        let distance: u8 = if d < DECAY_HALF {
            d
        } else {
            255 - d
        };
        let alpha: u8 = if distance <= 127 {
            255 - distance * 2
        } else {
            0
        };
        self.decay = if d >= DECAY_STEP {
            d - DECAY_STEP
        } else {
            0
        };
        alpha
    }
}

/// Toward the end of the animation the envelope runs back up: just above
/// zero the alpha is 255 less twice the counter, so the nearer the counter
/// gets to zero, the nearer the applied alpha gets to 255 again.
pub proof fn lemma_alpha_near_expiry(d1: u8, d2: u8)
    requires
        0 < d1 < DECAY_HALF,
        0 < d2 < DECAY_HALF,
    ensures
        spec_alpha(d1) == 255 - 2 * d1,
        d1 < d2 ==> spec_alpha(d1) > spec_alpha(d2),
{
}

} // verus!
