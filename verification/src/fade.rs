//! Fade calculator: the linear gain that applies at a sample position.

use vstd::prelude::*;
use crate::time::wrapped;

verus! {

/// A gain between 0 and 1, given as a fraction of two sample counts.
#[derive(Clone, Copy, Debug, PartialEq, Eq, Structural)]
pub struct FadeFactor {
    pub numerator: u64,
    pub denominator: u64,
}

impl FadeFactor {
    /// The fraction is defined and not greater than one.
    pub open spec fn wf(self) -> bool {
        self.denominator > 0 && self.numerator <= self.denominator
    }

    /// The gain is exactly 0: silence.
    pub open spec fn is_zero(self) -> bool {
        self.numerator == 0
    }

    /// The gain is exactly 1: the material passes unchanged.
    pub open spec fn is_one(self) -> bool {
        self.numerator == self.denominator
    }

    /// Silence.
    pub open spec fn zero() -> FadeFactor {
        FadeFactor { numerator: 0, denominator: 1 }
    }

    /// Full gain.
    pub open spec fn one() -> FadeFactor {
        FadeFactor { numerator: 1, denominator: 1 }
    }
}

/// Computes the gain of each sample position of one playback of a clip.
///
/// All fields are counted in samples. Position zero is where playback starts.
#[derive(Clone, Copy, Debug, PartialEq, Eq, Structural)]
pub struct FadeCalculator {
    /// End position, relative to start position zero. The fade-out ends here.
    pub end_pos: u64,
    /// Length of the clip. Loop boundaries lie at its multiples.
    pub clip_length: u64,
    /// Position within the clip at which playback starts.
    pub clip_cursor_offset: u64,
    /// Length of the fade-in at the start and of the fade-out at the end.
    pub start_end_fade_length: u64,
    /// Length of the fade-out before and of the fade-in after each loop boundary.
    pub intermediate_fade_length: u64,
}

impl FadeCalculator {
    /// The position is played and lies outside both edge fades, so that the loop fades
    /// decide.
    pub open spec fn reaches_loop_fades(self, current_pos: int) -> bool {
        &&& 0 <= current_pos < self.end_pos
        &&& current_pos >= self.start_end_fade_length
        &&& self.end_pos - current_pos >= self.start_end_fade_length
    }

    /// The position within the clip that is played at `current_pos`.
    pub open spec fn pos_within_clip(self, current_pos: int) -> int {
        wrapped(current_pos + self.clip_cursor_offset, self.clip_length as int)
    }

    /// The gain at `current_pos`.
    ///
    /// Nothing sounds before the start or from the end on. The edge fades come first: the
    /// fade-in over the first `start_end_fade_length` samples, then the fade-out over the
    /// last ones. Elsewhere the loop fades apply: the fade-out before a loop boundary, then
    /// the fade-in after it. Everywhere else the gain is 1.
    pub open spec fn fade_factor(self, current_pos: int) -> FadeFactor {
        let within = self.pos_within_clip(current_pos);
        if current_pos < 0 || current_pos >= self.end_pos {
            FadeFactor::zero()
        } else if current_pos < self.start_end_fade_length {
            FadeFactor {
                numerator: current_pos as u64,
                denominator: self.start_end_fade_length,
            }
        } else if self.end_pos - current_pos < self.start_end_fade_length {
            FadeFactor {
                numerator: (self.end_pos - current_pos) as u64,
                denominator: self.start_end_fade_length,
            }
        } else if self.clip_length - within < self.intermediate_fade_length {
            FadeFactor {
                numerator: (self.clip_length - within) as u64,
                denominator: self.intermediate_fade_length,
            }
        } else if within < self.intermediate_fade_length {
            FadeFactor { numerator: within as u64, denominator: self.intermediate_fade_length }
        } else {
            FadeFactor::one()
        }
    }

    /// Returns the gain at `current_pos`.
    ///
    /// Where the loop fades decide, the clip must have a length.
    pub fn calculate_fade_factor(&self, current_pos: i64) -> (factor: FadeFactor)
        requires
            self.clip_length > 0 || !self.reaches_loop_fades(current_pos as int),
        ensures
            factor == self.fade_factor(current_pos as int),
            factor.wf(),
    {
        if current_pos < 0 {
            return FadeFactor { numerator: 0, denominator: 1 };
        }
        let pos: u64 = current_pos as u64;
        if pos >= self.end_pos {
            return FadeFactor { numerator: 0, denominator: 1 };
        }
        if pos < self.start_end_fade_length {
            return FadeFactor { numerator: pos, denominator: self.start_end_fade_length };
        }
        let distance_to_end: u64 = self.end_pos - pos;
        if distance_to_end < self.start_end_fade_length {
            return FadeFactor {
                numerator: distance_to_end,
                denominator: self.start_end_fade_length,
            };
        }
        let sum: u128 = (pos as u128) + (self.clip_cursor_offset as u128);
        let within: u64 = (sum % (self.clip_length as u128)) as u64;
        let distance_to_clip_end: u64 = self.clip_length - within;
        if distance_to_clip_end < self.intermediate_fade_length {
            return FadeFactor {
                numerator: distance_to_clip_end,
                denominator: self.intermediate_fade_length,
            };
        }
        if within < self.intermediate_fade_length {
            return FadeFactor { numerator: within, denominator: self.intermediate_fade_length };
        }
        FadeFactor { numerator: 1, denominator: 1 }
    }

    /// Returns whether the loop fades decide at `current_pos`: the position is played and
    /// lies outside both edge fades.
    pub fn loop_fades_decide(&self, current_pos: i64) -> (decide: bool)
        ensures
            decide == self.reaches_loop_fades(current_pos as int),
    {
        if current_pos < 0 {
            return false;
        }
        let pos: u64 = current_pos as u64;
        pos < self.end_pos && pos >= self.start_end_fade_length && self.end_pos - pos
            >= self.start_end_fade_length
    }

    /// Returns the gain at `current_pos`, or `None` where the loop fades decide and the clip
    /// has no length, so that there is no position within the clip.
    pub fn checked_fade_factor(&self, current_pos: i64) -> (factor: Option<FadeFactor>)
        ensures
            factor.is_none() <==> self.clip_length == 0 && self.reaches_loop_fades(
                current_pos as int,
            ),
            factor matches Some(f) ==> f == self.fade_factor(current_pos as int) && f.wf(),
    {
        if self.clip_length == 0 && self.loop_fades_decide(current_pos) {
            None
        } else {
            Some(self.calculate_fade_factor(current_pos))
        }
    }

    /// Before the start and from the end position on, the gain is exactly 0.
    pub proof fn lemma_silent_outside(self, current_pos: int)
        requires
            current_pos < 0 || current_pos >= self.end_pos,
        ensures
            self.fade_factor(current_pos).is_zero(),
            self.fade_factor(current_pos) == FadeFactor::zero(),
    {
    }

    /// At a position that is at least `start_end_fade_length` away from the start, from the
    /// end and from the loop boundaries on both sides, the gain is exactly 1, unless the
    /// position lies within a loop fade that is longer than that.
    pub proof fn lemma_full_gain_inside(self, current_pos: int)
        requires
            self.clip_length > 0,
            0 <= current_pos < self.end_pos,
            current_pos >= self.start_end_fade_length,
            self.end_pos - current_pos >= self.start_end_fade_length,
            self.pos_within_clip(current_pos) >= self.start_end_fade_length,
            self.clip_length - self.pos_within_clip(current_pos) >= self.start_end_fade_length,
            self.pos_within_clip(current_pos) >= self.intermediate_fade_length,
            self.clip_length - self.pos_within_clip(current_pos) >= self.intermediate_fade_length,
        ensures
            self.fade_factor(current_pos).is_one(),
            self.fade_factor(current_pos) == FadeFactor::one(),
    {
    }

    /// Where the loop fades are not longer than the edge fades, the gain is exactly 1 at
    /// every position that is at least `start_end_fade_length` away from the start, from
    /// the end and from the loop boundaries on both sides.
    pub proof fn lemma_full_gain_with_short_loop_fades(self, current_pos: int)
        requires
            self.clip_length > 0,
            self.intermediate_fade_length <= self.start_end_fade_length,
            0 <= current_pos < self.end_pos,
            current_pos >= self.start_end_fade_length,
            self.end_pos - current_pos >= self.start_end_fade_length,
            self.pos_within_clip(current_pos) >= self.start_end_fade_length,
            self.clip_length - self.pos_within_clip(current_pos) >= self.start_end_fade_length,
        ensures
            self.fade_factor(current_pos) == FadeFactor::one(),
    {
        self.lemma_full_gain_inside(current_pos);
    }

    /// Every gain is a fraction between 0 and 1.
    pub proof fn lemma_factor_in_unit_range(self, current_pos: int)
        requires
            self.clip_length > 0 || !self.reaches_loop_fades(current_pos),
        ensures
            self.fade_factor(current_pos).wf(),
    {
    }
}

} // verus!
