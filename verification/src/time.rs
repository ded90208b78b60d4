//! Time utilities: units, saturation, scaling and wrap-around.

use vstd::prelude::*;

verus! {

/// Number of nanoseconds in one second.
pub const NANOS_PER_SECOND: u64 = 1_000_000_000;

/// Denominator of tempo factors and proportions: one million stands for the factor 1.
pub const MILLION: u64 = 1_000_000;

/// The position that stands for `x`: `x` itself if it fits, otherwise the nearest position.
pub open spec fn clamp_position(x: int) -> int {
    if x < i64::MIN as int {
        i64::MIN as int
    } else if x > i64::MAX as int {
        i64::MAX as int
    } else {
        x
    }
}

/// The duration that stands for `x`: never negative, never above the largest duration.
pub open spec fn clamp_duration(x: int) -> int {
    if x < 0 {
        0
    } else if x > u64::MAX as int {
        u64::MAX as int
    } else {
        x
    }
}

/// The frame count that stands for `x`: never negative, never above `i32::MAX`.
pub open spec fn clamp_frames(x: int) -> int {
    if x < 0 {
        0
    } else if x > i32::MAX as int {
        i32::MAX as int
    } else {
        x
    }
}

/// `x` multiplied by a factor given in millionths, rounded down.
pub open spec fn scaled(x: int, factor: int) -> int {
    x * factor / (MILLION as int)
}

/// `x` divided by a factor given in millionths, rounded down.
pub open spec fn unscaled(x: int, factor: int) -> int {
    x * (MILLION as int) / factor
}

/// Euclidean remainder of `p` by `length`. A clip without length has position zero only.
pub open spec fn wrapped(p: int, length: int) -> int {
    if length > 0 {
        p % length
    } else {
        0
    }
}

/// The time that `frames` frames take at `sample_rate` hertz, in nanoseconds, rounded down.
pub open spec fn frames_to_nanos(frames: int, sample_rate: int) -> int {
    frames * (NANOS_PER_SECOND as int) / sample_rate
}

/// The number of whole frames that fit into `nanos` nanoseconds at `sample_rate` hertz.
pub open spec fn nanos_to_frames(nanos: int, sample_rate: int) -> int {
    nanos * sample_rate / (NANOS_PER_SECOND as int)
}

/// The product of two 64-bit values fits into 128 bits.
pub proof fn lemma_product_fits(a: u64, b: u64)
    ensures
        0 <= (a as int) * (b as int) <= 0xFFFF_FFFF_FFFF_FFFE_0000_0000_0000_0001,
{
    assert(0 <= (a as int) * (b as int) <= 0xFFFF_FFFF_FFFF_FFFF * 0xFFFF_FFFF_FFFF_FFFF)
        by (nonlinear_arith)
        requires
            0 <= a <= 0xFFFF_FFFF_FFFF_FFFF,
            0 <= b <= 0xFFFF_FFFF_FFFF_FFFF,
    ;
}

/// Saturates a wide signed value to a position.
pub fn position_from(x: i128) -> (p: i64)
    ensures
        p as int == clamp_position(x as int),
{
    if x < i64::MIN as i128 {
        i64::MIN
    } else if x > i64::MAX as i128 {
        i64::MAX
    } else {
        x as i64
    }
}

/// Saturates a wide signed value to a duration.
pub fn duration_from(x: i128) -> (d: u64)
    ensures
        d as int == clamp_duration(x as int),
{
    if x < 0 {
        0
    } else if x > u64::MAX as i128 {
        u64::MAX
    } else {
        x as u64
    }
}

/// Saturates a wide unsigned value to a duration.
pub fn duration_from_unsigned(x: u128) -> (d: u64)
    ensures
        d as int == clamp_duration(x as int),
{
    if x > u64::MAX as u128 {
        u64::MAX
    } else {
        x as u64
    }
}

/// Multiplies a duration by a factor in millionths, without saturation.
pub fn scale_wide(d: u64, factor: u64) -> (r: u128)
    ensures
        r as int == scaled(d as int, factor as int),
        r <= 0xFFFF_FFFF_FFFF_FFFF_FFFF_FFFF_FFFF,
{
    proof {
        lemma_product_fits(d, factor);
        vstd::arithmetic::div_mod::lemma_div_is_ordered(
            (d as int) * (factor as int),
            0xFFFF_FFFF_FFFF_FFFE_0000_0000_0000_0001,
            MILLION as int,
        );
        assert(0xFFFF_FFFF_FFFF_FFFE_0000_0000_0000_0001int / 1_000_000
            <= 0xFFFF_FFFF_FFFF_FFFF_FFFF_FFFF_FFFF);
    }
    (d as u128) * (factor as u128) / (MILLION as u128)
}

/// Multiplies a duration by a factor in millionths.
pub fn scale_duration(d: u64, factor: u64) -> (r: u64)
    ensures
        r as int == clamp_duration(scaled(d as int, factor as int)),
{
    duration_from_unsigned(scale_wide(d, factor))
}

/// Divides a duration by a factor in millionths.
pub fn unscale_duration(d: u64, factor: u64) -> (r: u64)
    requires
        factor > 0,
    ensures
        r as int == clamp_duration(unscaled(d as int, factor as int)),
{
    proof {
        lemma_product_fits(d, MILLION);
    }
    let wide: u128 = (d as u128) * (MILLION as u128);
    duration_from_unsigned(wide / (factor as u128))
}

/// The duration of `frames` frames at `sample_rate` hertz.
pub fn duration_of_frames(frames: u32, sample_rate: u32) -> (d: u64)
    requires
        sample_rate > 0,
    ensures
        d as int == frames_to_nanos(frames as int, sample_rate as int),
{
    proof {
        lemma_product_fits(frames as u64, NANOS_PER_SECOND);
        assert((frames as int) * (NANOS_PER_SECOND as int) <= 0xFFFF_FFFF * 1_000_000_000)
            by (nonlinear_arith)
            requires
                0 <= frames <= 0xFFFF_FFFF,
                NANOS_PER_SECOND == 1_000_000_000,
        ;
        vstd::arithmetic::div_mod::lemma_div_nonincreasing(
            (frames as int) * (NANOS_PER_SECOND as int),
            sample_rate as int,
        );
        vstd::arithmetic::div_mod::lemma_div_pos_is_pos(
            (frames as int) * (NANOS_PER_SECOND as int),
            sample_rate as int,
        );
    }
    let wide: u64 = (frames as u64) * NANOS_PER_SECOND;
    wide / (sample_rate as u64)
}

/// The number of whole frames in `d` at `sample_rate` hertz, saturated to the `i32` range.
pub fn frames_in_duration(d: u64, sample_rate: u32) -> (frames: i32)
    ensures
        frames as int == clamp_frames(nanos_to_frames(d as int, sample_rate as int)),
{
    proof {
        lemma_product_fits(d, sample_rate as u64);
    }
    let wide: u128 = (d as u128) * (sample_rate as u128);
    let q: u128 = wide / (NANOS_PER_SECOND as u128);
    if q > i32::MAX as u128 {
        i32::MAX
    } else {
        q as i32
    }
}

/// Wraps a position that is not negative into a clip of the given length.
pub fn wrap_position(p: u128, length: u64) -> (r: i64)
    ensures
        r as int == clamp_position(wrapped(p as int, length as int)),
        length > 0 ==> 0 <= r < length,
        length == 0 ==> r == 0,
{
    if length == 0 {
        0
    } else {
        let w: u128 = p % (length as u128);
        if w > i64::MAX as u128 {
            i64::MAX
        } else {
            w as i64
        }
    }
}

/// The frame that contains the position `nanos` at `sample_rate` hertz, counted from the
/// frame at position zero, before which the frames have negative numbers.
pub open spec fn frame_at(nanos: int, sample_rate: int) -> int {
    nanos * sample_rate / (NANOS_PER_SECOND as int)
}

/// Returns the frame that contains the position `nanos` at `sample_rate` hertz, saturated
/// to the range of positions.
pub fn frame_of_position(nanos: i64, sample_rate: u32) -> (frame: i64)
    ensures
        frame as int == clamp_position(frame_at(nanos as int, sample_rate as int)),
{
    if nanos >= 0 {
        proof {
            lemma_product_fits(nanos as u64, sample_rate as u64);
        }
        let wide: u128 = (nanos as u128) * (sample_rate as u128);
        let q: u128 = wide / (NANOS_PER_SECOND as u128);
        if q > i64::MAX as u128 {
            i64::MAX
        } else {
            q as i64
        }
    } else {
        let magnitude: u64 = if nanos == i64::MIN {
            0x8000_0000_0000_0000u64
        } else {
            (-nanos) as u64
        };
        proof {
            lemma_product_fits(magnitude, sample_rate as u64);
            assert((nanos as int) * (sample_rate as int) == -((magnitude as int) * (
            sample_rate as int))) by (nonlinear_arith)
                requires
                    nanos as int == -(magnitude as int),
            ;
        }
        let wide: u128 = (magnitude as u128) * (sample_rate as u128);
        // Rounded towards the earlier frame.
        let q: u128 = (wide + (NANOS_PER_SECOND as u128 - 1)) / (NANOS_PER_SECOND as u128);
        proof {
            let a = wide as int;
            assert(-((a + 999_999_999) / 1_000_000_000) == (-a) / 1_000_000_000);
        }
        position_from(-(q as i128))
    }
}

/// Returns the number of whole frames in `d` at `sample_rate` hertz.
pub fn frames_of_duration(d: u64, sample_rate: u32) -> (frames: u64)
    ensures
        frames as int == clamp_duration(nanos_to_frames(d as int, sample_rate as int)),
{
    proof {
        lemma_product_fits(d, sample_rate as u64);
    }
    let wide: u128 = (d as u128) * (sample_rate as u128);
    duration_from_unsigned(wide / (NANOS_PER_SECOND as u128))
}

} // verus!
