//! Bounds of the candidate search for visually similar assets.

use vstd::prelude::*;

verus! {

/// How far a color channel of a candidate may lie from the searched accent color.
pub const COLOR_SHIFT: u8 = 40;

/// The range `[channel - shift, channel + shift]`, clamped to the channel's values.
pub fn channel_bounds(channel: u8, shift: u8) -> (r: (u8, u8))
    ensures
        r.0 == (if channel >= shift { channel - shift } else { 0 }),
        r.1 == (if channel + shift <= 255 { channel + shift } else { 255 }),
{
    (channel.saturating_sub(shift), channel.saturating_add(shift))
}

/// The red, green and blue ranges that a candidate's accent color is matched against.
pub fn color_bounds(red: u8, green: u8, blue: u8) -> (r: [(u8, u8); 3])
    ensures
        r@[0] == channel_bounds_spec(red, COLOR_SHIFT),
        r@[1] == channel_bounds_spec(green, COLOR_SHIFT),
        r@[2] == channel_bounds_spec(blue, COLOR_SHIFT),
{
    [
        channel_bounds(red, COLOR_SHIFT),
        channel_bounds(green, COLOR_SHIFT),
        channel_bounds(blue, COLOR_SHIFT),
    ]
}

/// How far a color channel of an asset-features candidate may lie from the searched color.
pub const CANDIDATE_COLOR_SHIFT: u8 = 75;

/// The red, green and blue ranges that the accent color of an asset-features
/// candidate is matched against.
pub fn candidate_color_bounds(red: u8, green: u8, blue: u8) -> (r: [(u8, u8); 3])
    ensures
        r@[0] == channel_bounds_spec(red, CANDIDATE_COLOR_SHIFT),
        r@[1] == channel_bounds_spec(green, CANDIDATE_COLOR_SHIFT),
        r@[2] == channel_bounds_spec(blue, CANDIDATE_COLOR_SHIFT),
{
    [
        channel_bounds(red, CANDIDATE_COLOR_SHIFT),
        channel_bounds(green, CANDIDATE_COLOR_SHIFT),
        channel_bounds(blue, CANDIDATE_COLOR_SHIFT),
    ]
}

/// The clamped range of a channel, as [`channel_bounds`] computes it.
pub open spec fn channel_bounds_spec(channel: u8, shift: u8) -> (u8, u8) {
    (
        if channel >= shift { (channel - shift) as u8 } else { 0 },
        if channel + shift <= 255 { (channel + shift) as u8 } else { 255 },
    )
}

} // verus!
