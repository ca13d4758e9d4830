//! The volume scale of the mixer.

use vstd::prelude::*;

verus! {

/// Maximum value for any volume setting.
pub const MAX_VOLUME: isize = 128;

/// The volume that takes effect when `volume` is asked for: the nearest
/// value of the scale from 0 to 128.
pub open spec fn clamped(volume: isize) -> i32 {
    if volume < 0 {
        0
    } else if volume > 128 {
        128
    } else {
        volume as i32
    }
}

/// The volume to apply when `volume` is asked for. A value outside the scale
/// is not refused: it becomes the boundary it went past.
#[verifier::when_used_as_spec(clamped)]
pub fn effective_volume(volume: isize) -> (r: i32)
    ensures
        r == clamped(volume),
        0 <= r <= MAX_VOLUME,
        0 <= volume <= MAX_VOLUME ==> r == volume,
        volume < 0 ==> r == 0,
        volume > MAX_VOLUME ==> r == MAX_VOLUME,
{
    if volume < 0 {
        0
    } else if volume > MAX_VOLUME {
        128
    } else {
        volume as i32
    }
}

} // verus!
