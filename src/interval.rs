//! How often a window is captured from the raw stream.

use vstd::prelude::*;

verus! {

/// Number of samples in one window.
pub const WINDOW_LEN: usize = 512;

/// Display refresh rate, in frames per second, that captures are paced to.
pub const DISPLAY_RATE: u32 = 60;

/// Raw samples between the starts of two capture cycles: one display frame
/// worth of samples, but never fewer than a whole window.
pub open spec fn interval_for(sample_rate: nat) -> nat {
    let per_frame = sample_rate / (DISPLAY_RATE as nat);
    if per_frame < WINDOW_LEN as nat {
        WINDOW_LEN as nat
    } else {
        per_frame
    }
}

/// The capture interval for a stream of `sample_rate` samples per second.
pub fn capture_interval(sample_rate: u32) -> (r: u32)
    ensures
        r as nat == interval_for(sample_rate as nat),
        r as nat >= WINDOW_LEN as nat,
{
    let per_frame = sample_rate / DISPLAY_RATE;
    if per_frame < WINDOW_LEN as u32 {
        WINDOW_LEN as u32
    } else {
        per_frame
    }
}

} // verus!
