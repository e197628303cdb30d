//! Frame layout for a bipolar bar display of an audio stream: which samples
//! feed which bar, and how a row of bar heights becomes a screen of text.
//!
//! Amplitudes themselves never enter this crate. The caller measures them and
//! hands over what the frame is drawn from: for each bar a height in rows and
//! a step on the colour ramp, once for the part of the signal above zero and
//! once for the part below.

pub mod bands;
pub mod frame;
pub mod history;
pub mod palette;

use vstd::prelude::*;

verus! {

/// Number of bars in a frame, and of bands that a buffer is cut into.
pub const NUM_BARS: usize = 64;

/// Number of text rows in a frame: an upper half, the centre line, a lower half.
pub const TOTAL_ROWS: usize = 21;

/// Index of the centre line; also the height of either half.
pub const MID_ROW: usize = TOTAL_ROWS / 2;

/// Pause between two frames, in milliseconds.
pub const FRAME_DELAY_MS: u64 = 33;

} // verus!
