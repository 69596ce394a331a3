//! Motion extraction pipeline: decodes compressed camera frames into packed
//! RGB pixels, keeps a fixed-depth history of recent frames, and derives a
//! per-pixel motion image in which each color channel shows the saturating
//! intensity difference between the newest frame and a lagged frame.

pub mod coordinator;
pub mod decode;
pub mod diff;
pub mod display;
pub mod pixel;
pub mod queue;
pub mod ring;

use vstd::prelude::*;

verus! {

/// Width, in pixels, of a captured frame.
pub const FRAME_WIDTH: usize = 1280;

/// Height, in pixels, of a captured frame.
pub const FRAME_HEIGHT: usize = 720;

/// Target capture rate, frames per second.
pub const TARGET_FPS: u32 = 30;

/// Lag, in frames, between the lagged frame of one channel and the next.
pub const CHANNEL_OFFSET: usize = 4;

/// Lag of the red channel's history frame behind the newest frame.
pub const RED_LAG: usize = 1;

/// Lag of the green channel's history frame behind the newest frame.
pub const GREEN_LAG: usize = 1 + CHANNEL_OFFSET;

/// Lag of the blue channel's history frame behind the newest frame.
pub const BLUE_LAG: usize = 1 + 2 * CHANNEL_OFFSET;

/// Capacity of the frame history: one slot for the newest frame plus one
/// for each frame up to the largest lag.
pub const HISTORY_CAPACITY: usize = 2 + 2 * CHANNEL_OFFSET;

/// Capacity of each bounded hand-off queue between pipeline stages.
pub const QUEUE_CAPACITY: usize = 4;

/// The per-channel lags are distinct and increasing, and the history holds
/// exactly one frame more than the largest lag, so every lookback the diff
/// engine makes is within the full history.
pub proof fn lemma_lag_configuration()
    ensures
        0 < RED_LAG < GREEN_LAG < BLUE_LAG,
        HISTORY_CAPACITY == BLUE_LAG + 1,
{
}

} // verus!
