//! Display-mode bookkeeping for the fullscreen toggle.
//!
//! The window itself is an external resource that is dropped and recreated
//! on each toggle. What is verified here is the pure bookkeeping: which
//! geometry to save when entering fullscreen, and which window to ask for —
//! and where to put it — on the way back.

use vstd::prelude::*;

verus! {

/// Width, in pixels, of the borderless fullscreen window.
pub const FULLSCREEN_WIDTH: usize = 1920;

/// Height, in pixels, of the borderless fullscreen window.
pub const FULLSCREEN_HEIGHT: usize = 1080;

/// Horizontal correction applied when restoring a saved window position,
/// compensating for the window frame.
pub const RESTORE_X_OFFSET: isize = 4;

/// Vertical correction applied when restoring a saved window position,
/// compensating for the title bar.
pub const RESTORE_Y_OFFSET: isize = 46;

/// Whether the display is fullscreen, and the geometry to restore when it
/// next leaves fullscreen.
#[derive(Clone, Copy, Debug, PartialEq, Eq, Structural)]
pub struct DisplayMode {
    pub fullscreen: bool,
    pub saved_width: usize,
    pub saved_height: usize,
    pub saved_x: isize,
    pub saved_y: isize,
}

/// The window to create after a toggle: its geometry, its style, and
/// whether to move it to a restored position afterwards.
#[derive(Clone, Copy, Debug, PartialEq, Eq, Structural)]
pub struct WindowRequest {
    pub width: usize,
    pub height: usize,
    pub borderless: bool,
    pub resize: bool,
    pub topmost: bool,
    pub hide_cursor: bool,
    pub restore_position: bool,
    pub position_x: isize,
    pub position_y: isize,
}

impl DisplayMode {
    /// The windowed mode the display starts in.
    pub fn initial(width: usize, height: usize) -> (m: Self)
        ensures
            !m.fullscreen,
            m.saved_width == width,
            m.saved_height == height,
            m.saved_x == 0,
            m.saved_y == 0,
    {
        DisplayMode { fullscreen: false, saved_width: width, saved_height: height, saved_x: 0, saved_y: 0 }
    }

    /// Flips between windowed and fullscreen. Entering fullscreen saves
    /// the window's current geometry and asks for a borderless, topmost,
    /// fixed-size fullscreen window with the cursor hidden. Leaving it
    /// asks for a resizable window of the saved size, moved back to the
    /// saved position corrected by the frame offsets.
    pub fn toggle(&mut self, cur_width: usize, cur_height: usize, cur_x: isize, cur_y: isize) -> (req:
        WindowRequest)
        requires
            old(self).fullscreen ==> old(self).saved_x >= isize::MIN + RESTORE_X_OFFSET,
            old(self).fullscreen ==> old(self).saved_y >= isize::MIN + RESTORE_Y_OFFSET,
        ensures
            final(self).fullscreen == !old(self).fullscreen,
            !old(self).fullscreen ==> *final(self) == (DisplayMode {
                fullscreen: true,
                saved_width: cur_width,
                saved_height: cur_height,
                saved_x: cur_x,
                saved_y: cur_y,
            }),
            !old(self).fullscreen ==> req == (WindowRequest {
                width: FULLSCREEN_WIDTH,
                height: FULLSCREEN_HEIGHT,
                borderless: true,
                resize: false,
                topmost: true,
                hide_cursor: true,
                restore_position: false,
                position_x: 0,
                position_y: 0,
            }),
            old(self).fullscreen ==> *final(self) == (DisplayMode {
                fullscreen: false,
                ..*old(self)
            }),
            old(self).fullscreen ==> req == (WindowRequest {
                width: old(self).saved_width,
                height: old(self).saved_height,
                borderless: false,
                resize: true,
                topmost: false,
                hide_cursor: false,
                restore_position: true,
                position_x: (old(self).saved_x - RESTORE_X_OFFSET) as isize,
                position_y: (old(self).saved_y - RESTORE_Y_OFFSET) as isize,
            }),
    {
        if !self.fullscreen {
            self.fullscreen = true;
            self.saved_width = cur_width;
            self.saved_height = cur_height;
            self.saved_x = cur_x;
            self.saved_y = cur_y;
            WindowRequest {
                width: FULLSCREEN_WIDTH,
                height: FULLSCREEN_HEIGHT,
                borderless: true,
                resize: false,
                topmost: true,
                hide_cursor: true,
                restore_position: false,
                position_x: 0,
                position_y: 0,
            }
        } else {
            self.fullscreen = false;
            WindowRequest {
                width: self.saved_width,
                height: self.saved_height,
                borderless: false,
                resize: true,
                topmost: false,
                hide_cursor: false,
                restore_position: true,
                position_x: self.saved_x - RESTORE_X_OFFSET,
                position_y: self.saved_y - RESTORE_Y_OFFSET,
            }
        }
    }
}

} // verus!
