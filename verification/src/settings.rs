//! Constants that a user might want to change.

use vstd::prelude::*;

verus! {

/// Settings of the program as a whole.
pub struct ProgramSettings {}

impl ProgramSettings {
    /// Print debug information on start.
    pub const PRINT_DEBUG_INFO: bool = false;
}

/// Settings of the viewer window.
pub struct WindowSettings {}

impl WindowSettings {
    /// Window title.
    pub const WINDOW_TITLE: &'static str = "R-Liv";

    /// Debug panel open on start up.
    pub const DEBUG_MENU_OPEN: bool = false;

    /// Metadata panel open on start up.
    pub const METADATA_MENU_OPEN: bool = false;
}

/// Settings of the displayed image.
pub struct ImageSettings {}

impl ImageSettings {
    /// Zoom change, in percent, for one line of scrolling.
    pub const ZOOM_MULTIPLIER: u32 = 10;
}

} // verus!
