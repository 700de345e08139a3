//! The main screen: shows the stub mappings of the selected server beside a
//! detail view of the selected stub. The screen keeps which stub is selected
//! and how far the details are scrolled; drawing and key handling live with
//! the surrounding runtime.

use vstd::prelude::*;

verus! {

/// The stub-mappings main screen's state.
pub struct MainScreen {
    pub selected_stub_index: usize,
    pub scroll_offset: usize,
}

impl MainScreen {
    /// A fresh main screen, with the first stub selected and the details
    /// unscrolled.
    pub fn new() -> (r: Self)
        ensures
            r.selected_stub_index == 0,
            r.scroll_offset == 0,
    {
        MainScreen { selected_stub_index: 0, scroll_offset: 0 }
    }
}

} // verus!
