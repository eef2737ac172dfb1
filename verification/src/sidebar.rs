//! The sidebar's state: the list of "My Computer" shortcut buttons, each a
//! button state plus the path it opens.

use vstd::prelude::*;

verus! {

use crate::button::RSFMButtonState;

/// One sidebar shortcut: widget state plus the path it opens.
pub struct SidebarButtonState {
    pub rsfm: RSFMButtonState,
    pub path: String,
}

impl SidebarButtonState {
    pub fn new(rsfm: RSFMButtonState, path: String) -> (r: Self)
        ensures
            r.rsfm == rsfm,
            r.path == path,
    {
        SidebarButtonState { rsfm, path }
    }
}

/// The sidebar's state, kept across frames.
pub struct SidebarState {
    pub my_comp_buttons: Vec<SidebarButtonState>,
}

impl Default for SidebarState {
    /// An empty sidebar.
    fn default() -> (r: Self)
        ensures
            r.my_comp_buttons@.len() == 0,
    {
        SidebarState { my_comp_buttons: Vec::new() }
    }
}

impl SidebarState {
    pub fn with_my_comp_buttons(self, my_comp_buttons: Vec<SidebarButtonState>) -> (r: Self)
        ensures
            r.my_comp_buttons == my_comp_buttons,
    {
        SidebarState { my_comp_buttons }
    }

    pub fn append_comp_button(&mut self, comp_button: SidebarButtonState)
        ensures
            final(self).my_comp_buttons@ == old(self).my_comp_buttons@.push(comp_button),
    {
        self.my_comp_buttons.push(comp_button);
    }
}

} // verus!
