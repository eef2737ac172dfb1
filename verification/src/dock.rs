//! The dock's tab kinds: a closed sum type over everything a dock tab can
//! hold, consumed by one dispatch function per operation. Only the title
//! dispatch is engine logic; drawing a tab's contents belongs to the host
//! toolkit.

use vstd::prelude::*;

verus! {

use crate::dir_view::DirViewState;
use crate::sidebar::SidebarState;

/// One dock tab.
pub enum DockTab {
    Sidebar(SidebarState),
    InfoSidebar,
    DirView(DirViewState),
    Log,
    Terminal,
}

impl DockTab {
    /// The title a tab shows: a fixed label, except that a directory view
    /// is titled by its directory's name.
    pub fn title(&self) -> (r: String)
        ensures
            (match self {
                DockTab::Sidebar(_) => r@ == "Sidebar"@,
                DockTab::InfoSidebar => r@ == "Info"@,
                DockTab::DirView(state) => r@ == state.file_data.name@,
                DockTab::Log => r@ == "Log"@,
                DockTab::Terminal => r@ == "Terminal"@,
            }),
    {
        match self {
            DockTab::Sidebar(_) => "Sidebar".to_owned(),
            DockTab::InfoSidebar => "Info".to_owned(),
            DockTab::DirView(state) => state.file_data.name.clone(),
            DockTab::Log => "Log".to_owned(),
            DockTab::Terminal => "Terminal".to_owned(),
        }
    }
}

} // verus!
