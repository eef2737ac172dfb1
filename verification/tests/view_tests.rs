use rsfm::dir_view::{DirViewIconSize, DirViewState};
use rsfm::dock::DockTab;
use rsfm::sidebar::SidebarState;
use rsfm::fs::{EntryKind, FileData};
use rsfm::selection::InputEvent;

fn plain(path: &str, kind: EntryKind) -> FileData {
    FileData::new(path.to_string(), kind, None)
}

fn open_dir() -> DirViewState {
    // sorted display order: Beta(dir), Zeta(dir), a.txt, b.txt
    let children = vec![
        plain("/d/b.txt", EntryKind::File),
        plain("/d/Zeta", EntryKind::Directory),
        plain("/d/a.txt", EntryKind::File),
        plain("/d/Beta", EntryKind::Directory),
    ];
    DirViewState::new(plain("/d", EntryKind::Directory), children)
}

#[test]
fn opening_sorts_and_labels_the_buttons() {
    let view = open_dir();
    let labels: Vec<&str> = view
        .buttons
        .iter()
        .map(|b| b.rsfm.text.as_deref().unwrap())
        .collect();
    assert_eq!(labels, vec!["Beta", "Zeta", "a.txt", "b.txt"]);
    assert_eq!(view.selection.selected_index, None);
    assert_eq!(view.selection.editing_index, None);
    assert_eq!(view.selection.activated_index, None);
    assert!(matches!(view.icon_size, DirViewIconSize::Small));
}

#[test]
fn clicking_keeps_the_selection_single() {
    let mut view = open_dir();
    for &i in &[0usize, 2, 1, 1, 3] {
        view.process_event(&InputEvent::Clicked(i));
        let selected: Vec<usize> = (0..view.buttons.len())
            .filter(|&j| view.buttons[j].rsfm.selected)
            .collect();
        assert_eq!(selected, vec![i]);
        assert_eq!(view.selection.selected_index, Some(i));
    }
}

#[test]
fn clicking_another_entry_deselects_the_previous_one() {
    let mut view = open_dir();
    view.process_event(&InputEvent::Clicked(1));
    assert!(view.buttons[1].rsfm.selected);
    view.process_event(&InputEvent::Clicked(3));
    assert!(!view.buttons[1].rsfm.selected);
    assert!(view.buttons[3].rsfm.selected);
}

#[test]
fn activation_is_a_one_frame_pulse() {
    let mut view = open_dir();
    view.process_event(&InputEvent::DoubleClickedIcon(2));
    assert_eq!(view.selection.activated_index, Some(2));
    let nav = view.take_navigation().expect("an activation emits a request");
    assert_eq!(nav.path, "/d/a.txt");
    assert_eq!(nav.kind, EntryKind::File);
    // the next frame starts with no further input: the pulse is gone
    view.begin_frame();
    assert_eq!(view.selection.activated_index, None);
    assert!(view.take_navigation().is_none());
}

#[test]
fn icon_activation_wins_over_a_pending_edit() {
    let mut view = open_dir();
    view.process_event(&InputEvent::DoubleClickedLabel(2));
    assert_eq!(view.selection.editing_index, Some(2));
    view.process_event(&InputEvent::DoubleClickedIcon(2));
    assert_eq!(view.selection.editing_index, None);
    assert_eq!(view.selection.activated_index, Some(2));
}

#[test]
fn label_double_click_edits_without_activating() {
    let mut view = open_dir();
    view.process_event(&InputEvent::DoubleClickedLabel(0));
    assert_eq!(view.selection.editing_index, Some(0));
    assert_eq!(view.selection.activated_index, None);
    assert!(view.buttons[0].rsfm.editing_text);
}

#[test]
fn clicking_elsewhere_exits_edit_mode() {
    let mut view = open_dir();
    view.process_event(&InputEvent::DoubleClickedLabel(0));
    view.process_event(&InputEvent::Clicked(2));
    assert_eq!(view.selection.editing_index, None);
    assert!(!view.buttons[0].rsfm.editing_text);
    assert_eq!(view.selection.selected_index, Some(2));
}

#[test]
fn clicking_the_edited_entry_changes_nothing() {
    let mut view = open_dir();
    view.process_event(&InputEvent::DoubleClickedLabel(1));
    view.process_event(&InputEvent::Clicked(1));
    assert_eq!(view.selection.editing_index, Some(1));
    assert_eq!(view.selection.selected_index, None);
}

#[test]
fn committing_an_unchanged_name_asks_for_nothing() {
    let mut view = open_dir();
    view.process_event(&InputEvent::DoubleClickedLabel(2));
    let r = view.process_event(&InputEvent::TextCommitted(2, "a.txt".to_string()));
    assert!(r.is_none());
    assert_eq!(view.selection.editing_index, None);
}

#[test]
fn committing_a_new_name_asks_for_a_rename_and_waits() {
    let mut view = open_dir();
    view.process_event(&InputEvent::DoubleClickedLabel(2));
    let req = view
        .process_event(&InputEvent::TextCommitted(2, "b.md".to_string()))
        .expect("a changed name asks for a rename");
    assert_eq!(req.index, 2);
    assert_eq!(req.old_path, "/d/a.txt");
    assert_eq!(req.new_path, "/d/b.md");
    assert_eq!(req.new_name, "b.md");
    // nothing is applied yet: the entry keeps its old name and path
    assert_eq!(view.buttons[2].file_data.name().as_str(), "a.txt");
    assert_eq!(view.buttons[2].file_data.path().as_str(), "/d/a.txt");
}

#[test]
fn a_rejected_rename_leaves_state_untouched() {
    let mut view = open_dir();
    view.process_event(&InputEvent::DoubleClickedLabel(2));
    let _req = view
        .process_event(&InputEvent::TextCommitted(2, "b.txt".to_string()))
        .expect("a changed name asks for a rename");
    // the collaborator reports failure: the caller simply never applies it
    assert_eq!(view.buttons[2].file_data.name().as_str(), "a.txt");
    assert_eq!(view.selection.editing_index, None);
}

#[test]
fn a_successful_rename_is_applied_in_place() {
    let mut view = open_dir();
    view.process_event(&InputEvent::DoubleClickedLabel(2));
    let req = view
        .process_event(&InputEvent::TextCommitted(2, "zz.md".to_string()))
        .expect("a changed name asks for a rename");
    view.apply_rename(req.index, &req.new_name);
    assert_eq!(view.buttons[2].file_data.name().as_str(), "zz.md");
    assert_eq!(view.buttons[2].file_data.path().as_str(), "/d/zz.md");
    assert_eq!(view.buttons[2].rsfm.text.as_deref(), Some("zz.md"));
    // the list is deliberately not re-sorted after a rename
    let labels: Vec<&str> = view
        .buttons
        .iter()
        .map(|b| b.rsfm.text.as_deref().unwrap())
        .collect();
    assert_eq!(labels, vec!["Beta", "Zeta", "zz.md", "b.txt"]);
}

#[test]
fn losing_focus_without_commit_just_exits_edit_mode() {
    let mut view = open_dir();
    view.process_event(&InputEvent::DoubleClickedLabel(1));
    view.process_event(&InputEvent::EditLostFocus(1));
    assert_eq!(view.selection.editing_index, None);
    assert_eq!(view.buttons[1].file_data.name().as_str(), "Zeta");
}

#[test]
fn a_frame_runs_its_events_in_order() {
    let mut view = open_dir();
    view.process_event(&InputEvent::DoubleClickedIcon(0));
    let events = vec![
        InputEvent::Clicked(1),
        InputEvent::DoubleClickedLabel(1),
        InputEvent::TextCommitted(1, "Eta".to_string()),
    ];
    let renames = view.process_frame(&events);
    // the frame began by clearing the previous activation pulse
    assert_eq!(view.selection.activated_index, None);
    assert_eq!(view.selection.selected_index, Some(1));
    assert_eq!(view.selection.editing_index, None);
    assert_eq!(renames.len(), 1);
    assert_eq!(renames[0].index, 1);
    assert_eq!(renames[0].new_name, "Eta");
    assert_eq!(renames[0].new_path, "/d/Eta");
}

#[test]
fn icon_sizes_in_pixels() {
    assert_eq!(DirViewIconSize::Small.side(), 50);
    assert_eq!(DirViewIconSize::Medium.side(), 75);
    assert_eq!(DirViewIconSize::Large.side(), 100);
}

#[test]
fn the_view_remembers_its_directory() {
    let view = open_dir();
    assert_eq!(view.file_data().path().as_str(), "/d");
}

#[test]
fn tab_titles_dispatch_on_the_tab_kind() {
    assert_eq!(DockTab::Sidebar(SidebarState::default()).title(), "Sidebar");
    assert_eq!(DockTab::InfoSidebar.title(), "Info");
    assert_eq!(DockTab::Log.title(), "Log");
    assert_eq!(DockTab::Terminal.title(), "Terminal");
    assert_eq!(DockTab::DirView(open_dir()).title(), "d");
}
