use rsfm::button::RSFMButtonState;
use rsfm::config::{Config, ConfigFile, Overrides, PathsOverrides, Theme};
use rsfm::paths::Paths;
use rsfm::sidebar::{SidebarButtonState, SidebarState};

#[test]
fn theme_cycles_in_a_fixed_order() {
    let mut t = Theme::Frappe;
    t.switch();
    assert_eq!(t, Theme::Latte);
    t.switch();
    assert_eq!(t, Theme::Macchiato);
    t.switch();
    assert_eq!(t, Theme::Mocha);
    t.switch();
    assert_eq!(t, Theme::Frappe);
}

#[test]
fn default_theme_is_mocha() {
    assert_eq!(Theme::default(), Theme::Mocha);
    let file = ConfigFile::default();
    assert_eq!(file.theme, Theme::Mocha);
    assert!(file.overrides.paths.downloads.is_none());
}

#[test]
fn switch_theme_touches_only_the_theme() {
    let mut config = Config::new(
        "/home/user/.config/rsfm".to_string(),
        "/home/user/.config/rsfm/config.toml".to_string(),
        ConfigFile::default(),
    );
    config.switch_theme();
    assert_eq!(*config.theme(), Theme::Frappe);
    assert_eq!(config.dir_path, "/home/user/.config/rsfm");
    assert_eq!(config.file_path, "/home/user/.config/rsfm/config.toml");
    assert!(config.overrides().paths().downloads().is_none());
}

#[test]
fn downloads_override_wins_over_the_system_answer() {
    let overrides = PathsOverrides {
        downloads: Some("/data/dl".to_string()),
        desktop: None,
        documents: None,
    };
    let paths = Paths::load(
        &overrides,
        "/home/user".to_string(),
        Some("/home/user/Downloads".to_string()),
        Some("/home/user/Desktop".to_string()),
        None,
    );
    assert_eq!(paths.home_dir(), "/home/user");
    assert_eq!(paths.downloads_dir().as_deref(), Some("/data/dl"));
    assert_eq!(paths.desktop_dir().as_deref(), Some("/home/user/Desktop"));
    assert_eq!(paths.documents_dir().as_deref(), None);
}

#[test]
fn without_an_override_the_system_answer_stands() {
    let paths = Paths::load(
        &PathsOverrides::default(),
        "/home/user".to_string(),
        Some("/home/user/Downloads".to_string()),
        None,
        None,
    );
    assert_eq!(paths.downloads_dir().as_deref(), Some("/home/user/Downloads"));
}

#[test]
fn overrides_expose_their_paths() {
    let o = Overrides::default();
    assert!(o.paths().desktop().is_none());
    assert!(o.paths().documents().is_none());
}

#[test]
fn button_state_builders() {
    let state = RSFMButtonState::default().with_text("Home".to_string());
    assert_eq!(state.text().as_deref(), Some("Home"));
    assert!(!state.selected());
    assert!(!state.double_clicked());

    let mut state = state.with_selected(true).with_double_clicked(true).with_editing_text(true);
    assert!(state.selected() && state.double_clicked() && state.editing_text);
    state.deselect();
    assert!(!state.selected());
    state.select();
    assert!(state.selected());
}

#[test]
fn sidebar_collects_shortcut_buttons() {
    let home = SidebarButtonState::new(
        RSFMButtonState::default().with_text("Home".to_string()),
        "/home/user".to_string(),
    );
    let mut sidebar = SidebarState::default().with_my_comp_buttons(vec![home]);
    assert_eq!(sidebar.my_comp_buttons.len(), 1);
    sidebar.append_comp_button(SidebarButtonState::new(
        RSFMButtonState::default().with_text("Downloads".to_string()),
        "/home/user/Downloads".to_string(),
    ));
    assert_eq!(sidebar.my_comp_buttons.len(), 2);
    assert_eq!(sidebar.my_comp_buttons[1].path, "/home/user/Downloads");
    assert_eq!(sidebar.my_comp_buttons[0].rsfm.text.as_deref(), Some("Home"));
}
