//! In-memory configuration: the colour theme and the path overrides, plus
//! where the configuration lives on disk. Reading and writing the file is
//! the host shell's concern; the rules here — the theme cycle and the
//! override precedence — are what the rest of the engine relies on.

use vstd::prelude::*;

verus! {

/// The colour theme, cycled in a fixed order by `switch`.
#[derive(Clone, Copy, PartialEq, Eq, Structural, Debug)]
pub enum Theme {
    Frappe,
    Latte,
    Macchiato,
    Mocha,
}

impl Default for Theme {
    fn default() -> (r: Self)
        ensures
            r == Theme::Mocha,
    {
        Theme::Mocha
    }
}

impl Theme {
    /// The next theme in the cycle
    /// Frappe -> Latte -> Macchiato -> Mocha -> Frappe.
    pub open spec fn spec_switched(self) -> Theme {
        match self {
            Theme::Frappe => Theme::Latte,
            Theme::Latte => Theme::Macchiato,
            Theme::Macchiato => Theme::Mocha,
            Theme::Mocha => Theme::Frappe,
        }
    }

    /// Advances to the next theme in the cycle.
    pub fn switch(&mut self)
        ensures
            *final(self) == old(self).spec_switched(),
    {
        *self = match *self {
            Theme::Frappe => Theme::Latte,
            Theme::Latte => Theme::Macchiato,
            Theme::Macchiato => Theme::Mocha,
            Theme::Mocha => Theme::Frappe,
        };
    }
}

/// Configured replacements for the well-known user directories; an absent
/// entry means the system's answer is used.
pub struct PathsOverrides {
    pub downloads: Option<String>,
    pub desktop: Option<String>,
    pub documents: Option<String>,
}

impl Default for PathsOverrides {
    /// No overrides.
    fn default() -> (r: Self)
        ensures
            r.downloads is None,
            r.desktop is None,
            r.documents is None,
    {
        PathsOverrides { downloads: None, desktop: None, documents: None }
    }
}

impl PathsOverrides {
    pub fn downloads(&self) -> (r: &Option<String>)
        ensures
            r == self.downloads,
    {
        &self.downloads
    }

    pub fn desktop(&self) -> (r: &Option<String>)
        ensures
            r == self.desktop,
    {
        &self.desktop
    }

    pub fn documents(&self) -> (r: &Option<String>)
        ensures
            r == self.documents,
    {
        &self.documents
    }
}

/// The override section of the configuration.
pub struct Overrides {
    pub paths: PathsOverrides,
}

impl Default for Overrides {
    fn default() -> (r: Self)
        ensures
            r.paths.downloads is None,
            r.paths.desktop is None,
            r.paths.documents is None,
    {
        Overrides { paths: PathsOverrides::default() }
    }
}

impl Overrides {
    pub fn paths(&self) -> (r: &PathsOverrides)
        ensures
            r == self.paths,
    {
        &self.paths
    }
}

/// What the configuration file holds.
pub struct ConfigFile {
    pub theme: Theme,
    pub overrides: Overrides,
}

impl Default for ConfigFile {
    /// The Mocha theme and no overrides.
    fn default() -> (r: Self)
        ensures
            r.theme == Theme::Mocha,
            r.overrides.paths.downloads is None,
            r.overrides.paths.desktop is None,
            r.overrides.paths.documents is None,
    {
        ConfigFile { theme: Theme::default(), overrides: Overrides::default() }
    }
}

/// The loaded configuration: where it lives on disk and what it holds.
pub struct Config {
    pub dir_path: String,
    pub file_path: String,
    pub file: ConfigFile,
}

impl Config {
    /// Wraps a configuration the host shell has read (or defaulted).
    pub fn new(dir_path: String, file_path: String, file: ConfigFile) -> (r: Self)
        ensures
            r.dir_path == dir_path,
            r.file_path == file_path,
            r.file == file,
    {
        Config { dir_path, file_path, file }
    }

    pub fn theme(&self) -> (r: &Theme)
        ensures
            r == self.file.theme,
    {
        &self.file.theme
    }

    pub fn overrides(&self) -> (r: &Overrides)
        ensures
            r == self.file.overrides,
    {
        &self.file.overrides
    }

    /// Advances the theme one step in the cycle. Persisting the changed
    /// configuration is the caller's concern.
    pub fn switch_theme(&mut self)
        ensures
            final(self).file.theme == old(self).file.theme.spec_switched(),
            final(self).file.overrides == old(self).file.overrides,
            final(self).dir_path == old(self).dir_path,
            final(self).file_path == old(self).file_path,
    {
        self.file.theme.switch();
    }
}

} // verus!
