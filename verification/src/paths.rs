//! Well-known user directories, resolved once at startup. The host shell
//! asks the operating system for its answers and hands them in as plain
//! values; the rule applied here is that a configured downloads override
//! wins over the system's answer.

use vstd::prelude::*;

verus! {

use crate::config::PathsOverrides;

/// The resolved directories a freshly started session works with.
pub struct Paths {
    pub home_dir: String,
    pub downloads_dir: Option<String>,
    pub desktop_dir: Option<String>,
    pub documents_dir: Option<String>,
}

impl Paths {
    /// Combines the configured overrides with what the system reported:
    /// the downloads override takes precedence, everything else is taken
    /// as reported.
    pub fn load(
        overrides: &PathsOverrides,
        home_dir: String,
        system_downloads: Option<String>,
        system_desktop: Option<String>,
        system_documents: Option<String>,
    ) -> (r: Paths)
        ensures
            r.home_dir == home_dir,
            r.downloads_dir == (if overrides.downloads is Some {
                overrides.downloads
            } else {
                system_downloads
            }),
            r.desktop_dir == system_desktop,
            r.documents_dir == system_documents,
    {
        let downloads_dir = match &overrides.downloads {
            Some(p) => Some(p.clone()),
            None => system_downloads,
        };
        Paths { home_dir, downloads_dir, desktop_dir: system_desktop, documents_dir: system_documents }
    }

    pub fn home_dir(&self) -> (r: &String)
        ensures
            r == self.home_dir,
    {
        &self.home_dir
    }

    pub fn downloads_dir(&self) -> (r: &Option<String>)
        ensures
            r == self.downloads_dir,
    {
        &self.downloads_dir
    }

    pub fn desktop_dir(&self) -> (r: &Option<String>)
        ensures
            r == self.desktop_dir,
    {
        &self.desktop_dir
    }

    pub fn documents_dir(&self) -> (r: &Option<String>)
        ensures
            r == self.documents_dir,
    {
        &self.documents_dir
    }
}

} // verus!
