//! The settings that the core reads, and now and then writes back.

use vstd::prelude::*;

verus! {

/// How the repository reaches its remote.
#[derive(Debug, PartialEq, Eq, Structural, Clone, Copy)]
pub enum RepoMode {
    /// The remote is hosted on GitHub.
    GitHub,
    /// The remote is a path on this machine, or there is none.
    Local,
}

/// The settings.
#[derive(Debug)]
pub struct Config {
    /// The root of the repository that stores the files.
    pub repo_path: String,
    /// The name of the active profile, empty where none is chosen.
    pub active_profile: String,
    /// Whether the links of the active profile are said to be in place.
    pub profile_activated: bool,
    /// Whether what stands in a link's way is moved to a backup.
    pub backup_enabled: bool,
    pub repo_mode: RepoMode,
    /// Paths that the user added beyond the usual candidates.
    pub custom_files: Vec<String>,
}

/// The mathematical value of a `Config`.
pub struct ConfigView {
    pub repo_path: Seq<char>,
    pub active_profile: Seq<char>,
    pub profile_activated: bool,
    pub backup_enabled: bool,
    pub repo_mode: RepoMode,
    pub custom_files: Seq<Seq<char>>,
}

impl View for Config {
    type V = ConfigView;

    open spec fn view(&self) -> ConfigView {
        ConfigView {
            repo_path: self.repo_path@,
            active_profile: self.active_profile@,
            profile_activated: self.profile_activated,
            backup_enabled: self.backup_enabled,
            repo_mode: self.repo_mode,
            custom_files: self.custom_files.deep_view(),
        }
    }
}

impl Clone for Config {
    fn clone(&self) -> (r: Self)
        ensures
            r@ == self@,
    {
        let custom_files = self.custom_files.clone();
        assert(custom_files.deep_view() =~= self.custom_files.deep_view());
        Config {
            repo_path: self.repo_path.clone(),
            active_profile: self.active_profile.clone(),
            profile_activated: self.profile_activated,
            backup_enabled: self.backup_enabled,
            repo_mode: self.repo_mode,
            custom_files,
        }
    }
}

impl Config {
    /// Whether a repository is set up: the settings name its path.
    pub fn is_repo_configured(&self) -> (r: bool)
        ensures
            r == (self@.repo_path.len() > 0),
    {
        self.repo_path.as_str().unicode_len() > 0
    }

    /// The settings of a fresh installation for the repository at
    /// `repo_path`: no profile chosen, nothing activated, backups enabled,
    /// remote on GitHub.
    pub fn new(repo_path: String) -> (c: Self)
        ensures
            c@ == (ConfigView {
                repo_path: repo_path@,
                active_profile: Seq::empty(),
                profile_activated: false,
                backup_enabled: true,
                repo_mode: RepoMode::GitHub,
                custom_files: Seq::empty(),
            }),
    {
        let c = Config {
            repo_path,
            active_profile: String::new(),
            profile_activated: false,
            backup_enabled: true,
            repo_mode: RepoMode::GitHub,
            custom_files: Vec::new(),
        };
        assert(c@.custom_files =~= Seq::empty());
        c
    }
}

} // verus!
