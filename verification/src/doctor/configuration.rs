//! The checks of the category Configuration: the settings file, the
//! repository path and the active profile.

use vstd::prelude::*;
use crate::config::ConfigView;
use crate::doctor::clock_now;
use crate::doctor::finding;
use crate::doctor::one_detail;
use crate::doctor::when_verbose;
use crate::doctor::Doctor;
use crate::doctor::ResultView;
use crate::doctor::ValidationStatus;
use crate::fsview::FsModel;
use crate::fsview::FsView;
use crate::scan::debug_quoted;
use crate::scan::debug_text;
use crate::strings::join2;
use crate::strings::join3;

verus! {

/// What the settings file gives: a pass where it is on disk, an error
/// where it is not.
pub open spec fn config_file_findings(verbose: bool, config_path: Seq<char>, fs: FsModel) -> Seq<
    ResultView,
> {
    if fs.present(config_path) {
        seq![
            finding(
                "Configuration"@,
                "config_file"@,
                "Configuration file exists"@,
                ValidationStatus::Pass,
                None,
                when_verbose(verbose, seq!["Path: "@ + config_path]),
            ),
        ]
    } else {
        seq![
            finding(
                "Configuration"@,
                "config_file"@,
                "Configuration file missing"@,
                ValidationStatus::Error,
                None,
                Some(seq!["Expected at: "@ + config_path]),
            ),
        ]
    }
}

/// What the repository path gives: a pass where it is on disk, an error
/// that shows it as `shown` where it is not.
pub open spec fn repo_path_state_findings(
    verbose: bool,
    repo_path: Seq<char>,
    on_disk: bool,
    shown: Seq<char>,
) -> Seq<ResultView> {
    if on_disk {
        seq![
            finding(
                "Configuration"@,
                "repo_path"@,
                "Repository path exists"@,
                ValidationStatus::Pass,
                None,
                when_verbose(verbose, seq!["Path: "@ + repo_path]),
            ),
        ]
    } else {
        seq![
            finding(
                "Configuration"@,
                "repo_path"@,
                "Repository path not found: "@ + shown,
                ValidationStatus::Error,
                None,
                None,
            ),
        ]
    }
}

/// What the repository path gives against the disk. Where it is not
/// there, it is shown in quotes.
pub open spec fn repo_path_findings(verbose: bool, repo_path: Seq<char>, fs: FsModel) -> Seq<
    ResultView,
> {
    repo_path_state_findings(verbose, repo_path, fs.present(repo_path), debug_text(repo_path))
}

/// What the active profile gives: a pass where one is chosen, a warning
/// where none is.
pub open spec fn active_profile_findings(active_profile: Seq<char>) -> Seq<ResultView> {
    if active_profile.len() == 0 {
        seq![
            finding(
                "Configuration"@,
                "active_profile"@,
                "No active profile set"@,
                ValidationStatus::Warning,
                None,
                Some(seq!["Run 'dotstate' to select a profile"@]),
            ),
        ]
    } else {
        seq![
            finding(
                "Configuration"@,
                "active_profile"@,
                "Active profile: '"@ + active_profile + "'"@,
                ValidationStatus::Pass,
                None,
                None,
            ),
        ]
    }
}

/// The findings of the category Configuration, in order.
pub open spec fn configuration_findings(
    verbose: bool,
    config: ConfigView,
    config_path: Seq<char>,
    fs: FsModel,
) -> Seq<ResultView> {
    config_file_findings(verbose, config_path, fs) + repo_path_findings(
        verbose,
        config.repo_path,
        fs,
    ) + active_profile_findings(config.active_profile)
}

impl Doctor {
    /// Reports the repository path: whether it is on disk, and, where it
    /// is not, as `shown`.
    pub fn report_repo_path(&mut self, on_disk: bool, shown: &str)
        ensures
            final(self).extends(
                old(self),
                repo_path_state_findings(
                    old(self).options.verbose,
                    old(self).config@.repo_path,
                    on_disk,
                    shown@,
                ),
            ),
    {
        let start = clock_now();
        if on_disk {
            let details = if self.options.verbose {
                one_detail(join2("Path: ", self.config.repo_path.as_str()))
            } else {
                None
            };
            self.add_result(
                "Configuration",
                "repo_path",
                "Repository path exists",
                ValidationStatus::Pass,
                None,
                details,
                start,
            );
        } else {
            self.add_result(
                "Configuration",
                "repo_path",
                join2("Repository path not found: ", shown).as_str(),
                ValidationStatus::Error,
                None,
                None,
                start,
            );
        }
        assert(self.findings() =~= old(self).findings() + repo_path_state_findings(
            old(self).options.verbose,
            old(self).config@.repo_path,
            on_disk,
            shown@,
        ));
    }

    /// Runs the checks of the category Configuration. `config_path` is
    /// where the settings file is kept.
    pub fn check_configuration(&mut self, fs: &FsView, config_path: &str)
        ensures
            final(self).extends(
                old(self),
                configuration_findings(
                    old(self).options.verbose,
                    old(self).config@,
                    config_path@,
                    fs@,
                ),
            ),
    {
        let verbose = self.options.verbose;
        let start = clock_now();
        if fs.is_present(config_path) {
            let details = if verbose {
                one_detail(join2("Path: ", config_path))
            } else {
                None
            };
            self.add_result(
                "Configuration",
                "config_file",
                "Configuration file exists",
                ValidationStatus::Pass,
                None,
                details,
                start,
            );
        } else {
            self.add_result(
                "Configuration",
                "config_file",
                "Configuration file missing",
                ValidationStatus::Error,
                None,
                one_detail(join2("Expected at: ", config_path)),
                start,
            );
        }
        let ghost first = config_file_findings(verbose, config_path@, fs@);
        assert(self.findings() =~= old(self).findings() + first);
        let repo_path = self.config.repo_path.clone();
        let on_disk = fs.is_present(repo_path.as_str());
        let shown = debug_quoted(repo_path.as_str());
        self.report_repo_path(on_disk, shown.as_str());
        let ghost second = repo_path_findings(verbose, self.config@.repo_path, fs@);
        assert(self.findings() =~= old(self).findings() + first + second);
        let start = clock_now();
        let active = self.config.active_profile.clone();
        if active.as_str().unicode_len() == 0 {
            self.add_result(
                "Configuration",
                "active_profile",
                "No active profile set",
                ValidationStatus::Warning,
                None,
                one_detail("Run 'dotstate' to select a profile".to_owned()),
                start,
            );
        } else {
            self.add_result(
                "Configuration",
                "active_profile",
                join3("Active profile: '", active.as_str(), "'").as_str(),
                ValidationStatus::Pass,
                None,
                None,
                start,
            );
        }
        assert(self.findings() =~= old(self).findings() + configuration_findings(
            verbose,
            old(self).config@,
            config_path@,
            fs@,
        ));
    }
}

} // verus!
