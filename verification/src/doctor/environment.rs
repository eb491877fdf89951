//! The checks of the category Environment: version, git, shell and home
//! directory.

use vstd::prelude::*;
use crate::doctor::clock_now;
use crate::doctor::finding;
use crate::doctor::one_detail;
use crate::doctor::two_details;
use crate::doctor::when_verbose;
use crate::doctor::Doctor;
use crate::doctor::ResultView;
use crate::doctor::ValidationStatus;
use crate::fsview::FsModel;
use crate::fsview::FsView;
use crate::scan::trimmed;
use crate::scan::trimmed_text;
use crate::strings::join2;
use crate::version_check::current_version;
use crate::version_check::UpdateCheck;
use crate::version_check::UpdateCheckView;
use crate::version_check::VERSION;

verus! {

/// What the update check gives: a warning for an available update, a pass
/// otherwise, also where the check itself failed.
pub open spec fn version_findings(verbose: bool, update: UpdateCheckView) -> Seq<ResultView> {
    match update {
        UpdateCheckView::Available(info) => seq![
            finding(
                "Environment"@,
                "version"@,
                "Update available: "@ + info.current_version + " → "@ + info.latest_version,
                ValidationStatus::Warning,
                None,
                Some(
                    seq![
                        "Run 'dotstate upgrade' to update"@,
                        "Release notes: "@ + info.release_url,
                    ],
                ),
            ),
        ],
        UpdateCheckView::UpToDate => seq![
            finding(
                "Environment"@,
                "version"@,
                "DotState "@ + VERSION@ + " (latest)"@,
                ValidationStatus::Pass,
                None,
                None,
            ),
        ],
        UpdateCheckView::Failed(reason) => seq![
            finding(
                "Environment"@,
                "version"@,
                "DotState "@ + VERSION@ + " (update check failed)"@,
                ValidationStatus::Pass,
                None,
                when_verbose(verbose, seq!["Error: "@ + reason]),
            ),
        ],
    }
}

/// What git gives by its version, as `git --version` printed it; `None`
/// stands for a git that did not run.
pub open spec fn git_version_findings(version: Option<Seq<char>>) -> Seq<ResultView> {
    match version {
        Some(v) => seq![
            finding(
                "Environment"@,
                "git_version"@,
                "Git installed: "@ + v,
                ValidationStatus::Pass,
                None,
                None,
            ),
        ],
        None => seq![
            finding(
                "Environment"@,
                "git_version"@,
                "Git not found in PATH"@,
                ValidationStatus::Error,
                None,
                Some(seq!["Git is required for DotState to function"@]),
            ),
        ],
    }
}

/// What the output of `git --version` gives: the finding for the version
/// that it holds between its white space.
pub open spec fn git_findings(git_version: Option<Seq<char>>) -> Seq<ResultView> {
    git_version_findings(
        match git_version {
            Some(out) => Some(trimmed_text(out)),
            None => None,
        },
    )
}

/// What the shell gives: a pass that names it, where one is set.
pub open spec fn shell_findings(shell: Option<Seq<char>>) -> Seq<ResultView> {
    match shell {
        Some(name) => seq![
            finding(
                "Environment"@,
                "shell"@,
                "Default shell: "@ + name,
                ValidationStatus::Pass,
                None,
                None,
            ),
        ],
        None => Seq::empty(),
    }
}

/// What the home directory gives, where one is known: a pass where it is
/// on disk, an error where it is not.
pub open spec fn home_findings(home: Option<Seq<char>>, fs: FsModel) -> Seq<ResultView> {
    match home {
        Some(dir) => if fs.present(dir) {
            seq![
                finding(
                    "Environment"@,
                    "home_dir"@,
                    "Home directory: "@ + dir,
                    ValidationStatus::Pass,
                    None,
                    None,
                ),
            ]
        } else {
            seq![
                finding(
                    "Environment"@,
                    "home_dir"@,
                    "Home directory does not exist"@,
                    ValidationStatus::Error,
                    None,
                    None,
                ),
            ]
        },
        None => Seq::empty(),
    }
}

/// The findings of the category Environment, in order.
pub open spec fn environment_findings(
    verbose: bool,
    update: UpdateCheckView,
    git_version: Option<Seq<char>>,
    shell: Option<Seq<char>>,
    home: Option<Seq<char>>,
    fs: FsModel,
) -> Seq<ResultView> {
    version_findings(verbose, update) + git_findings(git_version) + shell_findings(shell)
        + home_findings(home, fs)
}

impl Doctor {
    /// Reports what the update check found.
    pub fn check_version(&mut self, update: &UpdateCheck)
        ensures
            final(self).extends(old(self), version_findings(old(self).options.verbose, update@)),
    {
        let start = clock_now();
        let current = current_version();
        match update {
            UpdateCheck::Available(info) => {
                let mut message = "Update available: ".to_owned();
                message.append(info.current_version.as_str());
                message.append(" → ");
                message.append(info.latest_version.as_str());
                self.add_result(
                    "Environment",
                    "version",
                    message.as_str(),
                    ValidationStatus::Warning,
                    None,
                    two_details(
                        "Run 'dotstate upgrade' to update".to_owned(),
                        join2("Release notes: ", info.release_url.as_str()),
                    ),
                    start,
                );
            },
            UpdateCheck::UpToDate => {
                let mut message = "DotState ".to_owned();
                message.append(current);
                message.append(" (latest)");
                self.add_result(
                    "Environment",
                    "version",
                    message.as_str(),
                    ValidationStatus::Pass,
                    None,
                    None,
                    start,
                );
            },
            UpdateCheck::Failed(reason) => {
                let mut message = "DotState ".to_owned();
                message.append(current);
                message.append(" (update check failed)");
                let details = if self.options.verbose {
                    one_detail(join2("Error: ", reason.as_str()))
                } else {
                    None
                };
                self.add_result(
                    "Environment",
                    "version",
                    message.as_str(),
                    ValidationStatus::Pass,
                    None,
                    details,
                    start,
                );
            },
        }
        assert(self.findings() =~= old(self).findings() + version_findings(
            old(self).options.verbose,
            update@,
        ));
    }

    /// Reports git by its version; `None` stands for a git that did not
    /// run.
    pub fn report_git_version(&mut self, version: Option<&str>)
        ensures
            final(self).extends(
                old(self),
                git_version_findings(
                    match version {
                        Some(v) => Some(v@),
                        None => None,
                    },
                ),
            ),
    {
        let start = clock_now();
        match version {
            Some(v) => {
                self.add_result(
                    "Environment",
                    "git_version",
                    join2("Git installed: ", v).as_str(),
                    ValidationStatus::Pass,
                    None,
                    None,
                    start,
                );
            },
            None => {
                self.add_result(
                    "Environment",
                    "git_version",
                    "Git not found in PATH",
                    ValidationStatus::Error,
                    None,
                    one_detail("Git is required for DotState to function".to_owned()),
                    start,
                );
            },
        }
        assert(self.findings() =~= old(self).findings() + git_version_findings(
            match version {
                Some(v) => Some(v@),
                None => None,
            },
        ));
    }

    /// Reports whether git runs. `git_version` is what `git --version`
    /// printed, or `None` where it did not run with success.
    pub fn check_git_version(&mut self, git_version: &Option<String>)
        ensures
            final(self).extends(old(self), git_findings(git_version.deep_view())),
    {
        match git_version {
            Some(out) => {
                let version = trimmed(out.as_str());
                self.report_git_version(Some(version.as_str()));
            },
            None => {
                self.report_git_version(None);
            },
        }
    }

    /// Reports the shell and the home directory, each where it is known.
    pub fn check_shell_and_home(&mut self, shell: &Option<String>, home: &Option<String>, fs: &FsView)
        ensures
            final(self).extends(
                old(self),
                shell_findings(shell.deep_view()) + home_findings(home.deep_view(), fs@),
            ),
    {
        let start = clock_now();
        match shell {
            Some(name) => {
                self.add_result(
                    "Environment",
                    "shell",
                    join2("Default shell: ", name.as_str()).as_str(),
                    ValidationStatus::Pass,
                    None,
                    None,
                    start,
                );
            },
            None => {},
        }
        assert(self.findings() =~= old(self).findings() + shell_findings(shell.deep_view()));
        let start = clock_now();
        match home {
            Some(dir) => {
                if fs.is_present(dir.as_str()) {
                    self.add_result(
                        "Environment",
                        "home_dir",
                        join2("Home directory: ", dir.as_str()).as_str(),
                        ValidationStatus::Pass,
                        None,
                        None,
                        start,
                    );
                } else {
                    self.add_result(
                        "Environment",
                        "home_dir",
                        "Home directory does not exist",
                        ValidationStatus::Error,
                        None,
                        None,
                        start,
                    );
                }
            },
            None => {},
        }
        assert(self.findings() =~= old(self).findings() + (shell_findings(shell.deep_view())
            + home_findings(home.deep_view(), fs@)));
    }

    /// Runs the checks of the category Environment.
    pub fn check_environment(
        &mut self,
        update: &UpdateCheck,
        git_version: &Option<String>,
        shell: &Option<String>,
        home: &Option<String>,
        fs: &FsView,
    )
        ensures
            final(self).extends(
                old(self),
                environment_findings(
                    old(self).options.verbose,
                    update@,
                    git_version.deep_view(),
                    shell.deep_view(),
                    home.deep_view(),
                    fs@,
                ),
            ),
    {
        self.check_version(update);
        self.check_git_version(git_version);
        self.check_shell_and_home(shell, home, fs);
        assert(self.findings() =~= old(self).findings() + environment_findings(
            old(self).options.verbose,
            update@,
            git_version.deep_view(),
            shell.deep_view(),
            home.deep_view(),
            fs@,
        ));
    }
}

} // verus!
