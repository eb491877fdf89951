//! The checks of the category Backups.

use vstd::prelude::*;
use crate::doctor::clock_now;
use crate::doctor::finding;
use crate::doctor::one_detail;
use crate::doctor::size_text;
use crate::doctor::two_details;
use crate::doctor::when_verbose;
use crate::doctor::Doctor;
use crate::doctor::ResultView;
use crate::doctor::ValidationStatus;
use crate::strings::join2;
use crate::strings::join3;
use crate::strings::decimal;
use crate::strings::decimal_digits;

verus! {

/// What was seen of the backup directory.
#[derive(Debug)]
pub struct BackupStats {
    /// Where the backups are kept.
    pub dir: String,
    /// Whether that directory is on disk.
    pub exists: bool,
    /// How many sessions it holds: the directories directly in it.
    pub session_count: usize,
    /// The bytes of all files in those sessions.
    pub total_size: u64,
}

/// The mathematical value of a `BackupStats`.
pub struct BackupStatsView {
    pub dir: Seq<char>,
    pub exists: bool,
    pub session_count: nat,
    pub total_size: nat,
}

impl View for BackupStats {
    type V = BackupStatsView;

    open spec fn view(&self) -> BackupStatsView {
        BackupStatsView {
            dir: self.dir@,
            exists: self.exists,
            session_count: self.session_count as nat,
            total_size: self.total_size as nat,
        }
    }
}

/// From how many bytes on the backups count as large: 100 MB.
pub open spec fn large_backup() -> nat {
    100 * 1024 * 1024
}

/// What the setting gives: a pass where backups are enabled, a warning
/// where they are not.
pub open spec fn backup_setting_findings(backup_enabled: bool) -> Seq<ResultView> {
    if backup_enabled {
        seq![
            finding(
                "Backups"@,
                "backup_enabled"@,
                "Backups are enabled"@,
                ValidationStatus::Pass,
                None,
                None,
            ),
        ]
    } else {
        seq![
            finding(
                "Backups"@,
                "backup_enabled"@,
                "Backups are disabled in settings"@,
                ValidationStatus::Warning,
                None,
                Some(seq!["Enable backups in settings to protect your files"@]),
            ),
        ]
    }
}

/// What the backup directory gives: a pass in any case, and a warning
/// after it where the backups are large.
pub open spec fn backup_dir_findings(verbose: bool, backup_enabled: bool, stats: BackupStatsView) -> Seq<
    ResultView,
> {
    if !stats.exists {
        seq![
            finding(
                "Backups"@,
                "backup_dir"@,
                if backup_enabled {
                    "No backup directory yet (will be created on first backup)"@
                } else {
                    "No backup directory (backups are disabled)"@
                },
                ValidationStatus::Pass,
                None,
                when_verbose(verbose, seq!["Expected at: "@ + stats.dir]),
            ),
        ]
    } else if stats.session_count > 0 {
        let sessions = finding(
            "Backups"@,
            "backup_files"@,
            decimal_digits(stats.session_count) + " backup session(s) ("@ + size_text(
                stats.total_size,
            ) + " total)"@,
            ValidationStatus::Pass,
            None,
            when_verbose(verbose, seq!["Location: "@ + stats.dir]),
        );
        if stats.total_size > large_backup() {
            seq![
                sessions,
                finding(
                    "Backups"@,
                    "backup_size"@,
                    "Backup directory is large ("@ + size_text(stats.total_size) + ")"@,
                    ValidationStatus::Warning,
                    None,
                    Some(
                        seq![
                            "Consider cleaning old backups to save space"@,
                            "Location: "@ + stats.dir,
                        ],
                    ),
                ),
            ]
        } else {
            seq![sessions]
        }
    } else {
        seq![
            finding(
                "Backups"@,
                "backup_files"@,
                "Backup directory exists but is empty"@,
                ValidationStatus::Pass,
                None,
                when_verbose(verbose, seq!["Location: "@ + stats.dir]),
            ),
        ]
    }
}

/// The findings of the category Backups, in order.
pub open spec fn backups_findings(verbose: bool, backup_enabled: bool, stats: BackupStatsView) -> Seq<
    ResultView,
> {
    backup_setting_findings(backup_enabled) + backup_dir_findings(verbose, backup_enabled, stats)
}

impl Doctor {
    /// Runs the checks of the category Backups.
    pub fn check_backups(&mut self, stats: &BackupStats)
        ensures
            final(self).extends(
                old(self),
                backups_findings(
                    old(self).options.verbose,
                    old(self).config.backup_enabled,
                    stats@,
                ),
            ),
    {
        let verbose = self.options.verbose;
        let enabled = self.config.backup_enabled;
        let start = clock_now();
        if enabled {
            self.add_result(
                "Backups",
                "backup_enabled",
                "Backups are enabled",
                ValidationStatus::Pass,
                None,
                None,
                start,
            );
        } else {
            self.add_result(
                "Backups",
                "backup_enabled",
                "Backups are disabled in settings",
                ValidationStatus::Warning,
                None,
                one_detail("Enable backups in settings to protect your files".to_owned()),
                start,
            );
        }
        assert(self.findings() =~= old(self).findings() + backup_setting_findings(enabled));
        let start = clock_now();
        if !stats.exists {
            let message = if enabled {
                "No backup directory yet (will be created on first backup)"
            } else {
                "No backup directory (backups are disabled)"
            };
            let details = if verbose {
                one_detail(join2("Expected at: ", stats.dir.as_str()))
            } else {
                None
            };
            self.add_result(
                "Backups",
                "backup_dir",
                message,
                ValidationStatus::Pass,
                None,
                details,
                start,
            );
        } else if stats.session_count > 0 {
            let size_str = Doctor::format_size(stats.total_size);
            let mut message = decimal(stats.session_count as u64);
            message.append(" backup session(s) (");
            message.append(size_str.as_str());
            message.append(" total)");
            let details = if verbose {
                one_detail(join2("Location: ", stats.dir.as_str()))
            } else {
                None
            };
            self.add_result(
                "Backups",
                "backup_files",
                message.as_str(),
                ValidationStatus::Pass,
                None,
                details,
                start,
            );
            if stats.total_size > 100 * 1024 * 1024 {
                let start = clock_now();
                self.add_result(
                    "Backups",
                    "backup_size",
                    join3("Backup directory is large (", size_str.as_str(), ")").as_str(),
                    ValidationStatus::Warning,
                    None,
                    two_details(
                        "Consider cleaning old backups to save space".to_owned(),
                        join2("Location: ", stats.dir.as_str()),
                    ),
                    start,
                );
            }
        } else {
            let details = if verbose {
                one_detail(join2("Location: ", stats.dir.as_str()))
            } else {
                None
            };
            self.add_result(
                "Backups",
                "backup_files",
                "Backup directory exists but is empty",
                ValidationStatus::Pass,
                None,
                details,
                start,
            );
        }
        assert(self.findings() =~= old(self).findings() + backups_findings(verbose, enabled, stats@));
    }
}

} // verus!
