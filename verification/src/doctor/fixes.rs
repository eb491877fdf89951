//! The repairs, and the run as a whole.
//!
//! The audit comes first and changes nothing. In fix mode each finding
//! that is no pass and names a repair then has that repair applied, in the
//! order of the findings. A repair changes the settings and what was
//! observed; writing the changes to disk is left to the caller, and so is
//! a second run to see whether they settled the matter.

use vstd::prelude::*;
use crate::config::ConfigView;
use crate::doctor::backups::backups_findings;
use crate::doctor::backups::BackupStats;
use crate::doctor::configuration::configuration_findings;
use crate::doctor::environment::environment_findings;
use crate::doctor::filesystem::filesystem_findings;
use crate::doctor::filesystem::write_option_view;
use crate::doctor::filesystem::write_view;
use crate::doctor::needs_fix;
use crate::doctor::profiles::loaded_view;
use crate::doctor::profiles::profiles_findings;
use crate::doctor::repository::repository_findings;
use crate::doctor::symlinks::symlinks_findings;
use crate::doctor::Doctor;
use crate::doctor::DoctorReport;
use crate::doctor::ResultView;
use crate::fsview::FsModel;
use crate::fsview::FsView;
use crate::ledger::with_target_present;
use crate::ledger::LedgerView;
use crate::ledger::TrackingLedger;
use crate::manifest::backfilled;
use crate::manifest::profile_names;
use crate::manifest::ManifestError;
use crate::manifest::ManifestView;
use crate::manifest::ProfileDir;
use crate::manifest::ProfileDirView;
use crate::manifest::ProfileManifest;
use crate::paths::joined;
use crate::strings::first_index;
use crate::strings::lemma_filter_next;
use crate::strings::lemma_first_index;
use crate::strings::str_eq;
use crate::symlink_manager::activated;
use crate::symlink_manager::Settings;
use crate::symlink_manager::SymlinkManager;
use crate::symlink_manager::World;
use crate::version_check::UpdateCheck;

verus! {

/// What was observed of the machine for one run.
pub struct Observations {
    /// What the update check found.
    pub update: UpdateCheck,
    /// What `git --version` printed, where it ran with success.
    pub git_version: Option<String>,
    /// The user's shell, where one is set.
    pub shell: Option<String>,
    /// The home directory, where it is known.
    pub home_dir: Option<String>,
    /// Where the settings file is kept.
    pub config_path: String,
    /// Whether the repository path holds a git repository.
    pub is_git_repo: bool,
    /// What `git remote -v` printed, where it ran with success.
    pub git_remote: Option<String>,
    /// What `git status --porcelain` printed, where it ran.
    pub git_status: Option<String>,
    /// What `git branch --show-current` printed, where it ran.
    pub git_branch: Option<String>,
    /// What `git rev-list --left-right --count` printed for the branch and
    /// its remote, where it ran.
    pub git_counts: Option<String>,
    /// The manifest, or why it could not be loaded.
    pub manifest: Result<ProfileManifest, ManifestError>,
    /// The directories at the top of the repository with their files, from
    /// which a missing manifest is rebuilt.
    pub profile_dirs: Vec<ProfileDir>,
    /// The ledger.
    pub tracking: TrackingLedger,
    /// What stands at the paths that settings, manifest and ledger speak
    /// of.
    pub fs: FsView,
    /// What was seen of the backup directory.
    pub backups: BackupStats,
    /// How a write test in the repository ended.
    pub repo_write: Result<(), String>,
    /// How a write test in the home directory ended, where it was made.
    pub home_write: Option<Result<(), String>>,
    /// What `df -h` printed for the repository, where it ran.
    pub disk_usage: Option<String>,
    /// The name under which a repair would keep backups.
    pub session: String,
    /// The moment of the run, as the report is to show it.
    pub timestamp: String,
}

/// What the repairs read and change.
pub struct Case {
    pub ledger: LedgerView,
    pub fs: FsModel,
    pub manifest: Result<ManifestView, ManifestError>,
    pub profile_dirs: Seq<ProfileDirView>,
    pub home_dir: Option<Seq<char>>,
    pub session: Seq<char>,
}

impl Observations {
    /// The part of the observations that the repairs read and change.
    pub open spec fn case(&self) -> Case {
        Case {
            ledger: self.tracking@,
            fs: self.fs@,
            manifest: loaded_view(self.manifest),
            profile_dirs: self.profile_dirs.deep_view(),
            home_dir: self.home_dir.deep_view(),
            session: self.session@,
        }
    }

    /// Whether `self` differs from `before` at most in what the repairs
    /// change: ledger, file system and manifest.
    pub open spec fn same_but_case(&self, before: &Observations) -> bool {
        &&& self.update == before.update
        &&& self.git_version == before.git_version
        &&& self.shell == before.shell
        &&& self.home_dir == before.home_dir
        &&& self.config_path == before.config_path
        &&& self.is_git_repo == before.is_git_repo
        &&& self.git_remote == before.git_remote
        &&& self.git_status == before.git_status
        &&& self.git_branch == before.git_branch
        &&& self.git_counts == before.git_counts
        &&& self.profile_dirs == before.profile_dirs
        &&& self.backups == before.backups
        &&& self.repo_write == before.repo_write
        &&& self.home_write == before.home_write
        &&& self.disk_usage == before.disk_usage
        &&& self.session == before.session
        &&& self.timestamp == before.timestamp
    }
}

/// The findings of a full audit: the categories Environment,
/// Configuration, Repository, Profiles, Symlinks, Backups and Filesystem,
/// in this order. Every check runs, whatever the ones before it found.
pub open spec fn audit_findings(verbose: bool, config: ConfigView, obs: &Observations) -> Seq<
    ResultView,
> {
    environment_findings(
        verbose,
        obs.update@,
        obs.git_version.deep_view(),
        obs.shell.deep_view(),
        obs.home_dir.deep_view(),
        obs.fs@,
    ) + configuration_findings(verbose, config, obs.config_path@, obs.fs@) + repository_findings(
        verbose,
        obs.is_git_repo,
        obs.git_remote.deep_view(),
        obs.git_status.deep_view(),
        obs.git_branch.deep_view(),
        obs.git_counts.deep_view(),
    ) + profiles_findings(verbose, config, loaded_view(obs.manifest), obs.fs@) + symlinks_findings(
        verbose,
        config,
        obs.tracking@.active_profile,
        obs.tracking@.symlinks,
        loaded_view(obs.manifest),
        obs.fs@,
    ) + backups_findings(verbose, config.backup_enabled, obs.backups@) + filesystem_findings(
        write_view(obs.repo_write),
        write_option_view(obs.home_write),
        obs.disk_usage.deep_view(),
    )
}

/// A repair.
#[derive(Debug, Clone, Copy, PartialEq, Eq, Structural)]
pub enum FixAction {
    /// Bring the settings in line with the ledger.
    SyncActivationState,
    /// Drop the ledger's records whose target is gone from disk.
    CleanUpMissingSymlinks,
    /// Activate the active profile and the common files again.
    ReactivateProfile,
    /// Build the manifest anew from the repository's directories.
    RebuildManifest,
}

/// The repair that a label names, if it names one.
pub open spec fn fix_for(label: Seq<char>) -> Option<FixAction> {
    if label == "Sync activation state"@ {
        Some(FixAction::SyncActivationState)
    } else if label == "Clean up missing symlinks"@ {
        Some(FixAction::CleanUpMissingSymlinks)
    } else if label == "Re-activate profile"@ {
        Some(FixAction::ReactivateProfile)
    } else if label == "Rebuild manifest"@ {
        Some(FixAction::RebuildManifest)
    } else {
        None
    }
}

impl FixAction {
    /// The repair that `label` names, if it names one.
    pub fn from_label(label: &str) -> (r: Option<FixAction>)
        ensures
            r == fix_for(label@),
    {
        if str_eq(label, "Sync activation state") {
            Some(FixAction::SyncActivationState)
        } else if str_eq(label, "Clean up missing symlinks") {
            Some(FixAction::CleanUpMissingSymlinks)
        } else if str_eq(label, "Re-activate profile") {
            Some(FixAction::ReactivateProfile)
        } else if str_eq(label, "Rebuild manifest") {
            Some(FixAction::RebuildManifest)
        } else {
            None
        }
    }
}

/// The settings under which the doctor activates again: links go to
/// `home`, and what stands in a link's way is never moved aside.
pub open spec fn repair_settings(config: ConfigView, home: Seq<char>) -> Settings {
    Settings {
        repo_path: config.repo_path,
        home_dir: home,
        backup_root: joined(home, ".dotstate-backups"@),
        backup_enabled: false,
    }
}

/// The case after the active profile was activated again, and whether
/// that was done: not where no profile is chosen, the home directory is
/// unknown, or the manifest is missing or does not have the profile.
pub open spec fn reactivated(config: ConfigView, c: Case) -> (Case, bool) {
    if config.active_profile.len() == 0 {
        (c, false)
    } else {
        match (c.manifest, c.home_dir) {
            (Ok(m), Some(home)) => if profile_names(m.profiles).contains(config.active_profile) {
                let files = m.profiles[first_index(
                    profile_names(m.profiles),
                    config.active_profile,
                )].synced_files;
                let w = activated(
                    repair_settings(config, home),
                    c.session,
                    World { fs: c.fs, symlinks: c.ledger.symlinks },
                    config.active_profile,
                    files,
                    m.common,
                );
                (
                    Case {
                        ledger: LedgerView {
                            active_profile: config.active_profile,
                            symlinks: w.symlinks,
                        },
                        fs: w.fs,
                        manifest: c.manifest,
                        profile_dirs: c.profile_dirs,
                        home_dir: c.home_dir,
                        session: c.session,
                    },
                    true,
                )
            } else {
                (c, false)
            },
            _ => (c, false),
        }
    }
}

/// The case after the manifest was rebuilt, and whether that was done: a
/// manifest that was loaded stands, a missing one is built from the
/// directories, and a corrupt one is left as it is.
pub open spec fn rebuilt(c: Case) -> (Case, bool) {
    match c.manifest {
        Ok(_) => (c, true),
        Err(ManifestError::NotFound) => (
            Case {
                ledger: c.ledger,
                fs: c.fs,
                manifest: Ok(backfilled(c.profile_dirs)),
                profile_dirs: c.profile_dirs,
                home_dir: c.home_dir,
                session: c.session,
            },
            true,
        ),
        Err(_) => (c, false),
    }
}

/// The settings brought in line with the ledger, which records what was
/// done: with no active profile in the ledger they say "not activated";
/// with one they say "activated" and name that profile.
pub open spec fn synced_config(config: ConfigView, ledger_profile: Seq<char>) -> ConfigView {
    ConfigView {
        repo_path: config.repo_path,
        active_profile: if ledger_profile.len() == 0 {
            config.active_profile
        } else {
            ledger_profile
        },
        profile_activated: ledger_profile.len() != 0,
        backup_enabled: config.backup_enabled,
        repo_mode: config.repo_mode,
        custom_files: config.custom_files,
    }
}

/// Settings and case after the repair that `label` names, and whether it
/// was applied. A label that names no repair changes nothing.
pub open spec fn after_fix(config: ConfigView, c: Case, label: Seq<char>) -> (
    ConfigView,
    Case,
    bool,
) {
    match fix_for(label) {
        Some(FixAction::SyncActivationState) => (synced_config(config, c.ledger.active_profile), c, true),
        Some(FixAction::CleanUpMissingSymlinks) => (
            config,
            Case {
                ledger: LedgerView {
                    active_profile: c.ledger.active_profile,
                    symlinks: with_target_present(c.ledger.symlinks, c.fs),
                },
                fs: c.fs,
                manifest: c.manifest,
                profile_dirs: c.profile_dirs,
                home_dir: c.home_dir,
                session: c.session,
            },
            true,
        ),
        Some(FixAction::ReactivateProfile) => (
            config,
            reactivated(config, c).0,
            reactivated(config, c).1,
        ),
        Some(FixAction::RebuildManifest) => (config, rebuilt(c).0, rebuilt(c).1),
        None => (config, c, false),
    }
}

/// The labels of the repairs to apply: those of the findings that are no
/// pass and name one, in the order of the findings.
pub open spec fn pending_fixes(results: Seq<ResultView>) -> Seq<Seq<char>> {
    results.filter(|r: ResultView| needs_fix(r) && r.fix_action is Some).map_values(
        |r: ResultView| r.fix_action->0,
    )
}

/// Settings and case after the repairs `labels` were applied, first to
/// last.
pub open spec fn after_fixes(config: ConfigView, c: Case, labels: Seq<Seq<char>>) -> (
    ConfigView,
    Case,
)
    decreases labels.len(),
{
    if labels.len() == 0 {
        (config, c)
    } else {
        let before = after_fixes(config, c, labels.drop_last());
        let step = after_fix(before.0, before.1, labels.last());
        (step.0, step.1)
    }
}

/// How each of the repairs `labels` ended, in their order.
pub open spec fn fix_reports(config: ConfigView, c: Case, labels: Seq<Seq<char>>) -> Seq<
    FixReportView,
>
    decreases labels.len(),
{
    if labels.len() == 0 {
        Seq::empty()
    } else {
        let before = after_fixes(config, c, labels.drop_last());
        fix_reports(config, c, labels.drop_last()).push(
            FixReportView {
                action: labels.last(),
                success: after_fix(before.0, before.1, labels.last()).2,
            },
        )
    }
}

/// How one repair ended.
#[derive(Debug)]
pub struct FixReport {
    /// The label of the repair.
    pub action: String,
    /// Whether it was applied.
    pub success: bool,
}

/// The mathematical value of a `FixReport`.
pub struct FixReportView {
    pub action: Seq<char>,
    pub success: bool,
}

impl View for FixReport {
    type V = FixReportView;

    open spec fn view(&self) -> FixReportView {
        FixReportView { action: self.action@, success: self.success }
    }
}

impl DeepView for FixReport {
    type V = FixReportView;

    open spec fn deep_view(&self) -> FixReportView {
        self@
    }
}

/// The seven sequences of a run joined one after the other are the first
/// followed by the rest.
proof fn lemma_joined_run(
    start: Seq<ResultView>,
    a: Seq<ResultView>,
    b: Seq<ResultView>,
    c: Seq<ResultView>,
    d: Seq<ResultView>,
    e: Seq<ResultView>,
    f: Seq<ResultView>,
    g: Seq<ResultView>,
)
    ensures
        start + a + b + c + d + e + f + g == start + (a + b + c + d + e + f + g),
{
    assert(start + a + b + c + d + e + f + g =~= start + (a + b + c + d + e + f + g));
}

impl Doctor {
    fn reactivate(&mut self, obs: &mut Observations) -> (done: bool)
        ensures
            (final(obs).case(), done) == reactivated(old(self).config@, old(obs).case()),
            final(obs).same_but_case(old(obs)),
            final(self).extends(old(self), Seq::empty()),
    {
        assert(self.findings() + Seq::<ResultView>::empty() =~= self.findings());
        if self.config.active_profile.as_str().unicode_len() == 0 {
            return false;
        }
        let home = match &obs.home_dir {
            Some(home) => home.clone(),
            None => {
                return false;
            },
        };
        let (files, common) = match &obs.manifest {
            Ok(manifest) => match manifest.find_profile(self.config.active_profile.as_str()) {
                Some(i) => {
                    proof {
                        lemma_first_index(
                            profile_names(manifest@.profiles),
                            self.config.active_profile@,
                            i as int,
                        );
                    }
                    let files = manifest.profiles[i].synced_files.clone();
                    let common = manifest.common.synced_files.clone();
                    assert(files.deep_view() =~= manifest@.profiles[i as int].synced_files);
                    assert(common.deep_view() =~= manifest@.common);
                    (files, common)
                },
                None => {
                    return false;
                },
            },
            Err(_) => {
                return false;
            },
        };
        let mut manager = SymlinkManager::new_with_backup(
            self.config.repo_path.clone(),
            home,
            obs.tracking.clone(),
            false,
        );
        manager.activate(
            &mut obs.fs,
            self.config.active_profile.as_str(),
            &files,
            &common,
            obs.session.as_str(),
        );
        obs.tracking = manager.tracking;
        true
    }

    fn rebuild_manifest(obs: &mut Observations) -> (done: bool)
        ensures
            (final(obs).case(), done) == rebuilt(old(obs).case()),
            final(obs).same_but_case(old(obs)),
    {
        match &obs.manifest {
            Ok(_) => true,
            Err(ManifestError::NotFound) => {
                obs.manifest = Ok(ProfileManifest::backfill(&obs.profile_dirs));
                true
            },
            Err(_) => false,
        }
    }

    /// Applies the repair that `action` names to the settings and to what
    /// was observed, and says whether it was applied.
    pub fn apply_single_fix(&mut self, action: &str, obs: &mut Observations) -> (done: bool)
        ensures
            (final(self).config@, final(obs).case(), done) == after_fix(
                old(self).config@,
                old(obs).case(),
                action@,
            ),
            final(obs).same_but_case(old(obs)),
            final(self).findings() == old(self).findings(),
            final(self).options == old(self).options,
    {
        match FixAction::from_label(action) {
            Some(FixAction::SyncActivationState) => {
                if obs.tracking.active_profile.as_str().unicode_len() == 0 {
                    self.config.profile_activated = false;
                } else {
                    self.config.profile_activated = true;
                    self.config.active_profile = obs.tracking.active_profile.clone();
                }
                true
            },
            Some(FixAction::CleanUpMissingSymlinks) => {
                obs.tracking.prune_missing(&obs.fs);
                true
            },
            Some(FixAction::ReactivateProfile) => {
                let done = self.reactivate(obs);
                assert(self.findings() =~= old(self).findings());
                done
            },
            Some(FixAction::RebuildManifest) => Doctor::rebuild_manifest(obs),
            None => false,
        }
    }

    /// The labels of the repairs to apply.
    pub fn fixes_to_apply(&self) -> (labels: Vec<String>)
        ensures
            labels.deep_view() == pending_fixes(self.findings()),
    {
        let mut labels: Vec<String> = Vec::new();
        let ghost all = self.findings();
        let ghost due = |r: ResultView| needs_fix(r) && r.fix_action is Some;
        let ghost label_of = |r: ResultView| r.fix_action->0;
        let mut i: usize = 0;
        assert(all.take(0) =~= Seq::<ResultView>::empty());
        assert(labels.deep_view() =~= all.take(0).filter(due).map_values(label_of));
        while i < self.results.len()
            invariant
                i <= self.results.len(),
                all == self.findings(),
                due == |r: ResultView| needs_fix(r) && r.fix_action is Some,
                label_of == |r: ResultView| r.fix_action->0,
                labels.deep_view() == all.take(i as int).filter(due).map_values(label_of),
            decreases self.results.len() - i,
        {
            proof {
                lemma_filter_next(all, due, i as int);
            }
            let ghost before = labels.deep_view();
            let r = &self.results[i];
            if r.fixable && r.status != crate::doctor::ValidationStatus::Pass {
                match &r.fix_action {
                    Some(label) => {
                        labels.push(label.clone());
                        assert(labels.deep_view() =~= before.push(label@));
                        assert(all.take(i as int).filter(due).push(all[i as int]).map_values(
                            label_of,
                        ) =~= before.push(label@));
                    },
                    None => {},
                }
            }
            i += 1;
        }
        assert(all.take(self.results.len() as int) =~= all);
        labels
    }

    /// Applies the repair of every finding that is no pass and names one,
    /// in the order of the findings, and reports how each ended.
    pub fn apply_fixes(&mut self, obs: &mut Observations) -> (reports: Vec<FixReport>)
        ensures
            (final(self).config@, final(obs).case()) == after_fixes(
                old(self).config@,
                old(obs).case(),
                pending_fixes(old(self).findings()),
            ),
            final(obs).same_but_case(old(obs)),
            final(self).findings() == old(self).findings(),
            final(self).options == old(self).options,
            reports.deep_view() == fix_reports(
                old(self).config@,
                old(obs).case(),
                pending_fixes(old(self).findings()),
            ),
    {
        let labels = self.fixes_to_apply();
        let ghost all = labels.deep_view();
        let ghost config0 = self.config@;
        let ghost case0 = obs.case();
        let mut reports: Vec<FixReport> = Vec::new();
        let mut i: usize = 0;
        assert(all.take(0) =~= Seq::<Seq<char>>::empty());
        assert(reports.deep_view() =~= fix_reports(config0, case0, all.take(0)));
        while i < labels.len()
            invariant
                i <= labels.len(),
                all == labels.deep_view(),
                all == pending_fixes(old(self).findings()),
                (self.config@, obs.case()) == after_fixes(config0, case0, all.take(i as int)),
                obs.same_but_case(old(obs)),
                self.findings() == old(self).findings(),
                self.options == old(self).options,
                reports.deep_view() == fix_reports(config0, case0, all.take(i as int)),
            decreases labels.len() - i,
        {
            assert(all.take(i + 1).drop_last() =~= all.take(i as int));
            assert(all.take(i + 1).last() == all[i as int]);
            let ghost before = reports.deep_view();
            let done = self.apply_single_fix(labels[i].as_str(), obs);
            let report = FixReport { action: labels[i].clone(), success: done };
            reports.push(report);
            assert(reports.deep_view() =~= before.push(report@));
            i += 1;
        }
        assert(all.take(labels.len() as int) =~= all);
        reports
    }

    /// Runs every check on what was observed, category by category.
    pub fn run_checks(&mut self, obs: &Observations)
        ensures
            final(self).extends(
                old(self),
                audit_findings(old(self).options.verbose, old(self).config@, obs),
            ),
    {
        let ghost verbose = self.options.verbose;
        let ghost config = self.config@;
        let ghost start = self.findings();
        self.check_environment(&obs.update, &obs.git_version, &obs.shell, &obs.home_dir, &obs.fs);
        let ghost a = environment_findings(
            verbose,
            obs.update@,
            obs.git_version.deep_view(),
            obs.shell.deep_view(),
            obs.home_dir.deep_view(),
            obs.fs@,
        );
        self.check_configuration(&obs.fs, obs.config_path.as_str());
        let ghost b = configuration_findings(verbose, config, obs.config_path@, obs.fs@);
        self.check_repository(
            obs.is_git_repo,
            &obs.git_remote,
            &obs.git_status,
            &obs.git_branch,
            &obs.git_counts,
        );
        let ghost c = repository_findings(
            verbose,
            obs.is_git_repo,
            obs.git_remote.deep_view(),
            obs.git_status.deep_view(),
            obs.git_branch.deep_view(),
            obs.git_counts.deep_view(),
        );
        self.check_profiles(&obs.manifest, &obs.fs);
        let ghost d = profiles_findings(verbose, config, loaded_view(obs.manifest), obs.fs@);
        self.check_symlinks(&obs.tracking, &obs.manifest, &obs.fs);
        let ghost e = symlinks_findings(
            verbose,
            config,
            obs.tracking@.active_profile,
            obs.tracking@.symlinks,
            loaded_view(obs.manifest),
            obs.fs@,
        );
        self.check_backups(&obs.backups);
        let ghost f = backups_findings(verbose, config.backup_enabled, obs.backups@);
        self.check_filesystem(&obs.repo_write, &obs.home_write, &obs.disk_usage);
        let ghost g = filesystem_findings(
            write_view(obs.repo_write),
            write_option_view(obs.home_write),
            obs.disk_usage.deep_view(),
        );
        proof {
            lemma_joined_run(start, a, b, c, d, e, f, g);
        }
    }

    /// Runs the full audit, then, in fix mode, the repairs, and reports.
    /// The report holds the findings of the audit; what the repairs
    /// changed shows in the settings and in `obs`.
    pub fn run_diagnostics(&mut self, obs: &mut Observations) -> (report: DoctorReport)
        ensures
            final(self).findings() == old(self).findings() + audit_findings(
                old(self).options.verbose,
                old(self).config@,
                old(obs),
            ),
            final(self).options == old(self).options,
            report.results.deep_view() == final(self).findings(),
            report.version@ == crate::version_check::VERSION@,
            report.timestamp@ == old(obs).timestamp@,
            report.summary.total_checks == final(self).findings().len(),
            report.summary.passed == crate::doctor::count_status(
                final(self).findings(),
                crate::doctor::ValidationStatus::Pass,
            ),
            report.summary.warnings == crate::doctor::count_status(
                final(self).findings(),
                crate::doctor::ValidationStatus::Warning,
            ),
            report.summary.errors == crate::doctor::count_status(
                final(self).findings(),
                crate::doctor::ValidationStatus::Error,
            ),
            report.summary.fixable == crate::doctor::count_fixable(final(self).findings()),
            report.summary.fixed == if old(self).options.fix_mode {
                report.summary.fixable
            } else {
                0
            },
            final(obs).same_but_case(old(obs)),
            (final(self).config@, final(obs).case()) == if old(self).options.fix_mode {
                after_fixes(
                    old(self).config@,
                    old(obs).case(),
                    pending_fixes(final(self).findings()),
                )
            } else {
                (old(self).config@, old(obs).case())
            },
    {
        self.run_checks(obs);
        if self.options.fix_mode {
            self.apply_fixes(obs);
        }
        self.report(obs.timestamp.as_str())
    }
}

} // verus!
