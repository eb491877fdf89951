use dotstate::config::Config;
use dotstate::config::RepoMode;
use dotstate::doctor::backups::BackupStats;
use dotstate::doctor::filesystem::read_disk_usage;
use dotstate::doctor::fixes::FixAction;
use dotstate::doctor::fixes::Observations;
use dotstate::doctor::millis_as_u64;
use dotstate::doctor::report_failed;
use dotstate::doctor::repository::read_origin_url;
use dotstate::doctor::repository::read_upstream;
use dotstate::doctor::repository::second_of;
use dotstate::doctor::repository::Upstream;
use dotstate::doctor::symlinks::covers_file;
use dotstate::doctor::symlinks::files_to_link;
use dotstate::doctor::Doctor;
use dotstate::doctor::DoctorOptions;
use dotstate::doctor::ValidationResult;
use dotstate::doctor::ValidationStatus;
use dotstate::fsview::FsView;
use dotstate::fsview::Node;
use dotstate::ledger::SymlinkRecord;
use dotstate::ledger::SymlinkScope;
use dotstate::ledger::TrackingLedger;
use dotstate::manifest::ManifestError;
use dotstate::manifest::ProfileDir;
use dotstate::manifest::ProfileManifest;
use dotstate::version_check::update_check;
use dotstate::version_check::UpdateCheck;
use std::time::Instant;

fn strings(items: &[&str]) -> Vec<String> {
    items.iter().map(|s| s.to_string()).collect()
}

fn options(fix_mode: bool, verbose: bool) -> DoctorOptions {
    DoctorOptions { fix_mode, verbose, json_output: true }
}

fn config() -> Config {
    let mut config = Config::new("/repo".to_string());
    config.active_profile = "work".to_string();
    config.profile_activated = true;
    config
}

fn manifest() -> ProfileManifest {
    let mut manifest = ProfileManifest::new();
    manifest.add_profile("work".to_string(), None).unwrap();
    manifest.update_synced_files("work", strings(&[".zshrc"])).unwrap();
    manifest.common.synced_files = strings(&[".gitignore"]);
    manifest
}

fn healthy() -> Observations {
    let mut fs = FsView::new();
    fs.observe("/home/u", Node::Directory(Vec::new()));
    fs.observe("/home/u/.config/dotstate/config.toml", Node::File(Vec::new()));
    fs.observe("/repo", Node::Directory(strings(&["work", "common"])));
    fs.observe("/repo/work/.zshrc", Node::File(b"zsh".to_vec()));
    fs.observe("/repo/common/.gitignore", Node::File(b"ignore".to_vec()));
    fs.observe("/home/u/.zshrc", Node::Symlink("/repo/work/.zshrc".to_string()));
    fs.observe("/home/u/.gitignore", Node::Symlink("/repo/common/.gitignore".to_string()));
    let mut tracking = TrackingLedger::new();
    tracking.active_profile = "work".to_string();
    tracking.record(SymlinkRecord {
        source: "/repo/work/.zshrc".to_string(),
        target: "/home/u/.zshrc".to_string(),
        scope: SymlinkScope::Profile("work".to_string()),
    });
    tracking.record(SymlinkRecord {
        source: "/repo/common/.gitignore".to_string(),
        target: "/home/u/.gitignore".to_string(),
        scope: SymlinkScope::Common,
    });
    Observations {
        update: UpdateCheck::UpToDate,
        git_version: Some("git version 2.43.0\n".to_string()),
        shell: Some("/bin/zsh".to_string()),
        home_dir: Some("/home/u".to_string()),
        config_path: "/home/u/.config/dotstate/config.toml".to_string(),
        is_git_repo: true,
        git_remote: Some(
            "origin\thttps://ghp_x@github.com/me/dot.git (fetch)\norigin\thttps://ghp_x@github.com/me/dot.git (push)\n"
                .to_string(),
        ),
        git_status: Some(String::new()),
        git_branch: Some("main\n".to_string()),
        git_counts: Some("0\t0\n".to_string()),
        manifest: Ok(manifest()),
        profile_dirs: vec![
            ProfileDir { name: "work".to_string(), files: strings(&[".zshrc"]) },
            ProfileDir { name: "common".to_string(), files: strings(&[".gitignore"]) },
        ],
        tracking,
        fs,
        backups: BackupStats {
            dir: "/home/u/.dotstate-backups".to_string(),
            exists: false,
            session_count: 0,
            total_size: 0,
        },
        repo_write: Ok(()),
        home_write: Some(Ok(())),
        disk_usage: Some(
            "Filesystem      Size  Used Avail Use% Mounted on\n/dev/sda1       400G  180G  200G  45% /\n"
                .to_string(),
        ),
        session: "session-1".to_string(),
        timestamp: "2024-05-01T10:00:00+02:00".to_string(),
    }
}

fn brief(results: &[ValidationResult]) -> Vec<(String, String, ValidationStatus)> {
    results
        .iter()
        .map(|r| (r.check_name.clone(), r.message.clone(), r.status))
        .collect()
}

fn expect(check: &str, message: &str, status: ValidationStatus) -> (String, String, ValidationStatus) {
    (check.to_string(), message.to_string(), status)
}

fn find<'a>(results: &'a [ValidationResult], check: &str) -> Vec<&'a ValidationResult> {
    results.iter().filter(|r| r.check_name == check).collect()
}

#[test]
fn a_healthy_machine_passes_every_check() {
    let mut obs = healthy();
    let mut doctor = Doctor::new(config(), options(false, false));
    let report = doctor.run_diagnostics(&mut obs);
    let pass = ValidationStatus::Pass;
    assert_eq!(
        brief(&report.results),
        vec![
            expect("version", "DotState 0.2.0 (latest)", pass),
            expect("git_version", "Git installed: git version 2.43.0", pass),
            expect("shell", "Default shell: /bin/zsh", pass),
            expect("home_dir", "Home directory: /home/u", pass),
            expect("config_file", "Configuration file exists", pass),
            expect("repo_path", "Repository path exists", pass),
            expect("active_profile", "Active profile: 'work'", pass),
            expect("git_repo", "Valid git repository", pass),
            expect("git_remote", "Remote configured: https://***@github.com/me/dot.git", pass),
            expect("git_status", "Working tree clean", pass),
            expect("git_branch", "Branch 'main' up to date with remote", pass),
            expect("manifest", "Manifest loaded: 1 profiles, 1 common files", pass),
            expect("common_overlap", "No file is both common and in a profile", pass),
            expect("active_profile_exists", "Active profile exists in manifest", pass),
            expect("profile_files", "All 1 profile files exist in storage", pass),
            expect("common_files", "All 1 common files exist in storage", pass),
            expect("activation_status", "Profile 'work' is active", pass),
            expect("tracking", "2 symlinks tracked", pass),
            expect("orphaned", "All tracked symlinks exist on disk", pass),
            expect("coverage", "All expected files are tracked", pass),
            expect("validity", "All symlinks are valid and point to correct targets", pass),
            expect("backup_enabled", "Backups are enabled", pass),
            expect(
                "backup_dir",
                "No backup directory yet (will be created on first backup)",
                pass
            ),
            expect("write_permission", "Repository is writable", pass),
            expect("home_writable", "Home directory is writable", pass),
            expect("disk_space", "Disk space OK - 200G available (45% used)", pass),
        ]
    );
    let categories: Vec<&str> = report.results.iter().map(|r| r.category.as_str()).collect();
    let mut order = categories.clone();
    order.dedup();
    assert_eq!(
        order,
        vec![
            "Environment",
            "Configuration",
            "Repository",
            "Profiles",
            "Symlinks",
            "Backups",
            "Filesystem"
        ]
    );
    assert!(report.results.iter().all(|r| !r.fixable && r.fix_action.is_none()));
    assert!(report.results.iter().all(|r| r.details.is_none()));
    assert_eq!(report.summary.total_checks, 26);
    assert_eq!(report.summary.passed, 26);
    assert_eq!(report.summary.warnings, 0);
    assert_eq!(report.summary.errors, 0);
    assert_eq!(report.summary.fixable, 0);
    assert_eq!(report.summary.fixed, 0);
    assert_eq!(report.version, "0.2.0");
    assert_eq!(report.timestamp, "2024-05-01T10:00:00+02:00");
    assert!(!report_failed(&report));
    assert_eq!(doctor.results.len(), 26);
}

#[test]
fn a_target_deleted_behind_our_back_is_found_and_fixed() {
    let mut obs = healthy();
    obs.fs.observe("/home/u/.zshrc", Node::Missing);
    let mut doctor = Doctor::new(config(), options(true, false));
    let report = doctor.run_diagnostics(&mut obs);

    let broken = find(&report.results, "broken");
    assert_eq!(broken.len(), 1);
    assert_eq!(broken[0].category, "Symlinks");
    assert_eq!(broken[0].status, ValidationStatus::Warning);
    assert_eq!(broken[0].message, "1 symlinks are broken/missing");
    assert!(broken[0].fixable);
    assert_eq!(broken[0].fix_action, Some("Re-activate profile".to_string()));
    let orphaned = find(&report.results, "orphaned");
    assert_eq!(orphaned[0].status, ValidationStatus::Warning);
    assert_eq!(orphaned[0].message, "1 tracked symlinks missing from disk");
    assert_eq!(orphaned[0].fix_action, Some("Clean up missing symlinks".to_string()));
    assert!(find(&report.results, "validity").is_empty());
    assert!(find(&report.results, "invalid").is_empty());
    assert_eq!(report.summary.warnings, 2);
    assert_eq!(report.summary.errors, 0);
    assert_eq!(report.summary.fixable, 2);
    assert_eq!(report.summary.fixed, 2);
    assert_eq!(report.summary.passed + 2, report.summary.total_checks);
    assert!(!report_failed(&report));

    assert_eq!(obs.fs.node_at("/home/u/.zshrc"), Node::Symlink("/repo/work/.zshrc".to_string()));
    assert_eq!(obs.tracking.symlinks.len(), 2);
    assert_eq!(obs.tracking.active_profile, "work");

    let mut second = Doctor::new(config(), options(false, false));
    let report = second.run_diagnostics(&mut obs);
    assert!(find(&report.results, "broken").is_empty());
    assert_eq!(find(&report.results, "orphaned")[0].status, ValidationStatus::Pass);
    assert_eq!(find(&report.results, "validity")[0].status, ValidationStatus::Pass);
    assert_eq!(report.summary.warnings, 0);
    assert_eq!(report.summary.passed, report.summary.total_checks);
}

#[test]
fn without_fix_mode_nothing_is_changed() {
    let mut obs = healthy();
    obs.fs.observe("/home/u/.zshrc", Node::Missing);
    let mut doctor = Doctor::new_legacy(config(), false);
    assert!(!doctor.options.verbose && !doctor.options.json_output && !doctor.options.fix_mode);
    let report = doctor.run_diagnostics(&mut obs);
    assert_eq!(report.summary.fixable, 2);
    assert_eq!(report.summary.fixed, 0);
    assert_eq!(obs.fs.node_at("/home/u/.zshrc"), Node::Missing);
    assert_eq!(obs.tracking.symlinks.len(), 2);
    assert!(obs.fs.planned_actions().is_empty());
    assert_eq!(
        doctor.fixes_to_apply(),
        strings(&["Clean up missing symlinks", "Re-activate profile"])
    );
}

#[test]
fn wrong_targets_are_errors_and_end_the_run_in_failure() {
    let mut obs = healthy();
    obs.fs.observe("/home/u/.zshrc", Node::Symlink("/somewhere/else".to_string()));
    obs.fs.observe("/home/u/.gitignore", Node::File(b"mine".to_vec()));
    let mut doctor = Doctor::new(config(), options(false, true));
    let report = doctor.run_diagnostics(&mut obs);
    let invalid = find(&report.results, "invalid");
    assert_eq!(invalid.len(), 1);
    assert_eq!(invalid[0].status, ValidationStatus::Error);
    assert_eq!(invalid[0].message, "2 symlinks point to wrong targets");
    assert_eq!(invalid[0].fix_action, Some("Re-activate profile".to_string()));
    assert_eq!(
        invalid[0].details,
        Some(strings(&[
            "/home/u/.zshrc -> /somewhere/else (expected /repo/work/.zshrc)",
            "/home/u/.gitignore exists but is not a symlink",
        ]))
    );
    assert!(find(&report.results, "broken").is_empty());
    assert_eq!(report.summary.errors, 1);
    assert!(report_failed(&report));
}

#[test]
fn files_without_a_record_are_an_error_of_coverage() {
    let mut obs = healthy();
    let mut m = manifest();
    m.update_synced_files("work", strings(&[".zshrc", ".vimrc", ".zshrc", ".gitignore"])).unwrap();
    m.common.synced_files = strings(&[".gitignore", ".tmux.conf"]);
    assert_eq!(files_to_link("work", &m), strings(&[".zshrc", ".vimrc", ".gitignore", ".tmux.conf"]));
    assert_eq!(files_to_link("nobody", &m), strings(&[".gitignore", ".tmux.conf"]));
    assert!(covers_file(&obs.tracking.symlinks, ".zshrc"));
    assert!(covers_file(&obs.tracking.symlinks, "work/.zshrc"));
    assert!(!covers_file(&obs.tracking.symlinks, ".vimrc"));
    obs.manifest = Ok(m);
    let mut doctor = Doctor::new(config(), options(false, false));
    doctor.check_untracked_files(&obs.tracking, &obs.manifest);
    let r = &doctor.results[0];
    assert_eq!(r.check_name, "coverage");
    assert_eq!(r.status, ValidationStatus::Error);
    assert_eq!(r.message, "2 expected files not tracked");
    assert_eq!(r.fix_action, Some("Re-activate profile".to_string()));
    assert_eq!(r.details, Some(strings(&[".vimrc", ".tmux.conf"])));

    let mut doctor = Doctor::new(config(), options(false, false));
    doctor.check_untracked_files(&obs.tracking, &Err(ManifestError::Corrupt));
    assert!(doctor.results.is_empty());
}

#[test]
fn settings_and_ledger_must_agree_on_the_active_profile() {
    let mut tracking = TrackingLedger::new();
    let mut doctor = Doctor::new(config(), options(false, false));
    doctor.check_activation_status(&tracking);
    tracking.active_profile = "home".to_string();
    doctor.check_activation_status(&tracking);
    tracking.active_profile = "work".to_string();
    doctor.check_activation_status(&tracking);
    let mut idle = config();
    idle.profile_activated = false;
    let mut other = Doctor::new(idle, options(false, false));
    other.check_activation_status(&tracking);

    assert_eq!(doctor.results[0].message, "Config says active, but tracking says inactive");
    assert_eq!(doctor.results[0].status, ValidationStatus::Warning);
    assert_eq!(doctor.results[0].fix_action, Some("Sync activation state".to_string()));
    assert_eq!(doctor.results[1].message, "Profile mismatch: config='work', tracking='home'");
    assert_eq!(doctor.results[1].fix_action, Some("Sync activation state".to_string()));
    assert_eq!(doctor.results[2].message, "Profile 'work' is active");
    assert_eq!(doctor.results[2].status, ValidationStatus::Pass);
    assert_eq!(
        other.results[0].message,
        "Config says inactive, but tracking says 'work' is active"
    );
    assert_eq!(other.results[0].status, ValidationStatus::Warning);
    assert_eq!(other.results[0].fix_action, Some("Sync activation state".to_string()));
    other.check_activation_status(&TrackingLedger::new());
    assert_eq!(other.results[1].message, "No profile currently active");
    assert_eq!(other.results[1].status, ValidationStatus::Pass);
    assert_eq!(other.results[1].fix_action, None);
    assert_eq!(
        other.results[1].details,
        Some(strings(&["Run 'dotstate activate' to enable symlinks"]))
    );

    let mut obs = healthy();
    obs.tracking.active_profile = String::new();
    let mut fixing = Doctor::new(config(), options(true, false));
    let report = fixing.run_diagnostics(&mut obs);
    assert_eq!(report.summary.fixable, 1);
    assert!(!fixing.config.profile_activated);
    assert_eq!(fixing.config.active_profile, "work");
}

#[test]
fn settings_that_say_inactive_follow_a_ledger_that_names_a_profile() {
    let mut idle = config();
    idle.profile_activated = false;
    idle.active_profile = "home".to_string();
    let mut obs = healthy();
    let mut doctor = Doctor::new(idle.clone(), options(false, false));
    let report = doctor.run_diagnostics(&mut obs);
    let found = find(&report.results, "activation_status");
    assert_eq!(found.len(), 1);
    assert_eq!(found[0].status, ValidationStatus::Warning);
    assert_eq!(found[0].fix_action, Some("Sync activation state".to_string()));
    assert!(!doctor.config.profile_activated);

    let mut obs = healthy();
    let mut fixing = Doctor::new(idle, options(true, false));
    fixing.run_diagnostics(&mut obs);
    assert!(fixing.config.profile_activated);
    assert_eq!(fixing.config.active_profile, "work");
    let mut again = Doctor::new(fixing.config.clone(), options(false, false));
    let report = again.run_diagnostics(&mut obs);
    let found = find(&report.results, "activation_status");
    assert_eq!(found.len(), 1);
    assert_eq!(found[0].status, ValidationStatus::Pass);
    assert_eq!(found[0].message, "Profile 'work' is active");
}

#[test]
fn links_are_checked_whatever_the_settings_say_of_activation() {
    let mut idle = config();
    idle.profile_activated = false;
    let mut obs = healthy();
    obs.fs.observe("/home/u/.zshrc", Node::Missing);
    obs.fs.observe("/home/u/.gitignore", Node::Symlink("/elsewhere".to_string()));
    let mut doctor = Doctor::new(idle, options(false, false));
    doctor.check_symlinks(&obs.tracking, &obs.manifest, &obs.fs);
    assert_eq!(
        brief(&doctor.results),
        vec![
            expect(
                "activation_status",
                "Config says inactive, but tracking says 'work' is active",
                ValidationStatus::Warning
            ),
            expect("tracking", "2 symlinks tracked", ValidationStatus::Pass),
            expect("orphaned", "1 tracked symlinks missing from disk", ValidationStatus::Warning),
            expect("coverage", "All expected files are tracked", ValidationStatus::Pass),
            expect("invalid", "1 symlinks point to wrong targets", ValidationStatus::Error),
            expect("broken", "1 symlinks are broken/missing", ValidationStatus::Warning),
        ]
    );
}

#[test]
fn an_empty_ledger_asks_for_activation() {
    let obs = healthy();
    let mut doctor = Doctor::new(config(), options(false, false));
    doctor.check_symlink_tracking(&TrackingLedger::new(), &obs.manifest, &obs.fs);
    assert_eq!(doctor.results.len(), 1);
    assert_eq!(
        doctor.results[0].message,
        "No symlinks tracked (profile may need re-activation)"
    );
    assert_eq!(doctor.results[0].status, ValidationStatus::Warning);
    assert_eq!(doctor.results[0].fix_action, Some("Re-activate profile".to_string()));

    let mut idle = config();
    idle.profile_activated = false;
    let mut other = Doctor::new(idle, options(false, false));
    other.check_symlinks(&TrackingLedger::new(), &obs.manifest, &obs.fs);
    assert_eq!(
        brief(&other.results),
        vec![
            expect("activation_status", "No profile currently active", ValidationStatus::Pass),
            expect("tracking", "No symlinks tracked", ValidationStatus::Pass),
            expect(
                "validity",
                "All symlinks are valid and point to correct targets",
                ValidationStatus::Pass
            ),
        ]
    );
}

#[test]
fn a_manifest_that_cannot_be_loaded_is_an_error_with_a_repair() {
    let mut obs = healthy();
    obs.manifest = Err(ManifestError::NotFound);
    let mut doctor = Doctor::new(config(), options(true, false));
    let report = doctor.run_diagnostics(&mut obs);
    let found = find(&report.results, "manifest");
    assert_eq!(found[0].status, ValidationStatus::Error);
    assert_eq!(found[0].message, "Failed to load manifest: manifest file not found");
    assert_eq!(found[0].fix_action, Some("Rebuild manifest".to_string()));
    assert!(find(&report.results, "coverage").is_empty());
    assert!(find(&report.results, "profile_files").is_empty());
    assert!(report_failed(&report));
    let rebuilt = obs.manifest.as_ref().unwrap();
    assert_eq!(rebuilt.profiles.len(), 1);
    assert_eq!(rebuilt.profiles[0].name, "work");
    assert_eq!(rebuilt.profiles[0].synced_files, strings(&[".zshrc"]));
    assert_eq!(rebuilt.common.synced_files, strings(&[".gitignore"]));

    let mut obs = healthy();
    obs.manifest = Err(ManifestError::Corrupt);
    let mut doctor = Doctor::new(config(), options(false, false));
    assert!(!doctor.apply_single_fix("Rebuild manifest", &mut obs));
    assert!(obs.manifest.is_err());
}

#[test]
fn a_file_both_common_and_in_a_profile_is_flagged() {
    let mut m = ProfileManifest::new();
    m.add_profile("personal".to_string(), None).unwrap();
    m.add_profile("work".to_string(), None).unwrap();
    m.update_synced_files("personal", strings(&[".zshrc", ".gitignore"])).unwrap();
    m.update_synced_files("work", strings(&[".gitignore"])).unwrap();
    m.common.synced_files = strings(&[".gitignore"]);
    let mut doctor = Doctor::new(config(), options(false, false));
    doctor.check_common_overlap(&m);
    let r = &doctor.results[0];
    assert_eq!(r.category, "Profiles");
    assert_eq!(r.check_name, "common_overlap");
    assert_eq!(r.status, ValidationStatus::Error);
    assert_eq!(r.message, "2 files are both common and in a profile");
    assert_eq!(r.details, Some(strings(&["personal: .gitignore", "work: .gitignore"])));
    assert!(!r.fixable);
    assert!(doctor.calculate_summary().errors == 1);
}

#[test]
fn files_missing_from_storage_are_listed() {
    let obs = healthy();
    let mut doctor = Doctor::new(config(), options(false, false));
    let files = strings(&["a", ".zshrc", "b", "c", "d", "e", "f"]);
    doctor.check_profile_files(&obs.fs, "work", &files);
    doctor.check_common_files(&obs.fs, &strings(&[".gitignore"]));
    doctor.check_common_files(&obs.fs, &strings(&[".gitignore", "x"]));
    assert_eq!(doctor.results[0].message, "6 profile files missing from storage");
    assert_eq!(doctor.results[0].status, ValidationStatus::Error);
    assert_eq!(doctor.results[0].details, Some(strings(&["a", "b", "c", "d", "e"])));
    assert_eq!(doctor.results[1].message, "All 1 common files exist in storage");
    assert_eq!(doctor.results[2].message, "1 common files missing from storage");
    assert_eq!(doctor.results[2].check_name, "common_files");

    let mut lost = config();
    lost.active_profile = "gone".to_string();
    let mut doctor = Doctor::new(lost, options(false, true));
    doctor.check_profiles(&obs.manifest, &obs.fs);
    assert_eq!(doctor.results[0].details, Some(strings(&["  work (1 files)"])));
    assert_eq!(doctor.results[2].message, "Active profile 'gone' not found in manifest");
    assert_eq!(doctor.results[2].status, ValidationStatus::Error);
}

#[test]
fn the_environment_is_reported() {
    let fs = FsView::new();
    let mut doctor = Doctor::new(config(), options(false, true));
    doctor.check_version(&update_check("0.2.0", Ok(Some("0.3.0".to_string()))));
    doctor.check_version(&UpdateCheck::Failed("offline".to_string()));
    doctor.check_git_version(&None);
    doctor.check_shell_and_home(&None, &Some("/home/u".to_string()), &fs);
    doctor.check_environment(&UpdateCheck::UpToDate, &Some(" git 2 ".to_string()), &None, &None, &fs);
    let r = &doctor.results;
    assert_eq!(r[0].message, "Update available: 0.2.0 \u{2192} 0.3.0");
    assert_eq!(r[0].status, ValidationStatus::Warning);
    assert_eq!(
        r[0].details,
        Some(strings(&[
            "Run 'dotstate upgrade' to update",
            "Release notes: https://github.com/serkanyersen/dotstate/releases/tag/v0.3.0",
        ]))
    );
    assert_eq!(r[1].message, "DotState 0.2.0 (update check failed)");
    assert_eq!(r[1].status, ValidationStatus::Pass);
    assert_eq!(r[1].details, Some(strings(&["Error: offline"])));
    assert_eq!(r[2].message, "Git not found in PATH");
    assert_eq!(r[2].status, ValidationStatus::Error);
    assert_eq!(r[2].details, Some(strings(&["Git is required for DotState to function"])));
    assert_eq!(r[3].message, "Home directory does not exist");
    assert_eq!(r[3].status, ValidationStatus::Error);
    assert_eq!(r[4].message, "DotState 0.2.0 (latest)");
    assert_eq!(r[5].message, "Git installed: git 2");
    assert_eq!(r.len(), 6);

    let mut quiet = Doctor::new(config(), options(false, false));
    quiet.check_version(&UpdateCheck::Failed("offline".to_string()));
    assert_eq!(quiet.results[0].details, None);
}

#[test]
fn the_configuration_is_reported() {
    let fs = FsView::new();
    let mut bare = Config::new("/re\"po".to_string());
    bare.repo_mode = RepoMode::Local;
    let mut doctor = Doctor::new(bare, options(false, false));
    doctor.check_configuration(&fs, "/cfg");
    let r = &doctor.results;
    assert_eq!(r[0].message, "Configuration file missing");
    assert_eq!(r[0].status, ValidationStatus::Error);
    assert_eq!(r[0].details, Some(strings(&["Expected at: /cfg"])));
    assert_eq!(r[1].message, "Repository path not found: \"/re\\\"po\"");
    assert_eq!(r[1].status, ValidationStatus::Error);
    assert_eq!(r[2].message, "No active profile set");
    assert_eq!(r[2].status, ValidationStatus::Warning);
    assert_eq!(r[2].details, Some(strings(&["Run 'dotstate' to select a profile"])));

    let obs = healthy();
    let mut verbose = Doctor::new(config(), options(false, true));
    verbose.check_configuration(&obs.fs, &obs.config_path);
    assert_eq!(
        verbose.results[0].details,
        Some(strings(&["Path: /home/u/.config/dotstate/config.toml"]))
    );
    assert_eq!(verbose.results[1].details, Some(strings(&["Path: /repo"])));
}

#[test]
fn the_repository_is_reported_by_what_git_printed() {
    let mut doctor = Doctor::new(config(), options(false, true));
    doctor.check_repository(false, &None, &None, &None, &None);
    doctor.check_git_remote(&Some("  \n".to_string()));
    doctor.check_git_remote(&Some("upstream\thttps://x (fetch)\n".to_string()));
    doctor.check_git_remote(&None);
    doctor.check_git_status(&Some(" M a\n M b\n?? c\n M d\n M e\n M f\n".to_string()));
    doctor.check_git_branch(&Some("main\n".to_string()), &Some("2\t0\n".to_string()));
    doctor.check_git_branch(&Some("main\n".to_string()), &Some("0\t3\n".to_string()));
    doctor.check_git_branch(&Some("main\n".to_string()), &Some("2 3".to_string()));
    doctor.check_git_branch(&Some("main\n".to_string()), &Some("fatal: no upstream".to_string()));
    doctor.check_git_branch(&Some("main\n".to_string()), &None);
    doctor.check_git_branch(&Some("\n".to_string()), &Some("0 0".to_string()));
    doctor.check_git_branch(&None, &Some("0 0".to_string()));
    doctor.check_git_branch(&Some("dev".to_string()), &Some("x -4".to_string()));
    let r = &doctor.results;
    assert_eq!(r[0].message, "Not a git repository");
    assert_eq!(r[0].status, ValidationStatus::Warning);
    assert_eq!(r[0].details, Some(strings(&["Git sync features will not work"])));
    assert_eq!(r[1].message, "No remote configured");
    assert_eq!(r[1].status, ValidationStatus::Warning);
    assert_eq!(r[2].message, "6 uncommitted changes");
    assert_eq!(r[2].status, ValidationStatus::Warning);
    assert_eq!(r[2].details, Some(strings(&[" M a", " M b", "?? c", " M d", " M e"])));
    assert_eq!(r[3].message, "Branch 'main' 2 commit(s) behind remote");
    assert_eq!(r[3].status, ValidationStatus::Warning);
    assert_eq!(r[4].message, "Branch 'main' 3 commit(s) ahead of remote");
    assert_eq!(r[4].status, ValidationStatus::Pass);
    assert_eq!(r[5].message, "Branch 'main' 3 ahead, 2 behind remote");
    assert_eq!(r[5].status, ValidationStatus::Warning);
    assert_eq!(r[6].message, "Current branch: main");
    assert_eq!(r[7].message, "Current branch: main (no upstream)");
    assert_eq!(r[8].message, "Branch 'dev' -4 commit(s) ahead of remote");
    assert_eq!(r[8].status, ValidationStatus::Pass);
    assert_eq!(r.len(), 9);

    assert_eq!(
        read_origin_url("origin  git@host:me/x.git (fetch)\norigin  other (fetch)\n"),
        Some("git@host:me/x.git".to_string())
    );
    assert_eq!(read_origin_url("origin(fetch)\n"), None);
    assert_eq!(read_origin_url("origin x (push)\n"), None);
}

#[test]
fn backups_are_reported() {
    let stats = |exists: bool, session_count: usize, total_size: u64| BackupStats {
        dir: "/home/u/.dotstate-backups".to_string(),
        exists,
        session_count,
        total_size,
    };
    let mut off = config();
    off.backup_enabled = false;
    let mut doctor = Doctor::new(off, options(false, true));
    doctor.check_backups(&stats(false, 0, 0));
    doctor.check_backups(&stats(true, 0, 0));
    doctor.check_backups(&stats(true, 3, 2048));
    doctor.check_backups(&stats(true, 1, 100 * 1024 * 1024 + 1));
    let r = &doctor.results;
    assert_eq!(r[0].message, "Backups are disabled in settings");
    assert_eq!(r[0].status, ValidationStatus::Warning);
    assert_eq!(r[1].message, "No backup directory (backups are disabled)");
    assert_eq!(r[1].details, Some(strings(&["Expected at: /home/u/.dotstate-backups"])));
    assert_eq!(r[3].message, "Backup directory exists but is empty");
    assert_eq!(r[5].message, "3 backup session(s) (2.0 KB total)");
    assert_eq!(r[5].details, Some(strings(&["Location: /home/u/.dotstate-backups"])));
    assert_eq!(r[7].message, "1 backup session(s) (100.0 MB total)");
    assert_eq!(r[8].message, "Backup directory is large (100.0 MB)");
    assert_eq!(r[8].status, ValidationStatus::Warning);
    assert_eq!(r[8].check_name, "backup_size");
    assert_eq!(
        r[8].details,
        Some(strings(&[
            "Consider cleaning old backups to save space",
            "Location: /home/u/.dotstate-backups",
        ]))
    );
    assert_eq!(r.len(), 9);
}

#[test]
fn sizes_are_written_for_a_reader() {
    assert_eq!(Doctor::format_size(0), "0 B");
    assert_eq!(Doctor::format_size(1023), "1023 B");
    assert_eq!(Doctor::format_size(1024), "1.0 KB");
    assert_eq!(Doctor::format_size(1280), "1.2 KB");
    assert_eq!(Doctor::format_size(1281), "1.3 KB");
    assert_eq!(Doctor::format_size(1536), "1.5 KB");
    assert_eq!(Doctor::format_size(1433), "1.4 KB");
    assert_eq!(Doctor::format_size(1024 * 1024 - 1), "1024.0 KB");
    assert_eq!(Doctor::format_size(1024 * 1024), "1.0 MB");
    assert_eq!(Doctor::format_size(5 * 1024 * 1024 + 512 * 1024), "5.5 MB");
    assert_eq!(Doctor::format_size(1024 * 1024 * 1024), "1.00 GB");
    assert_eq!(Doctor::format_size(1024 * 1024 * 1024 + 1024 * 1024 * 512), "1.50 GB");
    assert_eq!(Doctor::format_size(3 * 1024 * 1024 * 1024 + 1024 * 1024 * 52), "3.05 GB");
    assert_eq!(Doctor::format_size(u64::MAX), "17179869184.00 GB");
}

#[test]
fn the_file_system_is_reported() {
    let mut doctor = Doctor::new(config(), options(false, false));
    doctor.check_filesystem(&Err("read-only".to_string()), &None, &None);
    doctor.check_write_permissions(&Ok(()), &Some(Err("denied".to_string())));
    doctor.check_disk_space(&Some("Filesystem Size Used Avail Use% Mounted\n/dev/sda1 400G 380G 20G 95% /\n".to_string()));
    doctor.check_disk_space(&Some("Filesystem Size Used Avail Use% Mounted\n/dev/sda1 400G 340G 60G 85% /\n".to_string()));
    doctor.check_disk_space(&Some("Filesystem Size Used Avail Use% Mounted\n/dev/sda1 400G 340G 60G lots /\n".to_string()));
    doctor.check_disk_space(&Some("Filesystem Size Used Avail Use% Mounted\n".to_string()));
    doctor.report_disk_usage(80, "1T");
    doctor.report_disk_usage(90, "1T");
    let r = &doctor.results;
    assert_eq!(r[0].message, "Repository not writable: read-only");
    assert_eq!(r[0].status, ValidationStatus::Error);
    assert_eq!(r[1].message, "Could not determine disk space");
    assert_eq!(r[1].status, ValidationStatus::Pass);
    assert_eq!(r[2].message, "Repository is writable");
    assert_eq!(r[3].message, "Home directory not writable: denied");
    assert_eq!(r[3].status, ValidationStatus::Error);
    assert_eq!(r[4].message, "Disk 95% full - 20G available");
    assert_eq!(r[4].status, ValidationStatus::Error);
    assert_eq!(r[4].details, Some(strings(&["Low disk space may cause sync failures"])));
    assert_eq!(r[5].message, "Disk 85% full - 60G available");
    assert_eq!(r[5].status, ValidationStatus::Warning);
    assert_eq!(r[6].message, "Could not determine disk space");
    assert_eq!(r[7].message, "Could not determine disk space");
    assert_eq!(r[8].message, "Disk space OK - 1T available (80% used)");
    assert_eq!(r[8].status, ValidationStatus::Pass);
    assert_eq!(r[9].message, "Disk 90% full - 1T available");
    assert_eq!(r[9].status, ValidationStatus::Warning);
    assert_eq!(read_disk_usage("h\n/dev/sda1 400G 340G 60G 85%% /\n"), Some((85, "60G".to_string())));
    assert_eq!(read_disk_usage("h\n/dev/sda1 400G 340G 60G\n"), None);
}

#[test]
fn findings_are_added_and_tallied() {
    let mut doctor = Doctor::new(config(), options(true, false));
    let start = Instant::now();
    doctor.add_result("A", "one", "fine", ValidationStatus::Pass, None, None, start);
    doctor.add_result("A", "two", "hm", ValidationStatus::Warning, Some("Rebuild manifest"), None, start);
    doctor.add_result("B", "three", "bad", ValidationStatus::Error, None, Some(strings(&["x"])), start);
    doctor.add_result("B", "four", "odd", ValidationStatus::Pass, Some("Sync activation state"), None, start);
    assert_eq!(doctor.results[1].category, "A");
    assert_eq!(doctor.results[1].check_name, "two");
    assert!(doctor.results[1].fixable);
    assert!(!doctor.results[2].fixable);
    assert_eq!(doctor.results[2].details, Some(strings(&["x"])));
    let summary = doctor.calculate_summary();
    assert_eq!(summary.total_checks, 4);
    assert_eq!(summary.passed, 2);
    assert_eq!(summary.warnings, 1);
    assert_eq!(summary.errors, 1);
    assert_eq!(summary.fixable, 1);
    assert_eq!(summary.fixed, 1);
    assert_eq!(doctor.fixes_to_apply(), strings(&["Rebuild manifest"]));
    let report = doctor.report("2024-05-01T10:00:00+02:00");
    assert_eq!(report.results.len(), 4);
    assert!(report_failed(&report));
}

#[test]
fn repairs_are_named_by_their_labels() {
    assert_eq!(FixAction::from_label("Sync activation state"), Some(FixAction::SyncActivationState));
    assert_eq!(
        FixAction::from_label("Clean up missing symlinks"),
        Some(FixAction::CleanUpMissingSymlinks)
    );
    assert_eq!(FixAction::from_label("Re-activate profile"), Some(FixAction::ReactivateProfile));
    assert_eq!(FixAction::from_label("Rebuild manifest"), Some(FixAction::RebuildManifest));
    assert_eq!(FixAction::from_label("rebuild manifest"), None);

    let mut obs = healthy();
    let mut doctor = Doctor::new(config(), options(true, false));
    assert!(!doctor.apply_single_fix("Do something", &mut obs));
    assert!(doctor.apply_single_fix("Rebuild manifest", &mut obs));
    obs.fs.observe("/home/u/.gitignore", Node::Missing);
    assert!(doctor.apply_single_fix("Clean up missing symlinks", &mut obs));
    assert_eq!(obs.tracking.symlinks.len(), 1);
    assert_eq!(obs.tracking.symlinks[0].target, "/home/u/.zshrc");

    let mut nobody = Config::new("/repo".to_string());
    nobody.profile_activated = true;
    let mut doctor = Doctor::new(nobody, options(true, false));
    assert!(!doctor.apply_single_fix("Re-activate profile", &mut obs));
    let mut doctor = Doctor::new(config(), options(true, false));
    obs.home_dir = None;
    assert!(!doctor.apply_single_fix("Re-activate profile", &mut obs));
    obs.home_dir = Some("/home/u".to_string());
    obs.fs.observe("/home/u/.gitignore", Node::File(b"mine".to_vec()));
    assert!(doctor.apply_single_fix("Re-activate profile", &mut obs));
    assert_eq!(obs.fs.node_at("/home/u/.gitignore"), Node::File(b"mine".to_vec()));
    assert_eq!(obs.tracking.symlinks.len(), 1);
    let reports = doctor.apply_fixes(&mut obs);
    assert!(reports.is_empty());
}

#[test]
fn checks_report_what_they_are_handed() {
    let mut doctor = Doctor::new(config(), options(false, false));
    doctor.report_git_version(Some("git version 2"));
    doctor.report_git_version(None);
    doctor.report_repo_path(false, "'/repo'");
    doctor.report_repo_path(true, "'/repo'");
    doctor.report_git_remote(false, Some("https://a@b/c"));
    doctor.report_git_remote(true, Some("https://a@b/c"));
    doctor.report_git_remote(true, None);
    doctor.report_git_status(&Vec::new());
    doctor.report_git_status(&strings(&["M a"]));
    doctor.report_git_branch("", Upstream::Missing);
    doctor.report_git_branch("main", Upstream::Missing);
    doctor.report_git_branch("main", Upstream::Unreadable);
    doctor.report_git_branch("main", Upstream::Distance { ahead: 0, behind: 0 });
    doctor.report_branch("main", 1, 1);
    let messages: Vec<&str> = doctor.results.iter().map(|r| r.message.as_str()).collect();
    assert_eq!(
        messages,
        vec![
            "Git installed: git version 2",
            "Git not found in PATH",
            "Repository path not found: '/repo'",
            "Repository path exists",
            "No remote configured",
            "Remote configured: https://***@b/c",
            "Working tree clean",
            "1 uncommitted changes",
            "Current branch: main (no upstream)",
            "Current branch: main",
            "Branch 'main' up to date with remote",
            "Branch 'main' 1 ahead, 1 behind remote",
        ]
    );
    assert!(doctor.found_errors());
    assert!(!Doctor::new(config(), options(false, false)).found_errors());
    assert_eq!(
        Upstream::from_counts(Some(2), None),
        Upstream::Distance { ahead: 0, behind: 2 }
    );
    assert_eq!(
        read_upstream(&Some(" 7   x ".to_string())),
        Upstream::Distance { ahead: 0, behind: 7 }
    );
    assert_eq!(
        read_upstream(&Some("1\t+2\n".to_string())),
        Upstream::Distance { ahead: 2, behind: 1 }
    );
    assert_eq!(read_upstream(&Some("1 2 3".to_string())), Upstream::Unreadable);
    assert_eq!(read_upstream(&Some(String::new())), Upstream::Unreadable);
    assert_eq!(read_upstream(&None), Upstream::Missing);
    assert_eq!(second_of(&strings(&["a", "b", "c"])), Some("b".to_string()));
    assert_eq!(second_of(&strings(&["a"])), None);
}

#[test]
fn milliseconds_are_kept_as_far_as_they_fit() {
    assert_eq!(millis_as_u64(0), 0);
    assert_eq!(millis_as_u64(1500), 1500);
    assert_eq!(millis_as_u64(u64::MAX as u128), u64::MAX);
    assert_eq!(millis_as_u64(u64::MAX as u128 + 1), u64::MAX);
    assert_eq!(millis_as_u64(u128::MAX), u64::MAX);
}
