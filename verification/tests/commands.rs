use dotstate::commands::conclude_activation;
use dotstate::commands::conclude_deactivation;
use dotstate::commands::forget_failed;
use dotstate::commands::is_held_back;
use dotstate::commands::link_state;
use dotstate::commands::note_failures;
use dotstate::commands::plan_activation;
use dotstate::commands::readiness;
use dotstate::commands::ActivationPlan;
use dotstate::commands::Conclusion;
use dotstate::commands::Failure;
use dotstate::commands::LinkState;
use dotstate::commands::Readiness;
use dotstate::config::Config;
use dotstate::fsview::FsAction;
use dotstate::fsview::FsView;
use dotstate::fsview::Node;
use dotstate::ledger::SymlinkRecord;
use dotstate::ledger::SymlinkScope;
use dotstate::ledger::TrackingLedger;
use dotstate::manifest::ProfileManifest;
use dotstate::symlink_manager::OperationStatus;
use dotstate::symlink_manager::SymlinkManager;
use dotstate::symlink_manager::SymlinkOperation;

fn op(target: &str, status: OperationStatus) -> SymlinkOperation {
    SymlinkOperation { target: target.to_string(), status }
}

fn settings(profile: &str, activated: bool) -> Config {
    let mut config = Config::new("/repo".to_string());
    config.active_profile = profile.to_string();
    config.profile_activated = activated;
    config
}

#[test]
fn activation_is_planned_from_settings_and_manifest() {
    let mut manifest = ProfileManifest::default();
    manifest.add_profile("work".to_string(), None).unwrap();
    manifest.add_profile("home".to_string(), None).unwrap();
    manifest.update_synced_files("work", vec![".zshrc".to_string()]).unwrap();
    assert_eq!(plan_activation(&settings("work", false), &manifest), ActivationPlan::Proceed);
    assert_eq!(plan_activation(&settings("home", false), &manifest), ActivationPlan::NothingToSync);
    assert_eq!(plan_activation(&settings("none", false), &manifest), ActivationPlan::NoSuchProfile);
    assert_eq!(plan_activation(&settings("", false), &manifest), ActivationPlan::NoSuchProfile);
}

#[test]
fn the_settings_say_whether_an_activation_is_due() {
    assert_eq!(readiness(&settings("work", false)), Readiness::Ready);
    assert_eq!(readiness(&settings("work", true)), Readiness::AlreadyActive);
    let mut bare = Config::new(String::new());
    assert!(!bare.is_repo_configured());
    assert_eq!(readiness(&bare), Readiness::NotConfigured);
    bare.profile_activated = true;
    assert_eq!(readiness(&bare), Readiness::NotConfigured);
    assert!(settings("work", false).is_repo_configured());
}

#[test]
fn a_listed_file_is_a_link_or_something_else_or_not_there() {
    let file = Node::File(b"x".to_vec());
    let link = Node::Symlink("/repo/work/.zshrc".to_string());
    assert_eq!(link_state(&link, &file), LinkState::ActiveLink);
    assert_eq!(link_state(&link, &Node::Missing), LinkState::NotFound);
    assert_eq!(link_state(&Node::Missing, &Node::Missing), LinkState::NotFound);
    assert_eq!(link_state(&file, &file), LinkState::NotALink);
    assert_eq!(
        link_state(&Node::Directory(Vec::new()), &Node::Directory(Vec::new())),
        LinkState::NotALink
    );
    assert_eq!(link_state(&Node::Unreadable, &Node::Unreadable), LinkState::NotALink);
}

#[test]
fn the_ledger_forgets_the_links_that_failed_on_disk() {
    let mut ledger = TrackingLedger::new();
    ledger.active_profile = "work".to_string();
    for name in ["a", "b", "c"] {
        ledger.record(SymlinkRecord {
            source: format!("/repo/work/{}", name),
            target: format!("/home/u/{}", name),
            scope: SymlinkScope::Profile("work".to_string()),
        });
    }
    forget_failed(&mut ledger, &Vec::new());
    assert_eq!(ledger.symlinks.len(), 3);
    let failures = vec![
        Failure { target: "/home/u/c".to_string(), reason: "busy".to_string() },
        Failure { target: "/home/u/x".to_string(), reason: "lost".to_string() },
        Failure { target: "/home/u/a".to_string(), reason: "read-only".to_string() },
    ];
    forget_failed(&mut ledger, &failures);
    assert_eq!(ledger.symlinks.len(), 1);
    assert_eq!(ledger.symlinks[0].target, "/home/u/b");
    assert_eq!(ledger.active_profile, "work");
    ledger.drop_target("/home/u/b");
    assert!(ledger.symlinks.is_empty());
}

#[test]
fn an_activation_counts_only_where_nothing_failed() {
    let good = vec![
        op("/home/u/a", OperationStatus::Success),
        op("/home/u/b", OperationStatus::Skipped("already correct".to_string())),
    ];
    let mut config = settings("work", false);
    assert_eq!(conclude_activation(&mut config, &good), Conclusion::Completed { done: 2 });
    assert!(config.profile_activated);
    assert_eq!(config.active_profile, "work");

    let bad = vec![
        op("/home/u/a", OperationStatus::Success),
        op("/home/u/b", OperationStatus::Failed("would overwrite existing file".to_string())),
        op("/home/u/c", OperationStatus::Failed("source missing in repository".to_string())),
    ];
    let mut config = settings("work", false);
    assert_eq!(
        conclude_activation(&mut config, &bad),
        Conclusion::Incomplete { done: 1, failed: 2 }
    );
    assert!(!config.profile_activated);

    let mut config = settings("work", false);
    assert_eq!(conclude_activation(&mut config, &Vec::new()), Conclusion::Completed { done: 0 });
    assert!(config.profile_activated);
}

#[test]
fn a_deactivation_counts_only_where_nothing_failed() {
    let good = vec![
        op("/home/u/a", OperationStatus::Success),
        op("/home/u/b", OperationStatus::Skipped("not our symlink".to_string())),
    ];
    let mut config = settings("work", true);
    assert_eq!(conclude_deactivation(&mut config, &good), Conclusion::Completed { done: 2 });
    assert!(!config.profile_activated);

    let bad = vec![
        op("/home/u/a", OperationStatus::Failed("permission denied".to_string())),
        op("/home/u/b", OperationStatus::Success),
    ];
    let mut config = settings("work", true);
    assert_eq!(
        conclude_deactivation(&mut config, &bad),
        Conclusion::Incomplete { done: 1, failed: 1 }
    );
    assert!(config.profile_activated);

    let mut config = settings("work", true);
    assert_eq!(conclude_deactivation(&mut config, &Vec::new()), Conclusion::NothingTracked);
    assert!(config.profile_activated);
}

#[test]
fn changes_for_a_target_that_failed_are_held_back() {
    let backup = FsAction::MoveToBackup {
        target: "/home/u/.zshrc".to_string(),
        location: "/home/u/.dotstate-backups/s1/.zshrc".to_string(),
    };
    let create = FsAction::CreateSymlink {
        source: "/repo/work/.zshrc".to_string(),
        target: "/home/u/.zshrc".to_string(),
    };
    let restore = FsAction::RestoreBackup {
        location: "/home/u/.dotstate-backups/s1/.zshrc".to_string(),
        target: "/home/u/.zshrc".to_string(),
    };
    let remove = FsAction::RemoveSymlink { path: "/home/u/.vimrc".to_string() };
    assert_eq!(backup.target(), "/home/u/.zshrc");
    assert_eq!(create.target(), "/home/u/.zshrc");
    assert_eq!(restore.target(), "/home/u/.zshrc");
    assert_eq!(remove.target(), "/home/u/.vimrc");

    let mut failures = Vec::new();
    assert!(!is_held_back(&create, &failures));
    failures.push(Failure { target: backup.target(), reason: "disk full".to_string() });
    assert!(is_held_back(&create, &failures));
    assert!(is_held_back(&restore, &failures));
    assert!(!is_held_back(&remove, &failures));
    failures.push(Failure { target: "/home/u/.vimrc".to_string(), reason: "busy".to_string() });
    assert!(is_held_back(&remove, &failures));
}

#[test]
fn failures_on_disk_are_taken_note_of() {
    let mut fs = FsView::new();
    for name in [".zshrc", ".vimrc", ".gitconfig"] {
        fs.observe(&format!("/repo/work/{}", name), Node::File(Vec::new()));
    }
    let mut mgr =
        SymlinkManager::new("/repo".to_string(), "/home/u".to_string(), TrackingLedger::new());
    let files: Vec<String> =
        [".zshrc", ".vimrc", ".gitconfig"].iter().map(|s| s.to_string()).collect();
    let mut ops = mgr.activate(&mut fs, "work", &files, &Vec::new(), "s1");
    assert_eq!(mgr.tracking.symlinks.len(), 3);
    let failures = vec![
        Failure { target: "/home/u/.vimrc".to_string(), reason: "read-only".to_string() },
        Failure { target: "/home/u/.zshrc".to_string(), reason: "busy".to_string() },
        Failure { target: "/home/u/.other".to_string(), reason: "lost".to_string() },
    ];
    note_failures(&mut mgr, &mut ops, &failures);
    assert_eq!(
        ops,
        vec![
            op("/home/u/.zshrc", OperationStatus::Failed("busy".to_string())),
            op("/home/u/.vimrc", OperationStatus::Failed("read-only".to_string())),
            op("/home/u/.gitconfig", OperationStatus::Success),
        ]
    );
    assert_eq!(mgr.tracking.symlinks.len(), 1);
    assert_eq!(mgr.tracking.symlinks[0].target, "/home/u/.gitconfig");
    assert_eq!(mgr.tracking.active_profile, "work");
}
