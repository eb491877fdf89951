use dotstate::fsview::FsAction;
use dotstate::fsview::FsView;
use dotstate::fsview::Node;
use dotstate::ledger::SymlinkRecord;
use dotstate::ledger::SymlinkScope;
use dotstate::ledger::TrackingLedger;
use dotstate::symlink_manager::decide_link_for;
use dotstate::symlink_manager::decide_unlink_for;
use dotstate::symlink_manager::find_operation;
use dotstate::symlink_manager::tally;
use dotstate::symlink_manager::unlink_record;
use dotstate::symlink_manager::LinkDecision;
use dotstate::symlink_manager::OperationStatus;
use dotstate::symlink_manager::SymlinkManager;
use dotstate::symlink_manager::SymlinkOperation;
use dotstate::symlink_manager::UnlinkDecision;

fn strings(items: &[&str]) -> Vec<String> {
    items.iter().map(|s| s.to_string()).collect()
}

fn file(content: &str) -> Node {
    Node::File(content.as_bytes().to_vec())
}

fn link(dest: &str) -> Node {
    Node::Symlink(dest.to_string())
}

fn skipped(reason: &str) -> OperationStatus {
    OperationStatus::Skipped(reason.to_string())
}

fn failed(reason: &str) -> OperationStatus {
    OperationStatus::Failed(reason.to_string())
}

fn work_repo() -> FsView {
    let mut fs = FsView::new();
    fs.observe("/repo/work/.zshrc", file("zsh of work"));
    fs.observe("/repo/work/.gitconfig", file("git of work"));
    fs
}

fn manager(backup_enabled: bool) -> SymlinkManager {
    SymlinkManager::new_with_backup(
        "/repo".to_string(),
        "/home/u".to_string(),
        TrackingLedger::new(),
        backup_enabled,
    )
}

#[test]
fn activate_then_deactivate_a_profile() {
    let mut fs = work_repo();
    fs.observe("/home/u/.zshrc", file("my own zshrc"));
    let mut mgr = manager(true);
    assert_eq!(mgr.backup_root, "/home/u/.dotstate-backups");

    let ops = mgr.activate(&mut fs, "work", &strings(&[".zshrc", ".gitconfig"]), &Vec::new(), "s1");
    assert_eq!(
        ops,
        vec![
            SymlinkOperation { target: "/home/u/.zshrc".to_string(), status: OperationStatus::Success },
            SymlinkOperation {
                target: "/home/u/.gitconfig".to_string(),
                status: OperationStatus::Success
            },
        ]
    );
    assert_eq!(mgr.tracking.active_profile, "work");
    assert_eq!(
        mgr.tracking.symlinks,
        vec![
            SymlinkRecord {
                source: "/repo/work/.zshrc".to_string(),
                target: "/home/u/.zshrc".to_string(),
                scope: SymlinkScope::Profile("work".to_string()),
            },
            SymlinkRecord {
                source: "/repo/work/.gitconfig".to_string(),
                target: "/home/u/.gitconfig".to_string(),
                scope: SymlinkScope::Profile("work".to_string()),
            },
        ]
    );
    assert_eq!(fs.node_at("/home/u/.zshrc"), link("/repo/work/.zshrc"));
    assert_eq!(fs.node_at("/home/u/.gitconfig"), link("/repo/work/.gitconfig"));
    assert_eq!(fs.node_at("/home/u/.dotstate-backups/s1/.zshrc"), file("my own zshrc"));
    assert_eq!(
        fs.latest_backup("/home/u/.zshrc"),
        Some("/home/u/.dotstate-backups/s1/.zshrc".to_string())
    );
    assert_eq!(
        fs.planned_actions(),
        vec![
            FsAction::MoveToBackup {
                target: "/home/u/.zshrc".to_string(),
                location: "/home/u/.dotstate-backups/s1/.zshrc".to_string(),
            },
            FsAction::CreateSymlink {
                source: "/repo/work/.zshrc".to_string(),
                target: "/home/u/.zshrc".to_string(),
            },
            FsAction::CreateSymlink {
                source: "/repo/work/.gitconfig".to_string(),
                target: "/home/u/.gitconfig".to_string(),
            },
        ]
    );

    let ops = mgr.deactivate(&mut fs, "work", true);
    assert_eq!(ops.len(), 2);
    assert!(ops.iter().all(|op| op.status == OperationStatus::Success));
    assert_eq!(ops[0].target, "/home/u/.zshrc");
    assert_eq!(ops[1].target, "/home/u/.gitconfig");
    assert!(mgr.tracking.symlinks.is_empty());
    assert_eq!(mgr.tracking.active_profile, "");
    assert_eq!(fs.node_at("/home/u/.zshrc"), file("my own zshrc"));
    assert_eq!(fs.node_at("/home/u/.gitconfig"), Node::Missing);
    assert_eq!(fs.node_at("/home/u/.dotstate-backups/s1/.zshrc"), Node::Missing);
    assert_eq!(fs.latest_backup("/home/u/.zshrc"), None);
}

#[test]
fn a_second_activation_skips_every_file() {
    let mut fs = work_repo();
    fs.observe("/repo/common/.gitignore", file("ignore"));
    fs.observe("/home/u/.zshrc", file("my own zshrc"));
    let mut mgr = manager(true);
    let files = strings(&[".zshrc", ".gitconfig"]);
    let common = strings(&[".gitignore"]);
    let first = mgr.activate(&mut fs, "work", &files, &common, "s1");
    assert!(first.iter().all(|op| op.status == OperationStatus::Success));
    let ledger = mgr.tracking.clone();
    let planned = fs.planned_actions().len();

    let second = mgr.activate(&mut fs, "work", &files, &common, "s2");
    assert_eq!(second.len(), 3);
    for op in &second {
        assert_eq!(op.status, skipped("already correct"));
    }
    assert_eq!(mgr.tracking.symlinks, ledger.symlinks);
    assert_eq!(mgr.tracking.active_profile, ledger.active_profile);
    assert_eq!(fs.planned_actions().len(), planned);
}

#[test]
fn a_file_in_the_way_is_left_alone_without_backups() {
    let mut fs = work_repo();
    fs.observe("/home/u/.zshrc", file("my own zshrc"));
    let mut mgr = manager(false);
    let ops = mgr.activate(&mut fs, "work", &strings(&[".zshrc", ".gitconfig"]), &Vec::new(), "s1");
    assert_eq!(ops[0].target, "/home/u/.zshrc");
    assert_eq!(ops[0].status, failed("would overwrite existing file"));
    assert_eq!(ops[1].status, OperationStatus::Success);
    assert_eq!(fs.node_at("/home/u/.zshrc"), file("my own zshrc"));
    assert_eq!(fs.latest_backup("/home/u/.zshrc"), None);
    assert_eq!(
        fs.planned_actions(),
        vec![FsAction::CreateSymlink {
            source: "/repo/work/.gitconfig".to_string(),
            target: "/home/u/.gitconfig".to_string(),
        }]
    );
    assert_eq!(mgr.tracking.symlinks.len(), 1);
    assert_eq!(mgr.tracking.symlinks[0].target, "/home/u/.gitconfig");
    assert_eq!(mgr.tracking.active_profile, "work");
}

#[test]
fn a_directory_or_foreign_link_in_the_way_fails_without_backups() {
    let mut fs = work_repo();
    fs.observe("/home/u/.zshrc", Node::Directory(strings(&["a"])));
    fs.observe("/home/u/.gitconfig", link("/somewhere/else"));
    let mut mgr = manager(false);
    let ops = mgr.activate(&mut fs, "work", &strings(&[".zshrc", ".gitconfig"]), &Vec::new(), "s1");
    assert_eq!(ops[0].status, failed("would overwrite existing file"));
    assert_eq!(ops[1].status, failed("would overwrite existing file"));
    assert_eq!(fs.node_at("/home/u/.zshrc"), Node::Directory(strings(&["a"])));
    assert_eq!(fs.node_at("/home/u/.gitconfig"), link("/somewhere/else"));
    assert!(fs.planned_actions().is_empty());
    assert!(mgr.tracking.symlinks.is_empty());
}

#[test]
fn a_missing_source_fails_and_the_rest_goes_on() {
    let mut fs = FsView::new();
    fs.observe("/repo/work/.gitconfig", file("git of work"));
    let mut mgr = manager(true);
    let ops = mgr.activate(&mut fs, "work", &strings(&[".zshrc", ".gitconfig"]), &Vec::new(), "s1");
    assert_eq!(ops[0].status, failed("source missing in repository"));
    assert_eq!(ops[1].status, OperationStatus::Success);
    assert_eq!(fs.node_at("/home/u/.zshrc"), Node::Missing);
    let counts = tally(&ops);
    assert_eq!((counts.created, counts.skipped, counts.failed), (1, 0, 1));
}

#[test]
fn a_link_that_is_already_there_gets_its_record() {
    let mut fs = work_repo();
    fs.observe("/home/u/.zshrc", link("/repo/work/.zshrc"));
    let mut mgr = manager(false);
    let ops = mgr.activate_profile(&mut fs, "work", &strings(&[".zshrc"]), "s1");
    assert_eq!(ops[0].status, skipped("already correct"));
    assert_eq!(mgr.tracking.symlinks.len(), 1);
    assert_eq!(mgr.tracking.symlinks[0].source, "/repo/work/.zshrc");
    assert!(fs.planned_actions().is_empty());
}

#[test]
fn common_files_come_after_the_profiles_files() {
    let mut fs = work_repo();
    fs.observe("/repo/common/.gitignore", file("ignore"));
    let mut mgr = manager(true);
    let ops = mgr.activate(&mut fs, "work", &strings(&[".zshrc"]), &strings(&[".gitignore"]), "s1");
    assert_eq!(ops.len(), 2);
    assert_eq!(ops[0].target, "/home/u/.zshrc");
    assert_eq!(ops[1].target, "/home/u/.gitignore");
    assert_eq!(mgr.tracking.symlinks[1].scope, SymlinkScope::Common);
    assert_eq!(mgr.tracking.symlinks[1].source, "/repo/common/.gitignore");

    let mut other = manager(true);
    let ops = other.activate_common_files(&mut fs, &strings(&[".gitignore"]), "s1");
    assert_eq!(ops[0].status, skipped("already correct"));
    assert_eq!(other.tracking.active_profile, "");
}

#[test]
fn a_file_both_common_and_in_the_profile_is_not_linked_twice_in_silence() {
    let mut fs = FsView::new();
    fs.observe("/repo/personal/.gitignore", file("mine"));
    fs.observe("/repo/common/.gitignore", file("shared"));
    let mut mgr = manager(false);
    let files = strings(&[".gitignore"]);
    let ops = mgr.activate(&mut fs, "personal", &files, &files, "s1");
    assert_eq!(ops[0].status, OperationStatus::Success);
    assert_eq!(ops[1].status, failed("would overwrite existing file"));
    assert_eq!(fs.node_at("/home/u/.gitignore"), link("/repo/personal/.gitignore"));
    assert_eq!(mgr.tracking.symlinks.len(), 1);
}

#[test]
fn deactivate_leaves_what_is_not_ours() {
    let mut fs = work_repo();
    let mut mgr = manager(true);
    let files = strings(&[".zshrc", ".gitconfig", ".vimrc"]);
    fs.observe("/repo/work/.vimrc", file("vim"));
    mgr.activate(&mut fs, "work", &files, &Vec::new(), "s1");
    fs.observe("/home/u/.zshrc", link("/somewhere/else"));
    fs.observe("/home/u/.gitconfig", Node::Missing);
    let planned = fs.planned_actions().len();

    let ops = mgr.deactivate(&mut fs, "work", true);
    assert_eq!(ops[0].status, skipped("not our symlink"));
    assert_eq!(ops[1].status, skipped("already absent"));
    assert_eq!(ops[2].status, OperationStatus::Success);
    assert_eq!(fs.node_at("/home/u/.zshrc"), link("/somewhere/else"));
    assert_eq!(fs.node_at("/home/u/.vimrc"), Node::Missing);
    assert_eq!(
        fs.planned_actions()[planned..].to_vec(),
        vec![FsAction::RemoveSymlink { path: "/home/u/.vimrc".to_string() }]
    );
    assert!(mgr.tracking.symlinks.is_empty());
    let counts = tally(&ops);
    assert_eq!((counts.created, counts.skipped, counts.failed), (1, 2, 0));
}

#[test]
fn deactivate_touches_the_profile_and_common_only() {
    let mut fs = FsView::new();
    let mut ledger = TrackingLedger::new();
    ledger.active_profile = "home".to_string();
    for (name, scope) in [
        ("a", SymlinkScope::Profile("work".to_string())),
        ("b", SymlinkScope::Profile("home".to_string())),
        ("c", SymlinkScope::Common),
    ] {
        let source = format!("/repo/x/{}", name);
        let target = format!("/home/u/{}", name);
        fs.observe(&target, link(&source));
        ledger.record(SymlinkRecord { source, target, scope });
    }
    let mut mgr = SymlinkManager::new("/repo".to_string(), "/home/u".to_string(), ledger);
    assert!(mgr.backup_enabled);
    let ops = mgr.deactivate(&mut fs, "work", false);
    assert_eq!(ops.len(), 2);
    assert_eq!(ops[0].target, "/home/u/a");
    assert_eq!(ops[1].target, "/home/u/c");
    assert_eq!(mgr.tracking.symlinks.len(), 1);
    assert_eq!(mgr.tracking.symlinks[0].target, "/home/u/b");
    assert_eq!(mgr.tracking.active_profile, "home");
    assert_eq!(fs.node_at("/home/u/b"), link("/repo/x/b"));
}

#[test]
fn without_restore_the_backup_stays_where_it_is() {
    let mut fs = work_repo();
    fs.observe("/home/u/.zshrc", file("my own zshrc"));
    let mut mgr = manager(true);
    mgr.activate(&mut fs, "work", &strings(&[".zshrc"]), &Vec::new(), "s1");
    let ops = mgr.deactivate(&mut fs, "work", false);
    assert_eq!(ops[0].status, OperationStatus::Success);
    assert_eq!(fs.node_at("/home/u/.zshrc"), Node::Missing);
    assert_eq!(fs.node_at("/home/u/.dotstate-backups/s1/.zshrc"), file("my own zshrc"));
}

#[test]
fn one_record_is_unlinked_by_what_stands_at_its_target() {
    let record = SymlinkRecord {
        source: "/repo/work/a".to_string(),
        target: "/home/u/a".to_string(),
        scope: SymlinkScope::Common,
    };
    let mut fs = FsView::new();
    fs.observe("/home/u/a", file("not a link"));
    let op = unlink_record(&mut fs, &record, true, &TrackingLedger::new());
    assert_eq!(op.status, skipped("not our symlink"));
    assert_eq!(fs.node_at("/home/u/a"), file("not a link"));
    assert!(fs.planned_actions().is_empty());
}

#[test]
fn decisions_follow_source_and_target() {
    let there = file("x");
    let source = "/repo/work/a";
    assert_eq!(
        decide_link_for(&Node::Missing, &Node::Missing, source, true),
        LinkDecision::SourceMissing
    );
    assert_eq!(decide_link_for(&there, &Node::Missing, source, false), LinkDecision::Create);
    assert_eq!(decide_link_for(&there, &link(source), source, false), LinkDecision::AlreadyCorrect);
    assert_eq!(
        decide_link_for(&there, &link("/other"), source, true),
        LinkDecision::BackupThenCreate
    );
    assert_eq!(
        decide_link_for(&there, &link("/other"), source, false),
        LinkDecision::RefuseOverwrite
    );
    assert_eq!(decide_link_for(&there, &file("y"), source, true), LinkDecision::BackupThenCreate);
    assert_eq!(
        decide_link_for(&there, &Node::Directory(Vec::new()), source, false),
        LinkDecision::RefuseOverwrite
    );
    assert_eq!(decide_unlink_for(&Node::Missing, source), UnlinkDecision::AlreadyAbsent);
    assert_eq!(decide_unlink_for(&link(source), source), UnlinkDecision::Remove);
    assert_eq!(decide_unlink_for(&link("/other"), source), UnlinkDecision::NotOurs);
    assert_eq!(decide_unlink_for(&file("x"), source), UnlinkDecision::NotOurs);
}

#[test]
fn a_failure_on_disk_is_taken_back() {
    let mut fs = work_repo();
    let mut mgr = manager(true);
    let mut ops = mgr.activate(&mut fs, "work", &strings(&[".zshrc", ".gitconfig"]), &Vec::new(), "s1");
    assert_eq!(find_operation(&ops, "/home/u/.gitconfig"), Some(1));
    assert_eq!(find_operation(&ops, "/home/u/.bashrc"), None);

    mgr.note_failure(&mut ops, "/home/u/.gitconfig", "permission denied");
    assert_eq!(ops[0].status, OperationStatus::Success);
    assert_eq!(ops[1].status, failed("permission denied"));
    assert_eq!(mgr.tracking.symlinks.len(), 1);
    assert_eq!(mgr.tracking.symlinks[0].target, "/home/u/.zshrc");

    mgr.note_failure(&mut ops, "/home/u/.bashrc", "no such file");
    assert_eq!(ops.len(), 2);
    assert_eq!(mgr.tracking.symlinks.len(), 1);
}

#[test]
fn link_file_works_on_one_file() {
    let mut fs = work_repo();
    let mut mgr = manager(true);
    let scope = SymlinkScope::Profile("work".to_string());
    let op = mgr.link_file(&mut fs, ".zshrc", &scope, "s1");
    assert_eq!(op.target, "/home/u/.zshrc");
    assert_eq!(op.status, OperationStatus::Success);
    assert_eq!(mgr.tracking.active_profile, "");
    assert_eq!(mgr.tracking.symlinks.len(), 1);
}

#[test]
fn a_backup_is_not_taken_from_a_place_that_the_ledger_tracks() {
    let mut fs = FsView::new();
    let mut ledger = TrackingLedger::new();
    for name in ["a", "b"] {
        let source = format!("/repo/work/{}", name);
        let target = format!("/home/u/{}", name);
        fs.observe(&target, link(&source));
        ledger.record(SymlinkRecord {
            source,
            target,
            scope: SymlinkScope::Profile("work".to_string()),
        });
    }
    fs.observe("/home/u/b", link("/somewhere/else"));
    fs.observe_backup("/home/u/a", "/home/u/b");
    let mut mgr = SymlinkManager::new("/repo".to_string(), "/home/u".to_string(), ledger);
    let ops = mgr.deactivate(&mut fs, "work", true);
    assert_eq!(ops[0].status, OperationStatus::Success);
    assert_eq!(ops[1].status, skipped("not our symlink"));
    assert_eq!(fs.node_at("/home/u/a"), Node::Missing);
    assert_eq!(fs.node_at("/home/u/b"), link("/somewhere/else"));
    assert_eq!(
        fs.planned_actions(),
        vec![FsAction::RemoveSymlink { path: "/home/u/a".to_string() }]
    );
}

#[test]
fn the_latest_session_with_a_backup_is_noted() {
    let mgr = manager(true);
    let sessions = strings(&["20240101-000000", "20240301-120000", "20240201-000000", "20250101-000000"]);
    let mut fs = FsView::new();
    fs.observe("/home/u/.dotstate-backups/20240101-000000/.zshrc", file("first"));
    fs.observe("/home/u/.dotstate-backups/20240301-120000/.zshrc", file("third"));
    fs.observe("/home/u/.dotstate-backups/20240201-000000/.zshrc", file("second"));
    fs.observe("/home/u/.dotstate-backups/20250101-000000/.vimrc", file("other file"));
    let chosen = mgr.note_latest_backup(&mut fs, &sessions, "/home/u/.zshrc", ".zshrc");
    assert_eq!(chosen, Some(1));
    assert_eq!(
        fs.latest_backup("/home/u/.zshrc"),
        Some("/home/u/.dotstate-backups/20240301-120000/.zshrc".to_string())
    );
    let chosen = mgr.note_latest_backup(&mut fs, &sessions, "/home/u/.bashrc", ".bashrc");
    assert_eq!(chosen, None);
    assert_eq!(fs.latest_backup("/home/u/.bashrc"), None);
    assert_eq!(mgr.note_latest_backup(&mut fs, &Vec::new(), "/home/u/.zshrc", ".zshrc"), None);
    assert!(fs.planned_actions().is_empty());
}

#[test]
fn a_target_is_named_by_its_path_below_the_home_directory() {
    let mgr = manager(true);
    assert_eq!(mgr.relative_to_home("/home/u/.zshrc"), Some(".zshrc".to_string()));
    assert_eq!(mgr.relative_to_home("/home/u/.config/nvim"), Some(".config/nvim".to_string()));
    assert_eq!(mgr.relative_to_home("/home/u/"), Some(String::new()));
    assert_eq!(mgr.relative_to_home("/home/u"), None);
    assert_eq!(mgr.relative_to_home("/home/ux/.zshrc"), None);
    assert_eq!(mgr.relative_to_home("/elsewhere/.zshrc"), None);
}

#[test]
fn what_cannot_be_read_stands_in_the_way_like_a_file() {
    let mut fs = work_repo();
    fs.observe("/home/u/.zshrc", Node::Unreadable);
    let mut mgr = manager(false);
    let ops = mgr.activate(&mut fs, "work", &strings(&[".zshrc"]), &Vec::new(), "s1");
    assert_eq!(ops[0].status, failed("would overwrite existing file"));
    assert_eq!(fs.node_at("/home/u/.zshrc"), Node::Unreadable);
    assert!(fs.planned_actions().is_empty());

    let mut mgr = manager(true);
    let ops = mgr.activate(&mut fs, "work", &strings(&[".zshrc"]), &Vec::new(), "s1");
    assert_eq!(ops[0].status, OperationStatus::Success);
    assert_eq!(fs.node_at("/home/u/.dotstate-backups/s1/.zshrc"), Node::Unreadable);

    fs.observe("/home/u/.zshrc", Node::Unreadable);
    let ops = mgr.deactivate(&mut fs, "work", true);
    assert_eq!(ops[0].status, skipped("not our symlink"));
    assert_eq!(fs.node_at("/home/u/.zshrc"), Node::Unreadable);
}

#[test]
fn a_round_trip_gives_back_what_stood_at_the_targets() {
    let mut fs = work_repo();
    fs.observe("/repo/common/.gitignore", file("ignore"));
    fs.observe("/home/u/.zshrc", file("my own zshrc"));
    fs.observe("/home/u/.gitignore", link("/somewhere/else"));
    let mut mgr = manager(true);
    let ops = mgr.activate(
        &mut fs,
        "work",
        &strings(&[".zshrc", ".gitconfig"]),
        &strings(&[".gitignore"]),
        "s1",
    );
    assert!(ops.iter().all(|op| op.status == OperationStatus::Success));
    assert_eq!(mgr.tracking.symlinks.len(), 3);
    assert_eq!(fs.node_at("/home/u/.gitignore"), link("/repo/common/.gitignore"));

    let ops = mgr.deactivate(&mut fs, "work", true);
    assert_eq!(ops.len(), 3);
    assert!(ops.iter().all(|op| op.status == OperationStatus::Success));
    assert!(mgr.tracking.symlinks.is_empty());
    assert_eq!(mgr.tracking.active_profile, "");
    assert_eq!(fs.node_at("/home/u/.zshrc"), file("my own zshrc"));
    assert_eq!(fs.node_at("/home/u/.gitconfig"), Node::Missing);
    assert_eq!(fs.node_at("/home/u/.gitignore"), link("/somewhere/else"));
    assert_eq!(fs.node_at("/home/u/.dotstate-backups/s1/.zshrc"), Node::Missing);
    assert_eq!(fs.latest_backup("/home/u/.zshrc"), None);
}
