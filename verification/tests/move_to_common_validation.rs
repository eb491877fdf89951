use dotstate::fsview::FsView;
use dotstate::fsview::Node;
use dotstate::manifest::ProfileManifest;
use dotstate::move_to_common_validation::check_path_hierarchy_conflicts;
use dotstate::move_to_common_validation::files_have_same_content;
use dotstate::move_to_common_validation::judge;
use dotstate::move_to_common_validation::nodes_have_same_content;
use dotstate::move_to_common_validation::validate_move_to_common;
use dotstate::move_to_common_validation::CompareError;
use dotstate::move_to_common_validation::MoveToCommonConflict;
use dotstate::move_to_common_validation::MoveToCommonValidation;

fn file(content: &[u8]) -> Node {
    Node::File(content.to_vec())
}

fn dir(names: &[&str]) -> Node {
    Node::Directory(names.iter().map(|s| s.to_string()).collect())
}

fn two_profiles(files_a: &[&str], files_b: &[&str]) -> ProfileManifest {
    let mut manifest = ProfileManifest::default();
    manifest.add_profile("profile_a".to_string(), None).unwrap();
    manifest.add_profile("profile_b".to_string(), None).unwrap();
    manifest
        .update_synced_files("profile_a", files_a.iter().map(|s| s.to_string()).collect())
        .unwrap();
    manifest
        .update_synced_files("profile_b", files_b.iter().map(|s| s.to_string()).collect())
        .unwrap();
    manifest
}

#[test]
fn test_files_have_same_content_identical() {
    let mut fs = FsView::new();
    fs.observe("file1.txt", file(b"identical content"));
    fs.observe("file2.txt", file(b"identical content"));
    assert!(files_have_same_content(&fs, "file1.txt", "file2.txt").unwrap());
}

#[test]
fn test_files_have_same_content_different() {
    let mut fs = FsView::new();
    fs.observe("file1.txt", file(b"content one"));
    fs.observe("file2.txt", file(b"content two"));
    assert!(!files_have_same_content(&fs, "file1.txt", "file2.txt").unwrap());
}

#[test]
fn test_path_hierarchy_conflicts_parent() {
    let conflicts = check_path_hierarchy_conflicts(
        "/repo",
        "source_profile",
        "test_profile",
        "foo/bar/config.toml",
        &vec!["foo/bar".to_string()],
    );
    assert_eq!(conflicts.len(), 1);
    match &conflicts[0] {
        MoveToCommonConflict::PathHierarchyConflict {
            profile_name,
            conflicting_path,
            is_parent,
        } => {
            assert_eq!(profile_name, "test_profile");
            assert_eq!(conflicting_path, "foo/bar");
            assert!(*is_parent);
        }
        _ => panic!("Expected PathHierarchyConflict"),
    }
}

#[test]
fn test_path_hierarchy_conflicts_child() {
    let conflicts = check_path_hierarchy_conflicts(
        "/repo",
        "source_profile",
        "test_profile",
        "foo/bar",
        &vec!["foo/bar/config.toml".to_string()],
    );
    assert_eq!(conflicts.len(), 1);
    match &conflicts[0] {
        MoveToCommonConflict::PathHierarchyConflict {
            profile_name,
            conflicting_path,
            is_parent,
        } => {
            assert_eq!(profile_name, "test_profile");
            assert_eq!(conflicting_path, "foo/bar/config.toml");
            assert!(!*is_parent);
        }
        _ => panic!("Expected PathHierarchyConflict"),
    }
}

#[test]
fn test_validate_move_to_common_no_conflicts() {
    let mut fs = FsView::new();
    fs.observe("/repo/profile_a/.zshrc", file(b"profile a content"));
    let mut manifest = ProfileManifest::default();
    manifest.add_profile("profile_a".to_string(), None).unwrap();
    manifest
        .update_synced_files("profile_a", vec![".zshrc".to_string()])
        .unwrap();

    let result = validate_move_to_common(&fs, &manifest, "/repo", "profile_a", ".zshrc");

    assert!(result.can_proceed);
    assert!(result.conflicts.is_empty());
    assert!(result.all_auto_resolvable);
}

#[test]
fn test_validate_move_to_common_same_content() {
    let mut fs = FsView::new();
    let content = b"identical content";
    fs.observe("/repo/profile_a/.tmux.conf", file(content));
    fs.observe("/repo/profile_b/.tmux.conf", file(content));
    let manifest = two_profiles(&[".tmux.conf"], &[".tmux.conf"]);

    let result = validate_move_to_common(&fs, &manifest, "/repo", "profile_a", ".tmux.conf");

    assert!(result.can_proceed);
    assert_eq!(result.conflicts.len(), 1);
    assert!(matches!(
        result.conflicts[0],
        MoveToCommonConflict::SameContentInProfile { .. }
    ));
    assert!(result.all_auto_resolvable);
    assert_eq!(result.profiles_to_cleanup, vec!["profile_b"]);
}

#[test]
fn test_validate_move_to_common_different_content() {
    let mut fs = FsView::new();
    fs.observe("/repo/profile_a/.tmux.conf", file(b"profile a content"));
    fs.observe("/repo/profile_b/.tmux.conf", file(b"profile b content"));
    let manifest = two_profiles(&[".tmux.conf"], &[".tmux.conf"]);

    let result = validate_move_to_common(&fs, &manifest, "/repo", "profile_a", ".tmux.conf");

    assert!(!result.can_proceed);
    assert_eq!(result.conflicts.len(), 1);
    assert!(matches!(
        result.conflicts[0],
        MoveToCommonConflict::DifferentContentInProfile { .. }
    ));
    assert!(!result.all_auto_resolvable);
    assert_eq!(
        result.conflicts[0],
        MoveToCommonConflict::DifferentContentInProfile {
            profile_name: "profile_b".to_string(),
            size_diff: Some((17, 17)),
        }
    );
    assert!(result.profiles_to_cleanup.is_empty());
}

#[test]
fn a_file_that_is_not_on_disk_moves_without_conflict() {
    let mut fs = FsView::new();
    fs.observe("/repo/profile_b/.tmux.conf", file(b"profile b content"));
    let manifest = two_profiles(&[".tmux.conf"], &[".tmux.conf"]);
    let result = validate_move_to_common(&fs, &manifest, "/repo", "profile_a", ".tmux.conf");
    assert!(result.can_proceed);
    assert!(result.conflicts.is_empty());
    assert!(result.all_auto_resolvable);
    assert!(result.profiles_to_cleanup.is_empty());
    let safe = MoveToCommonValidation::safe();
    assert!(safe.can_proceed && safe.all_auto_resolvable);
    assert!(safe.conflicts.is_empty() && safe.profiles_to_cleanup.is_empty());
}

#[test]
fn a_copy_that_is_listed_but_not_on_disk_counts_as_the_same() {
    let mut fs = FsView::new();
    fs.observe("/repo/profile_a/.tmux.conf", file(b"profile a content"));
    let manifest = two_profiles(&[".tmux.conf"], &[".tmux.conf"]);
    let result = validate_move_to_common(&fs, &manifest, "/repo", "profile_a", ".tmux.conf");
    assert!(result.can_proceed);
    assert_eq!(
        result.conflicts,
        vec![MoveToCommonConflict::SameContentInProfile { profile_name: "profile_b".to_string() }]
    );
    assert_eq!(result.profiles_to_cleanup, vec!["profile_b"]);
}

#[test]
fn hierarchy_conflicts_block_in_both_directions() {
    let mut fs = FsView::new();
    fs.observe("/repo/profile_a/.nvim/init.lua", file(b"x"));
    fs.observe("/repo/profile_b/.nvim", dir(&["init.lua"]));
    let manifest = two_profiles(&[".nvim/init.lua"], &[".nvim"]);
    let result = validate_move_to_common(&fs, &manifest, "/repo", "profile_a", ".nvim/init.lua");
    assert!(!result.can_proceed);
    assert!(!result.all_auto_resolvable);
    assert_eq!(
        result.conflicts,
        vec![MoveToCommonConflict::PathHierarchyConflict {
            profile_name: "profile_b".to_string(),
            conflicting_path: ".nvim".to_string(),
            is_parent: true,
        }]
    );

    let mut fs = FsView::new();
    fs.observe("/repo/profile_a/.nvim", dir(&["init.lua"]));
    fs.observe("/repo/profile_b/.nvim/init.lua", file(b"x"));
    let manifest = two_profiles(&[".nvim"], &[".nvim/init.lua"]);
    let result = validate_move_to_common(&fs, &manifest, "/repo", "profile_a", ".nvim");
    assert!(!result.can_proceed);
    assert_eq!(
        result.conflicts,
        vec![MoveToCommonConflict::PathHierarchyConflict {
            profile_name: "profile_b".to_string(),
            conflicting_path: ".nvim/init.lua".to_string(),
            is_parent: false,
        }]
    );
    assert!(result.profiles_to_cleanup.is_empty());
}

#[test]
fn a_profile_gives_the_conflict_of_its_copy_and_its_hierarchy_conflicts() {
    let mut fs = FsView::new();
    fs.observe("/repo/profile_a/conf/app", dir(&["a"]));
    fs.observe("/repo/profile_b/conf/app", dir(&["a"]));
    let manifest = two_profiles(&["conf/app"], &["conf/app/a", "conf/app", "conf"]);
    let result = validate_move_to_common(&fs, &manifest, "/repo", "profile_a", "conf/app");
    assert_eq!(
        result.conflicts,
        vec![
            MoveToCommonConflict::SameContentInProfile { profile_name: "profile_b".to_string() },
            MoveToCommonConflict::PathHierarchyConflict {
                profile_name: "profile_b".to_string(),
                conflicting_path: "conf/app/a".to_string(),
                is_parent: false,
            },
            MoveToCommonConflict::PathHierarchyConflict {
                profile_name: "profile_b".to_string(),
                conflicting_path: "conf".to_string(),
                is_parent: true,
            },
        ]
    );
    assert!(!result.can_proceed);
    assert!(!result.all_auto_resolvable);
    assert_eq!(result.profiles_to_cleanup, vec!["profile_b"]);
}

#[test]
fn directories_are_compared_by_the_names_of_their_entries() {
    let a = dir(&["x", "y"]);
    assert_eq!(nodes_have_same_content(&a, &dir(&["y", "x"])), Ok(true));
    assert_eq!(nodes_have_same_content(&a, &dir(&["x", "y", "x"])), Ok(true));
    assert_eq!(nodes_have_same_content(&a, &dir(&["x"])), Ok(false));
    assert_eq!(nodes_have_same_content(&a, &dir(&["x", "y", "z"])), Ok(false));
    assert_eq!(nodes_have_same_content(&a, &file(b"x")), Ok(false));
    assert_eq!(nodes_have_same_content(&file(b"x"), &a), Ok(false));
    assert_eq!(nodes_have_same_content(&file(b""), &file(b"")), Ok(true));
    assert_eq!(nodes_have_same_content(&file(b"ab"), &file(b"ac")), Ok(false));
    assert_eq!(nodes_have_same_content(&a, &Node::Missing), Err(CompareError::Unreadable));
    assert_eq!(
        nodes_have_same_content(&Node::Symlink("x".to_string()), &a),
        Err(CompareError::Unreadable)
    );
}

#[test]
fn a_copy_that_cannot_be_compared_counts_as_different() {
    let mut fs = FsView::new();
    fs.observe("/repo/profile_a/.tmux.conf", file(b"profile a content"));
    fs.observe("/repo/profile_b/.tmux.conf", Node::Symlink("/elsewhere".to_string()));
    let manifest = two_profiles(&[".tmux.conf"], &[".tmux.conf"]);
    let result = validate_move_to_common(&fs, &manifest, "/repo", "profile_a", ".tmux.conf");
    assert!(!result.can_proceed);
    assert_eq!(
        result.conflicts,
        vec![MoveToCommonConflict::DifferentContentInProfile {
            profile_name: "profile_b".to_string(),
            size_diff: None,
        }]
    );
}

#[test]
fn a_copy_that_cannot_be_read_counts_as_different() {
    let mut fs = FsView::new();
    fs.observe("/repo/profile_a/.tmux.conf", file(b"profile a content"));
    fs.observe("/repo/profile_b/.tmux.conf", Node::Unreadable);
    let manifest = two_profiles(&[".tmux.conf"], &[".tmux.conf"]);
    let result = validate_move_to_common(&fs, &manifest, "/repo", "profile_a", ".tmux.conf");
    assert!(!result.can_proceed);
    assert_eq!(
        result.conflicts,
        vec![MoveToCommonConflict::DifferentContentInProfile {
            profile_name: "profile_b".to_string(),
            size_diff: None,
        }]
    );
    assert_eq!(
        nodes_have_same_content(&Node::Unreadable, &Node::Unreadable),
        Err(CompareError::Unreadable)
    );
}

#[test]
fn the_verdict_follows_the_conflicts() {
    let same = |name: &str| MoveToCommonConflict::SameContentInProfile {
        profile_name: name.to_string(),
    };
    let verdict = judge(vec![same("b"), same("c")]);
    assert!(verdict.can_proceed && verdict.all_auto_resolvable);
    assert_eq!(verdict.profiles_to_cleanup, vec!["b", "c"]);
    let verdict = judge(vec![
        same("b"),
        MoveToCommonConflict::DifferentContentInProfile {
            profile_name: "c".to_string(),
            size_diff: None,
        },
        same("d"),
    ]);
    assert!(!verdict.can_proceed && !verdict.all_auto_resolvable);
    assert_eq!(verdict.profiles_to_cleanup, vec!["b", "d"]);
    assert_eq!(verdict.conflicts.len(), 3);
    let verdict = judge(Vec::new());
    assert!(verdict.can_proceed && verdict.all_auto_resolvable);
}

#[test]
fn the_paths_alone_decide_a_hierarchy_conflict() {
    let child = |path: &str| MoveToCommonConflict::PathHierarchyConflict {
        profile_name: "other".to_string(),
        conflicting_path: path.to_string(),
        is_parent: false,
    };
    let parent = |path: &str| MoveToCommonConflict::PathHierarchyConflict {
        profile_name: "other".to_string(),
        conflicting_path: path.to_string(),
        is_parent: true,
    };
    let conflicts = check_path_hierarchy_conflicts(
        "/repo",
        "mine",
        "other",
        ".config/nvim",
        &vec![
            ".config/nvim/init.lua".to_string(),
            ".config/other".to_string(),
            ".config".to_string(),
            ".config/nvim".to_string(),
        ],
    );
    assert_eq!(conflicts, vec![child(".config/nvim/init.lua"), parent(".config")]);
    let conflicts = check_path_hierarchy_conflicts(
        "/repo",
        "mine",
        "other",
        ".config/nvim.d",
        &vec![".config/nvim.d/init.lua".to_string(), ".config/nvim".to_string()],
    );
    assert_eq!(conflicts, vec![child(".config/nvim.d/init.lua")]);
    let conflicts = check_path_hierarchy_conflicts(
        "/repo",
        "mine",
        "other",
        "nvim/",
        &vec!["nvim/init.lua".to_string(), "nvim".to_string()],
    );
    assert_eq!(conflicts, vec![child("nvim/init.lua")]);
    let conflicts = check_path_hierarchy_conflicts("/repo", "mine", "other", ".nvim", &Vec::new());
    assert!(conflicts.is_empty());
}

#[test]
fn a_hierarchy_conflict_needs_no_directory_on_disk() {
    let mut fs = FsView::new();
    fs.observe("/repo/profile_a/.nvim/init.lua", file(b"x"));
    let manifest = two_profiles(&[".nvim/init.lua"], &[".nvim"]);
    let result = validate_move_to_common(&fs, &manifest, "/repo", "profile_a", ".nvim/init.lua");
    assert!(!result.can_proceed);
    assert_eq!(
        result.conflicts,
        vec![MoveToCommonConflict::PathHierarchyConflict {
            profile_name: "profile_b".to_string(),
            conflicting_path: ".nvim".to_string(),
            is_parent: true,
        }]
    );

    let mut fs = FsView::new();
    fs.observe("/repo/profile_a/.nvim", file(b"not a directory"));
    let manifest = two_profiles(&[".nvim"], &[".nvim/init.lua"]);
    let result = validate_move_to_common(&fs, &manifest, "/repo", "profile_a", ".nvim");
    assert!(!result.can_proceed);
    assert!(!result.all_auto_resolvable);
    assert_eq!(
        result.conflicts,
        vec![MoveToCommonConflict::PathHierarchyConflict {
            profile_name: "profile_b".to_string(),
            conflicting_path: ".nvim/init.lua".to_string(),
            is_parent: false,
        }]
    );
}

#[test]
fn a_path_that_is_common_already_cannot_be_moved_there() {
    let mut fs = FsView::new();
    fs.observe("/repo/personal/.gitignore", file(b"target/"));
    fs.observe("/repo/common/.gitignore", file(b"target/"));
    let mut manifest = ProfileManifest::default();
    manifest.add_profile("personal".to_string(), None).unwrap();
    manifest
        .update_synced_files("personal", vec![".gitignore".to_string()])
        .unwrap();
    manifest.common.synced_files = vec![".gitignore".to_string()];

    let result = validate_move_to_common(&fs, &manifest, "/repo", "personal", ".gitignore");
    assert!(!result.can_proceed);
    assert!(!result.all_auto_resolvable);
    assert_eq!(result.conflicts, vec![MoveToCommonConflict::AlreadyInCommon]);
    assert!(result.profiles_to_cleanup.is_empty());

    manifest.add_profile("work".to_string(), None).unwrap();
    manifest
        .update_synced_files("work", vec![".gitignore".to_string()])
        .unwrap();
    fs.observe("/repo/work/.gitignore", file(b"target/"));
    let result = validate_move_to_common(&fs, &manifest, "/repo", "personal", ".gitignore");
    assert!(!result.can_proceed);
    assert_eq!(
        result.conflicts,
        vec![
            MoveToCommonConflict::AlreadyInCommon,
            MoveToCommonConflict::SameContentInProfile { profile_name: "work".to_string() },
        ]
    );
    assert_eq!(result.profiles_to_cleanup, vec!["work"]);

    manifest.common.synced_files = vec![".gitconfig".to_string()];
    let result = validate_move_to_common(&fs, &manifest, "/repo", "personal", ".gitignore");
    assert!(result.can_proceed);

    let verdict = judge(vec![MoveToCommonConflict::AlreadyInCommon]);
    assert!(!verdict.can_proceed && !verdict.all_auto_resolvable);
    assert!(verdict.profiles_to_cleanup.is_empty());
}
