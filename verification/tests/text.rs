use dotstate::fsview::FsView;
use dotstate::fsview::Node;
use dotstate::providers::GitHubProvider;
use dotstate::providers::GitHubRepo;
use dotstate::providers::GitProvider;
use dotstate::providers::LocalProvider;
use dotstate::text::calculate_cursor_x;
use dotstate::text::clamp_cursor_position;
use dotstate::text::truncate_with_ellipsis;
use dotstate::text_input::handle_backspace;
use dotstate::text_input::handle_char_insertion;
use dotstate::text_input::handle_cursor_movement;
use dotstate::text_input::handle_delete;
use dotstate::text_input::CursorKey;

#[test]
fn the_cursor_stays_within_text_and_area() {
    assert_eq!(clamp_cursor_position("hello", 3), 3);
    assert_eq!(clamp_cursor_position("hello", 9), 5);
    assert_eq!(clamp_cursor_position("h\u{e9}", 9), 2);
    assert_eq!(calculate_cursor_x("hello", 3, 80), 3);
    assert_eq!(calculate_cursor_x("hello", 9, 80), 5);
    assert_eq!(calculate_cursor_x("hello", 4, 2), 2);
    assert_eq!(calculate_cursor_x("", 4, 2), 0);
}

#[test]
fn long_text_is_cut_with_three_dots() {
    assert_eq!(truncate_with_ellipsis("hello", 5), "hello");
    assert_eq!(truncate_with_ellipsis("hello world", 8), "hello...");
    assert_eq!(truncate_with_ellipsis("hello", 3), "...");
    assert_eq!(truncate_with_ellipsis("hello", 1), "...");
    assert_eq!(truncate_with_ellipsis("", 0), "");
    assert_eq!(truncate_with_ellipsis("h\u{e9}llo w\u{f6}rld", 7), "h\u{e9}ll...");
}

#[test]
fn characters_are_typed_at_the_cursor() {
    let mut text = String::from("helo");
    let mut cursor = 3;
    handle_char_insertion(&mut text, &mut cursor, 'l');
    assert_eq!((text.as_str(), cursor), ("hello", 4));
    handle_char_insertion(&mut text, &mut cursor, '\n');
    assert_eq!((text.as_str(), cursor), ("hello", 4));
    handle_char_insertion(&mut text, &mut cursor, '\u{e9}');
    assert_eq!((text.as_str(), cursor), ("hello", 4));
    handle_char_insertion(&mut text, &mut cursor, '\u{7f}');
    assert_eq!((text.as_str(), cursor), ("hello", 4));
    cursor = 40;
    handle_char_insertion(&mut text, &mut cursor, '!');
    assert_eq!((text.as_str(), cursor), ("hello!", 6));
    cursor = 0;
    handle_char_insertion(&mut text, &mut cursor, ' ');
    assert_eq!((text.as_str(), cursor), (" hello!", 1));
    let mut wide = String::from("\u{e9}\u{e9}");
    let mut at = 1;
    handle_char_insertion(&mut wide, &mut at, '~');
    assert_eq!((wide.as_str(), at), ("\u{e9}~\u{e9}", 2));
}

#[test]
fn the_cursor_moves_by_key() {
    let mut cursor = 2;
    handle_cursor_movement("hello", &mut cursor, CursorKey::Left);
    assert_eq!(cursor, 1);
    handle_cursor_movement("hello", &mut cursor, CursorKey::Home);
    assert_eq!(cursor, 0);
    handle_cursor_movement("hello", &mut cursor, CursorKey::Left);
    assert_eq!(cursor, 0);
    handle_cursor_movement("hello", &mut cursor, CursorKey::End);
    assert_eq!(cursor, 5);
    handle_cursor_movement("hello", &mut cursor, CursorKey::Right);
    assert_eq!(cursor, 5);
    handle_cursor_movement("hello", &mut cursor, CursorKey::Left);
    handle_cursor_movement("hello", &mut cursor, CursorKey::Right);
    assert_eq!(cursor, 5);
    handle_cursor_movement("hello", &mut cursor, CursorKey::Other);
    assert_eq!(cursor, 5);
}

#[test]
fn characters_are_deleted_before_and_at_the_cursor() {
    let mut text = String::from("hello");
    let mut cursor = 5;
    handle_backspace(&mut text, &mut cursor);
    assert_eq!((text.as_str(), cursor), ("hell", 4));
    cursor = 1;
    handle_backspace(&mut text, &mut cursor);
    assert_eq!((text.as_str(), cursor), ("ell", 0));
    handle_backspace(&mut text, &mut cursor);
    assert_eq!((text.as_str(), cursor), ("ell", 0));
    cursor = 7;
    handle_backspace(&mut text, &mut cursor);
    assert_eq!((text.as_str(), cursor), ("ell", 6));
    cursor = 1;
    handle_delete(&mut text, &mut cursor);
    assert_eq!((text.as_str(), cursor), ("el", 1));
    cursor = 2;
    handle_delete(&mut text, &mut cursor);
    assert_eq!((text.as_str(), cursor), ("el", 2));
    cursor = 0;
    handle_delete(&mut text, &mut cursor);
    assert_eq!((text.as_str(), cursor), ("l", 0));
}

#[test]
fn providers_describe_themselves() {
    let local = LocalProvider { remote_path: Some("/srv/dotfiles.git".to_string()) };
    assert_eq!(local.id(), "local");
    assert_eq!(local.display_name(), "Local");
    assert_eq!(local.get_remote_url("me", "dotfiles"), "/srv/dotfiles.git");
    assert_eq!(local.authenticate(), "local-user");
    assert_eq!(
        local.get_setup_instructions(),
        "Local setup: Enter path to store your dotfiles locally."
    );
    let info = local.repo_info("dotfiles");
    assert_eq!(info.name, "dotfiles");
    assert_eq!(info.clone_url, "/srv/dotfiles.git");
    assert_eq!(info.default_branch, "main");
    let mut fs = FsView::new();
    assert!(!local.repo_exists(&fs));
    assert!(local.needs_init(&fs));
    fs.observe("/srv/dotfiles.git", Node::Directory(Vec::new()));
    assert!(local.repo_exists(&fs));
    assert!(!local.needs_init(&fs));

    let none = LocalProvider { remote_path: None };
    assert_eq!(none.get_remote_url("me", "dotfiles"), "");
    assert_eq!(none.repo_info("dotfiles").clone_url, "");
    assert!(!none.repo_exists(&fs));
    assert!(!none.needs_init(&fs));

    let github = GitHubProvider { token: "tok".to_string() };
    assert_eq!(github.id(), "github");
    assert_eq!(github.display_name(), "GitHub");
    assert_eq!(
        github.get_remote_url("me", "dotfiles"),
        "https://tok@github.com/me/dotfiles.git"
    );
    assert!(github.get_setup_instructions().contains("Personal Access Token"));
    let repo = GitHubRepo {
        name: "dotfiles".to_string(),
        full_name: "me/dotfiles".to_string(),
        default_branch: "trunk".to_string(),
        clone_url: "https://github.com/me/dotfiles.git".to_string(),
    };
    let info = repo.info();
    assert_eq!(info.name, "dotfiles");
    assert_eq!(info.default_branch, "trunk");
    assert_eq!(info.clone_url, "https://github.com/me/dotfiles.git");
}

#[test]
fn the_view_of_the_file_system_keeps_what_was_seen_and_planned() {
    let mut fs = FsView::new();
    assert_eq!(fs.node_at("/a"), Node::Missing);
    assert!(!fs.is_present("/a"));
    fs.observe("/a", Node::File(vec![1, 2]));
    fs.observe("/d", Node::Directory(vec!["x".to_string()]));
    assert!(fs.is_present("/a"));
    assert!(fs.is_directory("/d"));
    assert!(!fs.is_directory("/a"));
    fs.observe_backup("/a", "/backup/a");
    assert_eq!(fs.latest_backup("/a"), Some("/backup/a".to_string()));
    assert_eq!(fs.node_at("/a"), Node::File(vec![1, 2]));
    fs.observe("/a", Node::Missing);
    assert_eq!(fs.latest_backup("/a"), Some("/backup/a".to_string()));
    assert!(fs.planned_actions().is_empty());
    fs.observe("/backup/a", Node::File(vec![9]));
    fs.restore_backup("/a", "/backup/a");
    assert_eq!(fs.node_at("/a"), Node::File(vec![9]));
    assert_eq!(fs.node_at("/backup/a"), Node::Missing);
    assert_eq!(fs.latest_backup("/a"), None);
    fs.create_symlink("/src", "/link");
    fs.remove_symlink("/link");
    assert_eq!(fs.node_at("/link"), Node::Missing);
    assert_eq!(fs.planned_actions().len(), 3);
}
