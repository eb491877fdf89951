use dotstate::manifest::ManifestError;
use dotstate::manifest::ProfileDir;
use dotstate::manifest::ProfileManifest;

fn strings(items: &[&str]) -> Vec<String> {
    items.iter().map(|s| s.to_string()).collect()
}

fn dir(name: &str, files: &[&str]) -> ProfileDir {
    ProfileDir { name: name.to_string(), files: strings(files) }
}

#[test]
fn a_new_manifest_is_empty() {
    let manifest = ProfileManifest::new();
    assert!(manifest.profiles.is_empty());
    assert!(manifest.get_common_files().is_empty());
    assert!(ProfileManifest::default().profiles.is_empty());
    assert_eq!(manifest.find_profile("work"), None);
    assert!(manifest.profile_files("work").is_none());
}

#[test]
fn a_profile_is_added_once() {
    let mut manifest = ProfileManifest::new();
    assert_eq!(manifest.add_profile("work".to_string(), Some("the office".to_string())), Ok(()));
    assert_eq!(manifest.add_profile("home".to_string(), None), Ok(()));
    assert_eq!(
        manifest.add_profile("work".to_string(), None),
        Err(ManifestError::DuplicateName)
    );
    assert_eq!(manifest.profiles.len(), 2);
    assert_eq!(manifest.profiles[0].name, "work");
    assert_eq!(manifest.profiles[0].description, Some("the office".to_string()));
    assert!(manifest.profiles[0].synced_files.is_empty());
    assert_eq!(manifest.profiles[1].name, "home");
    assert_eq!(manifest.find_profile("home"), Some(1));
}

#[test]
fn the_files_of_a_profile_are_replaced_as_a_whole() {
    let mut manifest = ProfileManifest::new();
    manifest.add_profile("work".to_string(), Some("the office".to_string())).unwrap();
    manifest.add_profile("home".to_string(), None).unwrap();
    assert_eq!(manifest.update_synced_files("home", strings(&[".zshrc", ".vimrc"])), Ok(()));
    assert_eq!(manifest.update_synced_files("home", strings(&[".gitconfig"])), Ok(()));
    assert_eq!(
        manifest.update_synced_files("nobody", strings(&[".zshrc"])),
        Err(ManifestError::UnknownProfile)
    );
    assert_eq!(manifest.profile_files("home").unwrap(), &strings(&[".gitconfig"]));
    assert!(manifest.profile_files("work").unwrap().is_empty());
    assert_eq!(manifest.profiles[0].description, Some("the office".to_string()));
    assert_eq!(manifest.profiles[1].name, "home");
    assert!(manifest.get_common_files().is_empty());
}

#[test]
fn a_manifest_is_rebuilt_from_the_directories() {
    let dirs = vec![
        dir(".git", &["HEAD", "config"]),
        dir("work", &[".zshrc", ".config/nvim/init.lua"]),
        dir("common", &[".gitignore"]),
        dir("home", &[]),
        dir("", &["stray"]),
    ];
    let manifest = ProfileManifest::backfill(&dirs);
    assert_eq!(manifest.profiles.len(), 2);
    assert_eq!(manifest.profiles[0].name, "work");
    assert_eq!(manifest.profiles[0].description, None);
    assert_eq!(manifest.profiles[0].synced_files, strings(&[".zshrc", ".config/nvim/init.lua"]));
    assert_eq!(manifest.profiles[1].name, "home");
    assert!(manifest.profiles[1].synced_files.is_empty());
    assert_eq!(manifest.get_common_files(), &strings(&[".gitignore"]));
}

#[test]
fn no_file_is_lost_where_a_directory_is_seen_twice() {
    let dirs = vec![
        dir("work", &[".zshrc"]),
        dir("common", &["a"]),
        dir("work", &[".vimrc"]),
        dir("common", &["b"]),
    ];
    let manifest = ProfileManifest::backfill(&dirs);
    assert_eq!(manifest.profiles.len(), 1);
    assert_eq!(manifest.profiles[0].synced_files, strings(&[".zshrc", ".vimrc"]));
    assert_eq!(manifest.get_common_files(), &strings(&["a", "b"]));
}

#[test]
fn a_missing_manifest_is_rebuilt_and_a_corrupt_one_is_not() {
    let dirs = vec![dir("work", &[".zshrc"])];
    let rebuilt = ProfileManifest::load_or_backfill(Err(ManifestError::NotFound), &dirs).unwrap();
    assert_eq!(rebuilt.profiles.len(), 1);
    assert_eq!(rebuilt.profiles[0].synced_files, strings(&[".zshrc"]));

    let failed = ProfileManifest::load_or_backfill(Err(ManifestError::Corrupt), &dirs);
    assert_eq!(failed.err(), Some(ManifestError::Corrupt));

    let mut loaded = ProfileManifest::new();
    loaded.add_profile("home".to_string(), None).unwrap();
    let kept = ProfileManifest::load_or_backfill(Ok(loaded), &dirs).unwrap();
    assert_eq!(kept.profiles.len(), 1);
    assert_eq!(kept.profiles[0].name, "home");
}

#[test]
fn errors_have_their_messages() {
    assert_eq!(ManifestError::NotFound.message(), "manifest file not found");
    assert_eq!(ManifestError::Corrupt.message(), "manifest file is corrupt");
    assert_eq!(ManifestError::DuplicateName.message(), "a profile of that name exists already");
    assert_eq!(ManifestError::UnknownProfile.message(), "no profile has that name");
}
