use dotstate::version_check::available_update;
use dotstate::version_check::current_version;
use dotstate::version_check::update_check;
use dotstate::version_check::UpdateCheck;
use dotstate::version_check::UpdateInfo;

#[test]
fn test_current_version() {
    let version = current_version();
    assert!(!version.is_empty());
    assert!(version.contains('.'));
}

#[test]
fn test_install_script_url() {
    let url = UpdateInfo::install_script_url();
    assert!(url.starts_with("https://"));
    assert!(url.contains("install.sh"));
}

#[test]
fn test_releases_url() {
    let url = UpdateInfo::releases_url();
    assert!(url.contains("github.com"));
    assert!(url.contains("releases"));
}

#[test]
fn release_addresses_are_exact() {
    assert_eq!(UpdateInfo::install_script_url(), "https://dotstate.serkan.dev/install.sh");
    assert_eq!(UpdateInfo::releases_url(), "https://github.com/serkanyersen/dotstate/releases");
    let info = UpdateInfo::for_release("0.2.0", "0.3.1");
    assert_eq!(info.current_version, "0.2.0");
    assert_eq!(info.latest_version, "0.3.1");
    assert_eq!(
        info.release_url,
        "https://github.com/serkanyersen/dotstate/releases/tag/v0.3.1"
    );
}

#[test]
fn an_answer_of_the_registry_is_settled() {
    match update_check("0.2.0", Ok(Some("0.9.0".to_string()))) {
        UpdateCheck::Available(info) => assert_eq!(info.latest_version, "0.9.0"),
        _ => panic!("expected an available update"),
    }
    assert!(matches!(update_check("0.2.0", Ok(None)), UpdateCheck::UpToDate));
    match update_check("0.2.0", Err("offline".to_string())) {
        UpdateCheck::Failed(reason) => assert_eq!(reason, "offline"),
        _ => panic!("expected a failed check"),
    }
    assert!(available_update(UpdateCheck::UpToDate).is_none());
    assert!(available_update(UpdateCheck::Failed("offline".to_string())).is_none());
    let found = available_update(update_check("0.2.0", Ok(Some("0.9.0".to_string()))));
    assert_eq!(found.unwrap().current_version, "0.2.0");
}
