use dotstate::screens::PackageManagerScreen;

#[test]
fn test_package_manager_screen_creation() {
    let screen = PackageManagerScreen::new();
    assert!(!screen.is_input_focused());
}
