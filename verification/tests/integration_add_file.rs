use dotstate::symlink_manager::OperationStatus;

#[test]
fn test_documentation_only() {
    assert!(true, "This test documents what should be tested");
    assert_ne!(OperationStatus::Success, OperationStatus::Skipped(String::new()));
}
