use libcnb::{TestResult, TestResults, TestStatus};

#[test]
fn new_results_are_ready_and_empty() {
    let r = TestResults::new();
    assert!(r.passed.is_empty() && r.failed.is_empty() && r.ignored.is_empty());
    assert_eq!(r.status, TestStatus::Ready);
}

#[test]
fn new_result_keeps_description_and_status() {
    let r = TestResult::new("adds numbers", TestStatus::Fail);
    assert_eq!(r.desc, "adds numbers");
    assert_eq!(r.status, TestStatus::Fail);
}

#[test]
fn nonempty_lists_are_written() {
    let mut r = TestResults::new();
    r.passed.push(TestResult::new("one", TestStatus::Pass));
    r.ignored.push(TestResult::new("two", TestStatus::Ignore));
    r.status = TestStatus::Fail;
    let text = r.to_toml().unwrap();
    let doc: toml::Value = text.parse().unwrap();
    let table = doc.as_table().unwrap();
    assert!(table.contains_key("passed"));
    assert!(table.contains_key("ignored"));
    assert!(!table.contains_key("failed"));
    assert_eq!(table["status"].as_str(), Some("Fail"));
    let first = &table["passed"].as_array().unwrap()[0];
    assert_eq!(first["desc"].as_str(), Some("one"));
    assert_eq!(first["status"].as_str(), Some("Pass"));
    let ignored = table["ignored"].as_array().unwrap();
    assert_eq!(ignored.len(), 1);
    assert_eq!(ignored[0]["desc"].as_str(), Some("two"));
    assert_eq!(ignored[0]["status"].as_str(), Some("Ignore"));
}

#[test]
fn status_names() {
    assert_eq!(TestStatus::Pass.name(), "Pass");
    assert_eq!(TestStatus::Fail.name(), "Fail");
    assert_eq!(TestStatus::Ready.name(), "Ready");
    assert_eq!(TestStatus::Ignore.name(), "Ignore");
}
