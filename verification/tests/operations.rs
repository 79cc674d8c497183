use zfile::operations::{
    copy_failure, delete_confirmation_message, delete_failure, destination_for, move_failure,
    OperationReport,
};

#[test]
fn an_empty_report_is_a_success() {
    let report = OperationReport::new();
    assert!(!report.has_failures());
    assert_eq!(report.finish(), Ok(()));
}

#[test]
fn successes_leave_the_report_empty() {
    let mut report = OperationReport::new();
    report.record(Ok(()));
    report.record(Ok(()));
    assert!(!report.has_failures());
    assert_eq!(report.finish(), Ok(()));
}

#[test]
fn one_failure_is_reported_as_it_is() {
    let mut report = OperationReport::new();
    report.record(Ok(()));
    report.record(Err(String::from("Failed to copy file: denied")));
    report.record(Ok(()));
    assert!(report.has_failures());
    assert_eq!(report.finish(), Err(String::from("Failed to copy file: denied")));
}

#[test]
fn failures_do_not_stop_the_collection_and_are_combined() {
    let mut report = OperationReport::new();
    report.record(Err(String::from("first")));
    report.record(Ok(()));
    report.record(Err(String::from("second")));
    report.record(Err(String::from("third")));
    assert_eq!(report.finish(), Err(String::from("first\nsecond\nthird")));
}

#[test]
fn destination_keeps_the_name_of_the_source() {
    assert_eq!(
        destination_for("/home/user/a.txt", "/tmp/out"),
        Ok(String::from("/tmp/out/a.txt"))
    );
    assert_eq!(destination_for("/home/user/dir/", "/tmp"), Ok(String::from("/tmp/dir")));
    assert_eq!(destination_for("relative.txt", "/"), Ok(String::from("/relative.txt")));
}

#[test]
fn destination_of_a_path_without_a_name_is_refused() {
    assert_eq!(destination_for("/", "/tmp"), Err(String::from("Invalid source path")));
    assert_eq!(destination_for("/home/..", "/tmp"), Err(String::from("Invalid source path")));
    assert_eq!(destination_for("", "/tmp"), Err(String::from("Invalid source path")));
}

#[test]
fn failure_messages() {
    assert_eq!(copy_failure(true, "no space"), "Failed to copy directory: no space");
    assert_eq!(copy_failure(false, "no space"), "Failed to copy file: no space");
    assert_eq!(move_failure("busy"), "Failed to move file: busy");
    assert_eq!(delete_failure("/tmp/x", "gone"), "Failed to delete /tmp/x: gone");
}

#[test]
fn delete_confirmation_names_a_single_item() {
    let paths = vec![String::from("/home/user/report.pdf")];
    assert_eq!(
        delete_confirmation_message(&paths),
        "Are you sure you want to delete 'report.pdf'?"
    );
    let root = vec![String::from("/")];
    assert_eq!(delete_confirmation_message(&root), "Are you sure you want to delete ''?");
}

#[test]
fn delete_confirmation_counts_several_items() {
    let paths = vec![String::from("/a"), String::from("/b"), String::from("/c")];
    assert_eq!(delete_confirmation_message(&paths), "Are you sure you want to delete 3 items?");
    let none: Vec<String> = Vec::new();
    assert_eq!(delete_confirmation_message(&none), "Are you sure you want to delete 0 items?");
    let many: Vec<String> = (0..120).map(|i| format!("/f{}", i)).collect();
    assert_eq!(delete_confirmation_message(&many), "Are you sure you want to delete 120 items?");
}
