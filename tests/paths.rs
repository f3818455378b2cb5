use wedding_planner::paths::{join_path, same_text};

#[test]
fn join_adds_one_separator() {
    assert_eq!(join_path("./venue", "svc"), "./venue/svc");
    assert_eq!(join_path("./venue/", "svc"), "./venue/svc");
}

#[test]
fn join_keeps_current_directory_segments() {
    assert_eq!(join_path("./tests/test_repo", "."), "./tests/test_repo/.");
    assert_eq!(join_path("./tests/test_repo/.", "Dockerfile"), "./tests/test_repo/./Dockerfile");
}

#[test]
fn join_with_an_absolute_part_takes_the_part() {
    assert_eq!(join_path("./venue", "/abs/file"), "/abs/file");
}

#[test]
fn join_with_empty_sides() {
    assert_eq!(join_path("", "svc"), "svc");
    assert_eq!(join_path("work", ""), "work/");
}

#[test]
fn same_text_compares_characters() {
    assert!(same_text("x86_64", "x86_64"));
    assert!(!same_text("x86_64", "x86"));
    assert!(!same_text("arm", "arn"));
}
