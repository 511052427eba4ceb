use unix_tasks::names::sanitize_name;
use unix_tasks::paths::{join_entry, placement_of, Placement};

#[test]
fn plain_name_is_kept() {
    assert_eq!(sanitize_name("alice"), "alice");
}

#[test]
fn leading_dots_are_stripped() {
    assert_eq!(sanitize_name(".hidden"), "hidden");
    assert_eq!(sanitize_name("...a.b"), "a.b");
}

#[test]
fn separators_are_removed() {
    assert_eq!(sanitize_name("a/b\\c"), "abc");
    assert_eq!(sanitize_name("/etc/passwd"), "etcpasswd");
}

#[test]
fn only_dots_or_nothing_gives_nothing() {
    assert_eq!(sanitize_name(""), "");
    assert_eq!(sanitize_name("..."), "");
    assert_eq!(sanitize_name("//"), "");
}

#[test]
fn dot_behind_a_separator_is_uncovered() {
    assert_eq!(sanitize_name("../../etc/passwd"), "..etcpasswd");
    assert_eq!(sanitize_name("/.a"), ".a");
}

#[test]
fn sanitized_matches_trim_then_replace() {
    let names = ["alice", "..", "./x", "\\\\host\\share", ".a/.b", "é/ü", "a.b."];
    for name in names {
        let expected = name.trim_start_matches('.').replace(['/', '\\'], "");
        assert_eq!(sanitize_name(name), expected);
        assert!(!sanitize_name(name).contains('/'));
        assert!(!sanitize_name(name).contains('\\'));
    }
}

#[test]
fn entry_path_is_plain_concatenation() {
    assert_eq!(join_entry("/home/", "alice"), "/home/alice");
    assert_eq!(join_entry("/home", "alice"), "/homealice");
}

#[test]
fn direct_child_is_inside() {
    assert_eq!(placement_of("/home/", "/home/alice"), Placement::Inside);
    assert_eq!(placement_of("/home", "/home/alice"), Placement::Inside);
}

#[test]
fn other_parent_is_outside() {
    assert_eq!(placement_of("/home", "/homealice"), Placement::Outside);
    assert_eq!(placement_of("/home/", "/home/"), Placement::Outside);
    assert_eq!(placement_of("/home/", "/home/a/b"), Placement::Outside);
}

#[test]
fn path_without_parent_is_rootless() {
    assert_eq!(placement_of("", ""), Placement::Rootless);
    assert_eq!(placement_of("/", "/"), Placement::Rootless);
}
