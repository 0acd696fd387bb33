use promptline::status::ReduceMode;
use promptline::text::str_eq;
use promptline::vcs::{detached_label, summarize};

#[test]
fn no_repository_is_absence_not_failure() {
    // a directory that exists but holds no repository
    let summary = summarize("/dev", ReduceMode::Priority);
    assert!(matches!(summary, Ok(None)));
}

#[test]
fn missing_path_is_absence_not_failure() {
    let summary = summarize("/no/such/directory/anywhere", ReduceMode::ScanOrder);
    assert!(matches!(summary, Ok(None)));
}

#[test]
fn detached_label_takes_six_characters() {
    assert_eq!(
        detached_label("4a5b6c7d8e9f00112233445566778899aabbccdd"),
        "4a5b6c"
    );
    assert_eq!(detached_label("abc"), "abc");
    assert_eq!(detached_label(""), "");
}

#[test]
fn str_eq_compares_by_characters() {
    assert!(str_eq("", ""));
    assert!(str_eq("héllo", "héllo"));
    assert!(!str_eq("a", "b"));
    assert!(!str_eq("a", "ab"));
}
