use cargo_serve::text::{decimal_string, join_strs, push_path, str_eq};

#[test]
fn push_path_follows_pathbuf_push() {
    assert_eq!(push_path("/a", "b"), "/a/b");
    assert_eq!(push_path("/a/", "b"), "/a/b");
    assert_eq!(push_path("", "b"), "b");
    assert_eq!(push_path("/a", "/abs"), "/abs");
    let mut expected = std::path::PathBuf::from("target");
    expected.push("debug");
    assert_eq!(push_path("target", "debug"), expected.to_str().unwrap());
}

#[test]
fn decimal_strings_match_display() {
    for n in [0u32, 7, 10, 99, 100, 65535, 4294967295] {
        assert_eq!(decimal_string(n), n.to_string());
    }
}

#[test]
fn join_and_compare() {
    assert_eq!(join_strs(&vec!["a", "b", "c"], ","), "a,b,c");
    assert_eq!(join_strs(&Vec::new(), ","), "");
    assert!(str_eq("héllo", "héllo"));
    assert!(!str_eq("a", "ab"));
}
