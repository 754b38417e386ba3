use changegate::paths::{base_name, is_hidden_name, is_noise_path, normalize_path_text, str_eq};

#[test]
fn base_name_takes_last_segment() {
    assert_eq!(base_name("a/b/c.txt"), "c.txt");
    assert_eq!(base_name("c.txt"), "c.txt");
    assert_eq!(base_name("/w/dir/file"), "file");
    assert_eq!(base_name("w\\dir\\file.rs"), "file.rs");
}

#[test]
fn base_name_ignores_trailing_separators() {
    assert_eq!(base_name("a/b/"), "b");
    assert_eq!(base_name("a/b///"), "b");
}

#[test]
fn base_name_falls_back_on_unusable_segments() {
    assert_eq!(base_name(""), "unknown");
    assert_eq!(base_name("/"), "unknown");
    assert_eq!(base_name("a/.."), "unknown");
    assert_eq!(base_name("a/."), "unknown");
}

#[test]
fn noise_filter_matches_whole_segments_only() {
    assert!(is_noise_path("w/.git/config"));
    assert!(is_noise_path("w/target/debug/x"));
    assert!(is_noise_path("w/node_modules/p/i.js"));
    assert!(is_noise_path("target/x"));
    assert!(is_noise_path("w/target"));
    assert!(!is_noise_path("w/retarget/x"));
    assert!(!is_noise_path("w/targets/x"));
    assert!(!is_noise_path("w/src/main.rs"));
}

#[test]
fn hidden_names_spare_the_allow_list() {
    assert!(is_hidden_name(".env"));
    assert!(is_hidden_name(".hidden"));
    assert!(!is_hidden_name(".gitignore"));
    assert!(!is_hidden_name("main.rs"));
    assert!(!is_hidden_name(""));
}

#[test]
fn normalize_strips_verbatim_prefix() {
    assert_eq!(normalize_path_text("\\\\?\\C:\\w\\f.txt"), "C:\\w\\f.txt");
    assert_eq!(normalize_path_text("/w/f.txt"), "/w/f.txt");
    assert_eq!(normalize_path_text("\\\\?\\\\\\?\\x"), "x");
}

#[test]
fn str_eq_compares_content() {
    assert!(str_eq("abc", "abc"));
    assert!(!str_eq("abc", "abd"));
    assert!(!str_eq("abc", "ab"));
    assert!(str_eq("", ""));
}
