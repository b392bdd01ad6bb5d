use site_engine::text::{
    contains, ends_with, first_line, push_decimal, replace_char, starts_with,
    trim_end_all,
};

#[test]
fn replace_char_swaps_every_occurrence() {
    assert_eq!(replace_char("a b  c", ' ', "-"), "a-b--c");
    assert_eq!(replace_char("", ' ', "-"), "");
}

#[test]
fn post_names_are_lowercased() {
    assert_eq!(site_engine::posts::post_file_name("Hello-World"), "hello-world.md");
    assert_eq!(site_engine::posts::post_file_name("ÀB C"), "àb-c.md");
}

#[test]
fn prefix_suffix_and_search() {
    assert!(ends_with("post.md", ".md"));
    assert!(!ends_with("md", ".md"));
    assert!(starts_with("_index.md", "_"));
    assert!(!starts_with("index.md", "_"));
    assert!(contains("base_url = \"x\"", "base_url"));
    assert!(!contains("baseURL = \"x\"", "base_url"));
    assert!(contains("abc", ""));
}

#[test]
fn trim_end_all_removes_repeated_suffix() {
    assert_eq!(trim_end_all("a.md.md", ".md"), "a");
    assert_eq!(trim_end_all("a.markdown", ".md"), "a.markdown");
    assert_eq!(trim_end_all("abc", ""), "abc");
}

#[test]
fn first_line_follows_lines() {
    assert_eq!(first_line(""), None);
    assert_eq!(first_line("one\ntwo"), Some("one".to_string()));
    assert_eq!(first_line("one\r\ntwo"), Some("one".to_string()));
    assert_eq!(first_line("\nrest"), Some("".to_string()));
    assert_eq!(first_line("single"), Some("single".to_string()));
    assert_eq!(first_line("cr\r"), Some("cr\r".to_string()));
}

#[test]
fn decimal_rendering() {
    let mut s = String::from("port ");
    push_decimal(&mut s, 1313);
    assert_eq!(s, "port 1313");
    let mut z = String::new();
    push_decimal(&mut z, 0);
    assert_eq!(z, "0");
    let mut m = String::new();
    push_decimal(&mut m, 65535);
    assert_eq!(m, "65535");
}
