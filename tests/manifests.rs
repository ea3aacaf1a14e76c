use cargo_proc_macro::manifest::{impl_manifest, macro_manifest, workspace_manifest};
use cargo_proc_macro::text::{contains_char, replace_all, str_eq};

#[test]
fn workspace_manifest_adds_macro_dependency_and_members() {
    let toml = "[package]\nname = \"demo\"\n\n[dependencies]\n";
    let expected = r#"[package]
name = "demo"

[dependencies]
demo-macro = { version = "=0.1.0", path = "macro" }

[workspace]
members = [".", "impl", "macro"]
default-members = [".", "impl"]

"#;
    assert_eq!(workspace_manifest(toml, "demo"), expected);
}

#[test]
fn workspace_manifest_without_dependency_table_is_unchanged() {
    let toml = "[package]\nname = \"demo\"\n";
    assert_eq!(workspace_manifest(toml, "demo"), toml);
}

#[test]
fn impl_manifest_appends_dependencies() {
    let toml = "[package]\nname = \"demo-impl\"\n\n[dependencies]\n";
    let expected = r#"[package]
name = "demo-impl"

[dependencies]
syn = { version = "1", features = ["full", "extra-traits"] }
quote = "1"
proc-macro2 = "1"
"#;
    assert_eq!(impl_manifest(toml), expected);
}

#[test]
fn macro_manifest_becomes_proc_macro_library() {
    let toml = "[package]\nname = \"demo-macro\"\n\n[dependencies]\n";
    let expected = r#"[package]
name = "demo-macro"

[lib]
proc-macro = true

[dependencies]
demo-impl = { version = "=0.1.0", path = "../impl" }
syn = { version = "1", features = ["full", "extra-traits"] }
quote = "1"
proc-macro2 = "1"
"#;
    assert_eq!(macro_manifest(toml, "demo"), expected);
}

#[test]
fn replace_all_scans_left_to_right_without_overlap() {
    assert_eq!(replace_all("aaa", "aa", "b"), "ba");
    assert_eq!(replace_all("abcabc", "bc", "X"), "aXaX");
    assert_eq!(replace_all("", "x", "y"), "");
    assert_eq!(replace_all("xx", "xyz", "q"), "xx");
    assert_eq!(replace_all("a-b", "-", ""), "ab");
    assert_eq!(replace_all("héé", "é", "e"), "hee");
}

#[test]
fn replace_all_matches_std() {
    let cases = [("one [x] two [x]", "[x]", "y"), ("[x][x]x]", "[x]", "[x][x]"), ("ab", "ab", "")];
    for (s, p, r) in cases.iter() {
        assert_eq!(replace_all(s, p, r), s.replace(p, r));
    }
}

#[test]
fn char_helpers() {
    assert!(contains_char("a_b", '_'));
    assert!(!contains_char("a-b", '_'));
    assert!(!contains_char("", '_'));
    assert!(str_eq("abc", "abc"));
    assert!(!str_eq("abc", "abd"));
    assert!(!str_eq("ab", "abc"));
    assert!(str_eq("", ""));
}
