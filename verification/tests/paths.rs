use assetwrap::paths::{extension_of, file_name, str_eq, with_extension};

#[test]
fn file_name_is_the_final_component() {
    assert_eq!(file_name("images/icons/logo.png"), "logo.png");
    assert_eq!(file_name("logo.png"), "logo.png");
    assert_eq!(file_name("dir.v2/plain"), "plain");
}

#[test]
fn extension_is_after_the_last_dot() {
    assert_eq!(extension_of("archive.tar.gz").as_deref(), Some("gz"));
    assert_eq!(extension_of("logo.png").as_deref(), Some("png"));
    assert_eq!(extension_of("trailing.").as_deref(), Some(""));
    assert!(extension_of("plain").is_none());
    assert!(extension_of(".gitignore").is_none());
}

#[test]
fn with_extension_replaces_or_appends() {
    assert_eq!(with_extension("logo.png", "webp"), "logo.webp");
    assert_eq!(with_extension("archive.tar.gz", "zst"), "archive.tar.zst");
    assert_eq!(with_extension("plain", "txt"), "plain.txt");
    assert_eq!(with_extension(".gitignore", "bak"), ".gitignore.bak");
}

#[test]
fn str_eq_compares_characters() {
    assert!(str_eq("same", "same"));
    assert!(!str_eq("same", "Same"));
    assert!(!str_eq("short", "shorter"));
    assert!(str_eq("", ""));
}
