use assetwrap::hashing::hash_content;
use sha2::Digest;

fn reference_hash(path: &str, content: &[u8]) -> String {
    let mut hasher = sha2::Sha256::new();
    hasher.update(path.as_bytes());
    hasher.update(b"\x00");
    hasher.update(content);
    hex::encode(hasher.finalize())
}

#[test]
fn hash_matches_reference_digest() {
    let h = hash_content("images/pfp.png", b"some image bytes");
    assert_eq!(h, reference_hash("images/pfp.png", b"some image bytes"));
}

#[test]
fn hash_is_64_lowercase_hex_digits() {
    let h = hash_content("a.txt", b"hi");
    assert_eq!(h.len(), 64);
    assert!(h.chars().all(|c| c.is_ascii_hexdigit() && !c.is_ascii_uppercase()));
}

#[test]
fn hash_is_deterministic() {
    let h1 = hash_content("styles/site.css", b"a{color:red}");
    let h2 = hash_content("styles/site.css", b"a{color:red}");
    assert_eq!(h1, h2);
}

#[test]
fn hash_differs_for_distinct_paths_with_identical_bytes() {
    let h1 = hash_content("images/a.png", b"same bytes");
    let h2 = hash_content("images/b.png", b"same bytes");
    assert_ne!(h1, h2);
}

#[test]
fn hash_differs_for_distinct_content() {
    let h1 = hash_content("a.txt", b"one");
    let h2 = hash_content("a.txt", b"two");
    assert_ne!(h1, h2);
}

#[test]
fn hash_of_empty_content_still_depends_on_path() {
    let h = hash_content("x", b"");
    assert_eq!(h, reference_hash("x", b""));
}
