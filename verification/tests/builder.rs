use assetwrap::builder::{build_file, build_rule, record_outcomes, sat_add, should_skip_hash};
use assetwrap::config::{AssetPath, CompiledRule};
use assetwrap::hashing::hash_content;
use assetwrap::loader::Loader;
use assetwrap::manifest::Manifest;

fn rule(input: &str, output: &str, no_hash: bool, ignore: Vec<&str>, loader: Loader) -> CompiledRule {
    AssetPath {
        input: input.to_string(),
        output: output.to_string(),
        no_hash,
        hash_ignore: ignore.into_iter().map(|s| s.to_string()).collect(),
        just_copy: vec![],
        loader,
    }
    .compile()
    .unwrap()
}

fn tiny_png() -> Vec<u8> {
    let img = image::RgbaImage::from_pixel(2, 2, image::Rgba([10, 200, 30, 255]));
    let dynimg = image::DynamicImage::ImageRgba8(img);
    let mut buf = std::io::Cursor::new(Vec::new());
    dynimg
        .write_to(&mut buf, image::ImageOutputFormat::Png)
        .unwrap();
    buf.into_inner()
}

fn build_manifest(rule: &CompiledRule, files: Vec<(String, Vec<u8>)>) -> (Manifest, u64) {
    let outcomes = build_rule(rule, files).unwrap();
    let mut manifest = Manifest::new();
    let mut total: u64 = 0;
    record_outcomes(&mut manifest, &mut total, outcomes);
    (manifest, total)
}

#[test]
fn an_image_rule_is_fail_fast_when_a_target_encoder_is_missing() {
    // This build of the image crate has no AVIF encoder backend (rav1e
    // needs the nasm assembler, absent on this machine), so an image rule
    // aborts its file instead of recording a partial format set.
    let r = rule("images/*.png", "gen/", false, vec![], Loader::Image);
    let png = tiny_png();
    let outcome = build_file(&r, "images/logo.png", png);
    assert!(outcome.is_err());
}

#[test]
fn passthrough_outcome_records_key_paths_and_size() {
    let r = rule("docs/*", "gen/", true, vec![], Loader::Default);
    let outcome = build_file(&r, "docs/readme.txt", b"hello".to_vec()).unwrap();
    assert_eq!(outcome.original_name, "/docs/readme.txt");
    assert_eq!(outcome.output_paths, vec!["gen/readme.txt".to_string()]);
    let expected: u64 = outcome.assets.iter().map(|a| a.content.len() as u64).sum();
    assert_eq!(outcome.size, expected);
    assert_eq!(outcome.size, 5);
}

#[test]
fn css_rule_with_skip_hash_keeps_a_stable_readable_name() {
    let r = rule("styles/*.css", "gen/", true, vec![], Loader::Css);
    let (manifest, _) = build_manifest(
        &r,
        vec![("styles/site.css".to_string(), b"a { color: red; }".to_vec())],
    );
    assert_eq!(
        manifest.to_json(),
        "{\"/styles/site.css\":[\"gen/site.css\"]}"
    );
}

#[test]
fn rebuilding_an_unchanged_tree_gives_byte_identical_manifests() {
    let files = || {
        vec![
            ("styles/site.css".to_string(), b"a { color: red; }".to_vec()),
            ("styles/dark.css".to_string(), b"p { margin: 0; }".to_vec()),
        ]
    };
    let r1 = rule("styles/*.css", "gen/", false, vec![], Loader::Css);
    let r2 = rule("styles/*.css", "gen/", false, vec![], Loader::Css);
    let (m1, t1) = build_manifest(&r1, files());
    let (m2, t2) = build_manifest(&r2, files());
    assert_eq!(m1.to_json(), m2.to_json());
    assert_eq!(t1, t2);
}

#[test]
fn changing_content_changes_the_hashed_output_name_only() {
    let r = rule("styles/*.css", "gen/", false, vec![], Loader::Css);
    let (m1, _) = build_manifest(
        &r,
        vec![("styles/site.css".to_string(), b"a { color: red; }".to_vec())],
    );
    let (m2, _) = build_manifest(
        &r,
        vec![(
            "styles/site.css".to_string(),
            b"a { color: blue; }".to_vec(),
        )],
    );
    assert_ne!(m1.to_json(), m2.to_json());
}

#[test]
fn hash_ignore_exceptions_exempt_matching_files() {
    let r = rule(
        "static/**",
        "gen/",
        false,
        vec!["**/favicon.*"],
        Loader::Default,
    );
    assert!(should_skip_hash(&r, "static/favicon.ico"));
    assert!(!should_skip_hash(&r, "static/app.js"));
    let outcome = build_file(&r, "static/favicon.ico", b"icon".to_vec()).unwrap();
    assert_eq!(outcome.output_paths, vec!["gen/favicon.ico".to_string()]);
}

#[test]
fn rule_level_no_hash_applies_to_every_file() {
    let r = rule("static/**", "gen", true, vec![], Loader::Default);
    assert!(should_skip_hash(&r, "static/app.js"));
    let outcome = build_file(&r, "static/app.js", b"x".to_vec()).unwrap();
    assert_eq!(outcome.output_paths, vec!["gen/app.js".to_string()]);
}

#[test]
fn hashed_output_paths_use_the_fingerprint_prefix() {
    let r = rule("docs/*", "gen/", false, vec![], Loader::Default);
    let outcome = build_file(&r, "docs/readme.txt", b"hello".to_vec()).unwrap();
    let h = hash_content("docs/readme.txt", b"hello");
    assert_eq!(
        outcome.output_paths,
        vec![format!("gen/{}.txt", &h[..16])]
    );
}

#[test]
fn a_failing_file_fails_the_whole_rule() {
    let r = rule("styles/*.css", "gen/", false, vec![], Loader::Css);
    let result = build_rule(
        &r,
        vec![
            ("styles/ok.css".to_string(), b"a { color: red; }".to_vec()),
            ("styles/bad.css".to_string(), b"}".to_vec()),
        ],
    );
    assert!(result.is_err());
}

#[test]
fn totals_accumulate_and_saturate() {
    assert_eq!(sat_add(2, 3), 5);
    assert_eq!(sat_add(u64::MAX - 1, 5), u64::MAX);
    assert_eq!(sat_add(u64::MAX, u64::MAX), u64::MAX);
    let r = rule("docs/*", "gen/", true, vec![], Loader::Default);
    let (_, total) = build_manifest(
        &r,
        vec![
            ("docs/a.txt".to_string(), b"12345".to_vec()),
            ("docs/b.txt".to_string(), b"123".to_vec()),
        ],
    );
    assert_eq!(total, 8);
}
