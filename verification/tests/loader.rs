use assetwrap::error::BuildError;
use assetwrap::hashing::hash_content;
use assetwrap::loader::{create_asset, generate_assets, Loader};
use sha2::Digest;

fn tiny_png() -> Vec<u8> {
    let img = image::RgbaImage::from_pixel(2, 2, image::Rgba([200, 16, 16, 255]));
    let dynimg = image::DynamicImage::ImageRgba8(img);
    let mut buf = std::io::Cursor::new(Vec::new());
    dynimg
        .write_to(&mut buf, image::ImageOutputFormat::Png)
        .unwrap();
    buf.into_inner()
}

#[test]
fn passthrough_keeps_bytes_and_hashes_the_name() {
    let assets = generate_assets("docs/readme.txt", b"hello".to_vec(), Loader::Default, false)
        .unwrap();
    assert_eq!(assets.len(), 1);
    assert_eq!(assets[0].content, b"hello".to_vec());
    let expected_hash = hash_content("docs/readme.txt", b"hello");
    assert_eq!(assets[0].hash, expected_hash);
    assert_eq!(
        assets[0].output_filename,
        format!("{}.txt", &expected_hash[..16])
    );
}

#[test]
fn passthrough_without_hashing_keeps_the_base_name() {
    let assets = generate_assets("docs/readme.txt", b"hello".to_vec(), Loader::Default, true)
        .unwrap();
    assert_eq!(assets.len(), 1);
    assert_eq!(assets[0].output_filename, "readme.txt");
}

#[test]
fn skip_hash_name_is_stable_across_content_changes() {
    let a1 = generate_assets("static/favicon.ico", b"v1".to_vec(), Loader::Default, true).unwrap();
    let a2 = generate_assets("static/favicon.ico", b"v2 bytes".to_vec(), Loader::Default, true)
        .unwrap();
    assert_eq!(a1[0].output_filename, a2[0].output_filename);
    assert_ne!(a1[0].content, a2[0].content);
}

#[test]
fn hashed_name_changes_when_content_changes() {
    let a1 = generate_assets("static/app.js", b"v1".to_vec(), Loader::Default, false).unwrap();
    let a2 = generate_assets("static/app.js", b"v2".to_vec(), Loader::Default, false).unwrap();
    assert_ne!(a1[0].output_filename, a2[0].output_filename);
}

#[test]
fn css_loader_minifies() {
    let assets = generate_assets(
        "styles/site.css",
        b"a { color: red; }".to_vec(),
        Loader::Css,
        true,
    )
    .unwrap();
    assert_eq!(assets.len(), 1);
    assert_eq!(assets[0].output_filename, "site.css");
    assert_eq!(assets[0].content, b"a{color:red}".to_vec());
}

#[test]
fn css_loader_hash_covers_minified_bytes() {
    let assets = generate_assets(
        "styles/site.css",
        b"a { color: red; }".to_vec(),
        Loader::Css,
        false,
    )
    .unwrap();
    let expected_hash = hash_content("styles/site.css", b"a{color:red}");
    assert_eq!(assets[0].hash, expected_hash);
    assert_eq!(
        assets[0].output_filename,
        format!("{}.css", &expected_hash[..16])
    );
}

#[test]
fn css_loader_output_reparses_to_the_same_minified_form() {
    let minified = generate_assets(
        "styles/site.css",
        b"a { color: red; }\n\n/* note */ p { margin: 0px; }".to_vec(),
        Loader::Css,
        true,
    )
    .unwrap()[0]
        .content
        .clone();
    let again = generate_assets("styles/site.css", minified.clone(), Loader::Css, true).unwrap()
        [0]
    .content
    .clone();
    assert_eq!(minified, again);
}

#[test]
fn css_loader_rejects_invalid_utf8() {
    let r = generate_assets("styles/bad.css", vec![0xff, 0xfe], Loader::Css, true);
    assert!(matches!(r, Err(BuildError::InvalidUtf8)));
}

#[test]
fn css_loader_rejects_malformed_stylesheets() {
    let r = generate_assets("styles/bad.css", b"}".to_vec(), Loader::Css, true);
    assert!(matches!(r, Err(BuildError::CssMinify)));
}

#[test]
fn image_loader_is_fail_fast_when_a_target_encoder_is_missing() {
    // This build of the image crate has no AVIF encoder backend (its rav1e
    // backend needs the nasm assembler, absent on this machine), so the
    // loader aborts the file rather than emit a partial format set.
    let png = tiny_png();
    let r = generate_assets("images/logo.png", png, Loader::Image, true);
    assert!(matches!(r, Err(BuildError::ImageTranscode)));
}

#[test]
fn image_loader_rejects_undecodable_input() {
    let r = generate_assets(
        "images/bad.png",
        b"this is not an image".to_vec(),
        Loader::Image,
        true,
    );
    assert!(matches!(r, Err(BuildError::ImageTranscode)));
}

#[test]
fn default_loader_is_the_default() {
    assert!(matches!(Loader::default(), Loader::Default));
}

#[test]
fn create_asset_without_extension_uses_bare_hash() {
    let a = create_asset("well-known/config", b"data".to_vec(), true, None);
    let h = hash_content("well-known/config", b"data");
    assert_eq!(a.output_filename, h[..16].to_string());
}

#[test]
fn create_asset_dotfile_has_no_extension() {
    let a = create_asset("repo/.gitignore", b"target".to_vec(), true, None);
    let h = hash_content("repo/.gitignore", b"target");
    assert_eq!(a.output_filename, h[..16].to_string());
}

#[test]
fn create_asset_override_extension_replaces_the_old_one() {
    let a = create_asset("images/photo.jpeg", b"x".to_vec(), false, Some("webp"));
    assert_eq!(a.output_filename, "photo.webp");
}

#[test]
fn sha_reference_cross_check() {
    let a = create_asset("p", b"c".to_vec(), true, None);
    let mut hasher = sha2::Sha256::new();
    hasher.update(b"p\x00c");
    assert_eq!(a.hash, hex::encode(hasher.finalize()));
}
