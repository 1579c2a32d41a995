use assetwrap::config::AssetPath;
use assetwrap::error::BuildError;
use assetwrap::globs::{any_match, Matcher};
use assetwrap::loader::Loader;

#[test]
fn glob_selects_matching_files() {
    let m = Matcher::compile("images/*.png").unwrap();
    assert!(m.is_match("images/logo.png"));
    assert!(!m.is_match("images/logo.jpg"));
    assert!(!m.is_match("styles/site.css"));
}

#[test]
fn single_star_crosses_directories_by_default() {
    let m = Matcher::compile("images/*.png").unwrap();
    assert!(m.is_match("images/icons/logo.png"));
}

#[test]
fn double_star_crosses_directories() {
    let m = Matcher::compile("assets/**/*.css").unwrap();
    assert!(m.is_match("assets/styles/site.css"));
}

#[test]
fn invalid_glob_is_a_configuration_error() {
    let r = Matcher::compile("images/[*.png");
    assert!(matches!(r, Err(BuildError::InvalidGlob)));
}

#[test]
fn overlong_patterns_are_configuration_errors() {
    // Compiling a pathological pattern can abort inside globset once its
    // regex passes an internal size cap, so rules bound what they accept.
    let rule = AssetPath {
        input: "{a,b}".repeat(500),
        output: "gen/".to_string(),
        no_hash: false,
        hash_ignore: vec![],
        just_copy: vec![],
        loader: Loader::Default,
    };
    assert!(matches!(rule.compile(), Err(BuildError::InvalidGlob)));
}

#[test]
fn any_match_finds_a_matching_exception() {
    let ms = vec![
        Matcher::compile("**/favicon.*").unwrap(),
        Matcher::compile("well-known/**").unwrap(),
    ];
    assert!(any_match(&ms, "static/favicon.ico"));
    assert!(any_match(&ms, "well-known/security.txt"));
    assert!(!any_match(&ms, "images/logo.png"));
}

#[test]
fn any_match_on_empty_list_matches_nothing() {
    let ms: Vec<Matcher> = vec![];
    assert!(!any_match(&ms, "anything"));
}
