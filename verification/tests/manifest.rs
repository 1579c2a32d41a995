use assetwrap::assets::{load_asset_map, AssetMap};
use assetwrap::manifest::Manifest;

fn sample() -> Manifest {
    let mut m = Manifest::new();
    m.insert(
        "/images/logo.png".to_string(),
        vec!["gen/abc.webp".to_string(), "gen/abc.png".to_string()],
    );
    m.insert(
        "/styles/site.css".to_string(),
        vec!["gen/site.css".to_string()],
    );
    m
}

#[test]
fn manifest_serializes_in_insertion_order() {
    let m = sample();
    assert_eq!(
        m.to_json(),
        "{\"/images/logo.png\":[\"gen/abc.webp\",\"gen/abc.png\"],\"/styles/site.css\":[\"gen/site.css\"]}"
    );
}

#[test]
fn empty_manifest_is_an_empty_object() {
    let m = Manifest::new();
    assert_eq!(m.to_json(), "{}");
    assert_eq!(m.len(), 0);
}

#[test]
fn inserting_an_existing_key_replaces_its_outputs_in_place() {
    let mut m = sample();
    m.insert(
        "/images/logo.png".to_string(),
        vec!["gen/new.png".to_string()],
    );
    assert_eq!(m.len(), 2);
    assert_eq!(
        m.to_json(),
        "{\"/images/logo.png\":[\"gen/new.png\"],\"/styles/site.css\":[\"gen/site.css\"]}"
    );
}

#[test]
fn json_escapes_quotes_backslashes_and_controls() {
    let mut m = Manifest::new();
    m.insert(
        "/odd\"name\\with\tcontrol\u{1}".to_string(),
        vec!["a\nb".to_string()],
    );
    assert_eq!(
        m.to_json(),
        "{\"/odd\\\"name\\\\with\\tcontrol\\u0001\":[\"a\\nb\"]}"
    );
}

#[test]
fn serialized_manifests_reload_through_serde_to_the_same_entries() {
    // The manifest is read back by its consumers with a JSON parser; what
    // to_json writes must round-trip through one.
    let m = sample();
    let json = m.to_json();
    let entries: std::collections::BTreeMap<String, Vec<String>> =
        serde_json::from_str(&json).unwrap();
    assert_eq!(entries.len(), 2);
    assert_eq!(
        entries["/images/logo.png"],
        vec!["gen/abc.webp".to_string(), "gen/abc.png".to_string()]
    );
    assert_eq!(entries["/styles/site.css"], vec!["gen/site.css".to_string()]);
}

#[test]
fn escaped_entries_survive_a_serde_round_trip() {
    let mut m = Manifest::new();
    m.insert(
        "/odd\"name\\with\tcontrol\u{1}".to_string(),
        vec!["a\nb".to_string()],
    );
    let entries: std::collections::BTreeMap<String, Vec<String>> =
        serde_json::from_str(&m.to_json()).unwrap();
    assert_eq!(
        entries["/odd\"name\\with\tcontrol\u{1}"],
        vec!["a\nb".to_string()]
    );
}

fn sample_map() -> AssetMap {
    load_asset_map(
        vec![
            (
                "/images/logo.png".to_string(),
                vec!["gen/abc.webp".to_string(), "gen/abc.png".to_string()],
            ),
            ("/empty".to_string(), vec![]),
        ],
        "/assets/",
    )
}

#[test]
fn asset_map_get_returns_the_primary_output() {
    let map = sample_map();
    assert_eq!(map.get("/images/logo.png"), "/assets/gen/abc.webp");
}

#[test]
fn asset_map_get_falls_back_to_the_name() {
    let map = sample_map();
    assert_eq!(map.get("/missing.png"), "/missing.png");
    assert_eq!(map.get("/empty"), "/empty");
}

#[test]
fn asset_map_get_all_returns_every_output_in_order() {
    let map = sample_map();
    let all = map.get_all("/images/logo.png").unwrap();
    assert_eq!(all, vec!["/assets/gen/abc.webp", "/assets/gen/abc.png"]);
    assert!(map.get_all("/missing.png").is_none());
}

#[test]
fn load_asset_map_prefixes_every_output() {
    let map = load_asset_map(
        vec![("/k".to_string(), vec!["v1".to_string(), "v2".to_string()])],
        "https://cdn.example/",
    );
    let all = map.get_all("/k").unwrap();
    assert_eq!(all, vec!["https://cdn.example/v1", "https://cdn.example/v2"]);
}
