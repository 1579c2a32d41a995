use assetwrap::apis::{LoggedIn, PlaybackState, WordOpinion};
use assetwrap::blog::{parse_post_filename, sort_posts_newest_first, BlogPost};
use assetwrap::projects::parse_project_filename;
use assetwrap::markdown::{extract_title, service_link, split_frontmatter};
use assetwrap::projects::Project;
use assetwrap::sync::SyncAction;
use assetwrap::sync::sync_decision;
use assetwrap::templates::{ErrorTemplate, HtmlTemplate};

#[test]
fn only_nope_is_negative() {
    assert!(WordOpinion::Nope.is_negative());
    assert!(!WordOpinion::Yes.is_negative());
    assert!(!WordOpinion::Okay.is_negative());
    assert!(!WordOpinion::Jokingly.is_negative());
    assert!(!WordOpinion::OnlyClose.is_negative());
}

#[test]
fn opinions_have_emoji_and_labels() {
    assert_eq!(WordOpinion::Yes.emoji(), "💜");
    assert_eq!(WordOpinion::Nope.emoji(), "👎");
    assert_eq!(WordOpinion::OnlyClose.label(), "Only if we're close");
    assert_eq!(WordOpinion::Okay.label(), "Okay");
}

#[test]
fn playback_state_playing() {
    assert!(PlaybackState::Playing.playing());
    assert!(!PlaybackState::Recent.playing());
}

#[test]
fn blog_post_url_and_date() {
    let post = BlogPost {
        year: "2023".to_string(),
        month: "04".to_string(),
        day: "01".to_string(),
        slug: "hello-world".to_string(),
        title: "Hello".to_string(),
        description: "d".to_string(),
        rendered: "<h1>Hello</h1>".to_string(),
    };
    assert_eq!(post.url(), "/blog/2023-04-01-hello-world");
    assert_eq!(post.date(), "2023-04-01");
}

fn post(year: &str, month: &str, day: &str, slug: &str) -> BlogPost {
    BlogPost {
        year: year.to_string(),
        month: month.to_string(),
        day: day.to_string(),
        slug: slug.to_string(),
        title: slug.to_string(),
        description: String::new(),
        rendered: String::new(),
    }
}

#[test]
fn posts_sort_newest_first() {
    let sorted = sort_posts_newest_first(vec![
        post("2021", "12", "31", "old"),
        post("2023", "04", "01", "new"),
        post("2022", "06", "15", "mid"),
    ]);
    let slugs: Vec<&str> = sorted.iter().map(|p| p.slug.as_str()).collect();
    assert_eq!(slugs, vec!["new", "mid", "old"]);
}

#[test]
fn project_url() {
    let p = Project {
        year: "2022".to_string(),
        slug: "assetwrap".to_string(),
        title: "t".to_string(),
        description: "d".to_string(),
        rendered: "r".to_string(),
    };
    assert_eq!(p.url(), "/projects/2022/assetwrap");
}

#[test]
fn html_template_pairs_path_and_template() {
    let t = HtmlTemplate::new(
        "/404".to_string(),
        ErrorTemplate {
            error_code: 404,
            error_message: "Page not found".to_string(),
        },
    );
    assert_eq!(t.path, "/404");
    assert_eq!(t.template.error_code, 404);
}

#[test]
fn extract_title_returns_the_first_heading_text() {
    assert_eq!(extract_title("<h1>Hello</h1>"), "Hello");
    assert_eq!(
        extract_title("<p>intro</p>\n<h1>The Title</h1>\n<p>body</p>"),
        "The Title"
    );
}

#[test]
fn extract_title_capture_is_greedy_within_one_line() {
    assert_eq!(extract_title("<h1>a</h1>b</h1>"), "a</h1>b");
}

#[test]
fn extract_title_does_not_cross_lines() {
    assert_eq!(extract_title("<h1>broken\n</h1><h1>real</h1>"), "real");
}

#[test]
fn service_shorthand_links_expand_to_full_urls() {
    let (url, marker) = service_link("modrinth", Some("plugin"), "/ok").unwrap();
    assert_eq!(url, "https://modrinth.com/plugin/ok");
    assert_eq!(marker, "!--icon(modrinth)--! ");
    let (url, _) = service_link("github", None, "/website").unwrap();
    assert_eq!(url, "https://github.com/ashhhleyyy/website");
    let (url, _) = service_link("modrinth", None, "/thing").unwrap();
    assert_eq!(url, "https://modrinth.com/mod/thing");
    assert!(service_link("https", Some("example.com"), "/x").is_none());
}

#[test]
fn frontmatter_splits_at_the_first_fence() {
    let (description, body) = split_frontmatter("a summary\n---\n# The post\nbody");
    assert_eq!(description, "a summary");
    assert_eq!(body, "# The post\nbody");
}

#[test]
fn text_without_a_fence_is_all_body() {
    let (description, body) = split_frontmatter("# Just a post\nno fence here");
    assert_eq!(description, "");
    assert_eq!(body, "# Just a post\nno fence here");
}

#[test]
fn frontmatter_uses_only_the_first_fence() {
    let (description, body) = split_frontmatter("d\n---\nx\n---\ny");
    assert_eq!(description, "d");
    assert_eq!(body, "x\n---\ny");
}

#[test]
fn post_filenames_split_into_date_and_slug() {
    let (year, month, day, slug) = parse_post_filename("2023-04-01-hello-world.md").unwrap();
    assert_eq!(year, "2023");
    assert_eq!(month, "04");
    assert_eq!(day, "01");
    assert_eq!(slug, "hello-world");
}

#[test]
fn post_filename_match_is_leftmost() {
    let (year, _, _, slug) = parse_post_filename("x2023-04-01-a2z.md").unwrap();
    assert_eq!(year, "2023");
    assert_eq!(slug, "a2z");
}

#[test]
fn malformed_post_filenames_are_rejected() {
    assert!(parse_post_filename("notes.txt").is_none());
    assert!(parse_post_filename("2023-4-01-short-month.md").is_none());
    assert!(parse_post_filename("2023-04-01-Upper.md").is_none());
    assert!(parse_post_filename("2023-04-01-.md").is_none());
}

#[test]
fn project_filenames_split_into_year_and_slug() {
    let (year, slug) = parse_project_filename("2022-my-project.md").unwrap();
    assert_eq!(year, "2022");
    assert_eq!(slug, "my-project");
}

#[test]
fn project_slugs_hold_no_digits() {
    assert!(parse_project_filename("2022-v2-tool.md").is_none());
    assert!(parse_project_filename("2022-tool.md").is_some());
}

#[test]
fn allowlist_decides_which_pages_are_served() {
    let session = LoggedIn::new(vec!["About".to_string(), "Setup".to_string()]);
    assert!(session.allows("About"));
    assert!(session.allows("Setup"));
    assert!(!session.allows("Secret"));
}

#[test]
fn probe_not_found_means_one_upload() {
    assert_eq!(sync_decision(404), SyncAction::Upload);
}

#[test]
fn probe_found_means_no_upload() {
    assert_eq!(sync_decision(200), SyncAction::AlreadyPresent);
}

#[test]
fn other_probe_outcomes_are_reported_and_skipped() {
    assert_eq!(sync_decision(500), SyncAction::ReportError);
    assert_eq!(sync_decision(403), SyncAction::ReportError);
    assert_eq!(sync_decision(0), SyncAction::ReportError);
}
