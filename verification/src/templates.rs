//! The data each page template renders. Rendering itself (template
//! expansion and HTML rewriting) happens outside; these types say exactly
//! what a page is given.

use vstd::prelude::*;
use crate::apis::NowPlayingInfo;
use crate::apis::PronounsPageCard;
use crate::blog::BlogPost;

verus! {

/// The words page: the profile card to show.
pub struct WordsTemplate {
    pub card: PronounsPageCard,
}

/// The music page: what is (or was last) playing.
pub struct MusicTemplate {
    pub playing: NowPlayingInfo,
}

/// The blog index: every post, newest first.
pub struct BlogIndexTemplate {
    pub posts: Vec<BlogPost>,
}

/// One blog post page.
pub struct BlogPostTemplate {
    pub title: String,
    pub date: String,
    pub description: String,
    pub content: String,
}

/// The projects index: titles and URLs grouped by year.
pub struct ProjectsTemplate {
    pub projects_by_year: Vec<(String, Vec<(String, String)>)>,
}

/// One project page.
pub struct ProjectTemplate {
    pub title: String,
    pub description: String,
    pub content: String,
}

/// One extra page fetched from the wiki.
pub struct ExtraTemplate {
    pub title: String,
    pub content: String,
}

/// The error page.
pub struct ErrorTemplate {
    pub error_code: u16,
    pub error_message: String,
}

/// A template paired with the request path it renders for; the path decides
/// which navigation link is highlighted.
pub struct HtmlTemplate<T> {
    pub path: String,
    pub template: T,
}

impl<T> HtmlTemplate<T> {
    /// Pair a template with its request path.
    pub fn new(path: String, template: T) -> (r: Self)
        ensures
            r.path@ == path@,
            r.template == template,
    {
        HtmlTemplate { path, template }
    }
}

} // verus!
