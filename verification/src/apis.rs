//! Data carried by the site's outside feeds: the pronouns-page profile, the
//! now-playing feed, and the wiki client's state machine. The values are
//! fetched elsewhere; what the site decides from them is here.

use vstd::prelude::*;
use crate::paths::str_eq;

verus! {

/// The whole profile payload.
#[derive(Clone)]
pub struct PronounsPageProfile {
    pub profiles: PronounsPageProfiles,
}

/// The per-language profiles; only English is used.
#[derive(Clone)]
pub struct PronounsPageProfiles {
    pub en: PronounsPageCard,
}

/// One profile card: names, pronouns, flags and word lists.
#[derive(Clone)]
pub struct PronounsPageCard {
    pub names: Vec<Word>,
    pub pronouns: Vec<Word>,
    pub flags: Vec<String>,
    pub words: Vec<Words>,
}

/// A titled group of words.
#[derive(Clone)]
pub struct Words {
    pub header: Option<String>,
    pub values: Vec<Word>,
}

/// One word with the profile owner's opinion of it.
#[derive(Clone)]
pub struct Word {
    pub value: String,
    pub opinion: WordOpinion,
}

/// The opinion attached to a word.
#[derive(Clone, Copy, Debug, PartialEq, Eq, Structural)]
pub enum WordOpinion {
    Yes,
    Okay,
    Nope,
    Jokingly,
    OnlyClose,
}

impl WordOpinion {
    /// Only an outright refusal is negative.
    pub fn is_negative(&self) -> (r: bool)
        ensures
            r <==> *self is Nope,
    {
        match self {
            WordOpinion::Yes | WordOpinion::Jokingly | WordOpinion::OnlyClose
            | WordOpinion::Okay => false,
            WordOpinion::Nope => true,
        }
    }

    /// The emoji shown beside a word with this opinion.
    pub fn emoji(&self) -> (r: &'static str)
        ensures
            *self is Yes ==> r@ == "💜"@,
            *self is Jokingly ==> r@ == "😛"@,
            *self is OnlyClose ==> r@ == "🧑‍🤝‍🧑"@,
            *self is Okay ==> r@ == "👍"@,
            *self is Nope ==> r@ == "👎"@,
    {
        match self {
            WordOpinion::Yes => "💜",
            WordOpinion::Jokingly => "😛",
            WordOpinion::OnlyClose => "🧑‍🤝‍🧑",
            WordOpinion::Okay => "👍",
            WordOpinion::Nope => "👎",
        }
    }

    /// The opinion written out, as shown to readers.
    pub fn label(&self) -> (r: &'static str)
        ensures
            *self is Yes ==> r@ == "Yes"@,
            *self is Jokingly ==> r@ == "Jokingly"@,
            *self is OnlyClose ==> r@ == "Only if we're close"@,
            *self is Okay ==> r@ == "Okay"@,
            *self is Nope ==> r@ == "Nope"@,
    {
        match self {
            WordOpinion::Yes => "Yes",
            WordOpinion::Jokingly => "Jokingly",
            WordOpinion::OnlyClose => "Only if we're close",
            WordOpinion::Okay => "Okay",
            WordOpinion::Nope => "Nope",
        }
    }
}

/// What the now-playing feed last reported.
#[derive(Clone, Debug)]
pub struct NowPlayingInfo {
    pub state: PlaybackState,
    pub title: String,
    pub track_id: Option<String>,
    pub album: String,
    pub album_artwork: Option<String>,
    pub artist: String,
    pub artist_artwork: Option<String>,
}

/// Whether a track is playing right now or was played recently.
#[derive(Clone, Copy, Debug, PartialEq, Eq, Structural)]
pub enum PlaybackState {
    Playing,
    Recent,
}

impl PlaybackState {
    /// Whether a track is playing right now.
    pub fn playing(&self) -> (r: bool)
        ensures
            r <==> *self is Playing,
    {
        match self {
            PlaybackState::Playing => true,
            PlaybackState::Recent => false,
        }
    }
}

/// A fediverse account, as shown beside an embedded post.
#[derive(Clone)]
pub struct AccountData {
    pub avatar_static: String,
    pub avatar: String,
    pub display_name: String,
    pub fqn: String,
    pub url: String,
}

/// One media attachment of an embedded post.
#[derive(Clone)]
pub struct Attatchment {
    pub description: String,
    pub ty: String,
    pub url: String,
}

/// A state of the wiki client: it holds credentials before logging in, and
/// the page allowlist afterwards.
pub trait ClientState {

}

/// Credentials for a wiki not yet logged into.
#[derive(Clone)]
pub struct Credentials {
    pub username: String,
    pub password: String,
}

/// A logged-in wiki session: only allowlisted pages may be served.
#[derive(Clone)]
pub struct LoggedIn {
    allowed_pages: Vec<String>,
}

impl ClientState for Credentials {

}

impl ClientState for LoggedIn {

}

impl LoggedIn {
    /// The titles this session may serve.
    pub closed spec fn allowlist(&self) -> Seq<Seq<char>> {
        Seq::new(self.allowed_pages@.len(), |i: int| self.allowed_pages@[i]@)
    }

    /// A session allowing exactly the given page titles.
    pub fn new(allowed_pages: Vec<String>) -> (r: LoggedIn)
        ensures
            r.allowlist() == Seq::new(allowed_pages@.len(), |i: int| allowed_pages@[i]@),
    {
        LoggedIn { allowed_pages }
    }

    /// Whether a page title is on the allowlist; a title that is not is
    /// never fetched or served.
    pub fn allows(&self, title: &str) -> (r: bool)
        ensures
            r == exists|i: int| 0 <= i < self.allowlist().len() && self.allowlist()[i] == title@,
    {
        let mut k: usize = 0;
        while k < self.allowed_pages.len()
            invariant
                k <= self.allowed_pages@.len(),
                forall|i: int| 0 <= i < k ==> self.allowlist()[i] != title@,
            decreases self.allowed_pages@.len() - k,
        {
            if str_eq(self.allowed_pages[k].as_str(), title) {
                proof {
                    assert(self.allowlist()[k as int] == title@);
                }
                return true;
            }
            k += 1;
        }
        false
    }
}

/// The wiki's parse API response.
pub struct ParseResponse {
    pub parse: Parse,
}

/// One parsed page: its title, revision, and rendered text.
pub struct Parse {
    pub title: String,
    pub revid: i64,
    pub text: Text,
}

/// The rendered HTML of a parsed page.
pub struct Text {
    pub content: String,
}

} // verus!
