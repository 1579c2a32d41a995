//! Project pages as the site shows them: a project's year and slug come
//! from its source file's name (a year, then a slug of letters and
//! dashes, then the markdown suffix), and its canonical URL is derived
//! from them.

use vstd::prelude::*;
use vstd::string::StrSliceExecFns;
use vstd::string::StringExecFns;
use crate::blog::is_digit_char;
use crate::markdown::occurs_at;
use crate::markdown::occurs_at_exec;

verus! {

/// A character a project slug may hold: a lowercase letter or '-'.
pub open spec fn is_project_slug_char(c: char) -> bool {
    ('a' <= c && c <= 'z') || c == '-'
}

/// Whether a project source name matches at `p`: four year digits, a
/// dash, then a nonempty slug running to the markdown suffix that ends
/// the name.
pub open spec fn project_name_match_at(s: Seq<char>, p: int) -> bool {
    &&& 0 <= p
    &&& p + 9 <= s.len()
    &&& (forall|t: int| p <= t < p + 4 ==> is_digit_char(#[trigger] s[t]))
    &&& s[p + 4] == '-'
    &&& (forall|t: int| p + 5 <= t < s.len() - 3 ==> is_project_slug_char(#[trigger] s[t]))
    &&& occurs_at(s, ".md"@, s.len() - 3)
}

/// The first position at or after `from` where a project source name
/// matches, or -1.
pub open spec fn first_project_name_match(s: Seq<char>, from: int) -> int
    decreases s.len() - from + 1,
{
    if from < 0 || from + 9 > s.len() {
        -1
    } else if project_name_match_at(s, from) {
        from
    } else {
        first_project_name_match(s, from + 1)
    }
}

/// Whether a project source name matches at `p`.
fn project_name_match_exec(s: &str, p: usize) -> (r: bool)
    requires
        p + 9 <= s@.len(),
    ensures
        r == project_name_match_at(s@, p as int),
{
    let n = s.unicode_len();
    proof {
        reveal_strlit(".md");
    }
    let mut k = p;
    while k < p + 4
        invariant
            p <= k <= p + 4,
            p + 9 <= n == s@.len(),
            forall|t: int| p <= t < k ==> is_digit_char(#[trigger] s@[t]),
        decreases p + 4 - k,
    {
        let c = s.get_char(k);
        if !('0' <= c && c <= '9') {
            return false;
        }
        k += 1;
    }
    if s.get_char(p + 4) != '-' {
        return false;
    }
    let mut k = p + 5;
    while k < n - 3
        invariant
            p + 5 <= k <= n - 3,
            p + 9 <= n == s@.len(),
            forall|t: int| p + 5 <= t < k ==> is_project_slug_char(#[trigger] s@[t]),
        decreases n - k,
    {
        let c = s.get_char(k);
        if !(('a' <= c && c <= 'z') || c == '-') {
            return false;
        }
        k += 1;
    }
    occurs_at_exec(s, ".md", n - 3)
}

/// Split a project source name into its year and slug, at the first
/// position where the name shape matches; None when it matches nowhere.
#[verifier::loop_isolation(false)]
pub fn parse_project_filename(filename: &str) -> (r: Option<(String, String)>)
    ensures
        r is Some <==> first_project_name_match(filename@, 0) >= 0,
        r is Some ==> ({
            let p = first_project_name_match(filename@, 0);
            &&& r->Some_0.0@ == filename@.subrange(p, p + 4)
            &&& r->Some_0.1@ == filename@.subrange(p + 5, filename@.len() - 3)
        }),
{
    let n = filename.unicode_len();
    if n < 9 {
        return None;
    }
    let mut p: usize = 0;
    while p <= n - 9
        invariant
            p <= n,
            first_project_name_match(filename@, 0) == first_project_name_match(
                filename@,
                p as int,
            ),
        decreases n - p,
    {
        if project_name_match_exec(filename, p) {
            let year = String::from_str(filename.substring_char(p, p + 4));
            let slug = String::from_str(filename.substring_char(p + 5, n - 3));
            return Some((year, slug));
        }
        p += 1;
    }
    None
}

/// One rendered project page.
pub struct Project {
    pub year: String,
    pub slug: String,
    pub title: String,
    pub description: String,
    pub rendered: String,
}

impl Project {
    /// The canonical URL path of this project.
    pub fn url(&self) -> (r: String)
        ensures
            r@ == "/projects/"@ + self.year@ + "/"@ + self.slug@,
    {
        String::from_str("/projects/").concat(self.year.as_str()).concat("/").concat(
            self.slug.as_str(),
        )
    }
}

} // verus!
