//! Blog posts as the site shows them: a post's date parts and slug come
//! from its source file's name (year-month-day-slug followed by the
//! markdown suffix), and its canonical URL and date line are derived from
//! them.

use vstd::prelude::*;
use vstd::multiset::Multiset;
use vstd::string::StrSliceExecFns;
use vstd::string::StringExecFns;
use crate::markdown::occurs_at;
use crate::markdown::occurs_at_exec;

verus! {

broadcast use vstd::seq_lib::group_to_multiset_ensures, vstd::multiset::group_multiset_axioms;

/// Lexicographic order on texts, by character scalar value; shorter
/// prefixes come first.
pub open spec fn lex_le(a: Seq<char>, b: Seq<char>) -> bool
    decreases a.len(),
{
    if a.len() == 0 {
        true
    } else if b.len() == 0 {
        false
    } else if (a[0] as u32) < (b[0] as u32) {
        true
    } else if (a[0] as u32) > (b[0] as u32) {
        false
    } else {
        lex_le(a.skip(1), b.skip(1))
    }
}

/// Any two texts compare one way or the other.
proof fn lemma_lex_total(a: Seq<char>, b: Seq<char>)
    ensures
        lex_le(a, b) || lex_le(b, a),
    decreases a.len(),
{
    if a.len() == 0 || b.len() == 0 {
    } else if (a[0] as u32) == (b[0] as u32) {
        lemma_lex_total(a.skip(1), b.skip(1));
    }
}

/// The lexicographic order is transitive.
proof fn lemma_lex_trans(a: Seq<char>, b: Seq<char>, c: Seq<char>)
    requires
        lex_le(a, b),
        lex_le(b, c),
    ensures
        lex_le(a, c),
    decreases a.len(),
{
    if a.len() == 0 {
    } else {
        assert(b.len() > 0);
        assert(c.len() > 0);
        if (a[0] as u32) == (b[0] as u32) && (b[0] as u32) == (c[0] as u32) {
            lemma_lex_trans(a.skip(1), b.skip(1), c.skip(1));
        }
    }
}

/// Whether one text sorts at or before another, lexicographically.
fn str_lex_le(a: &str, b: &str) -> (r: bool)
    ensures
        r == lex_le(a@, b@),
{
    let na = a.unicode_len();
    let nb = b.unicode_len();
    let mut i: usize = 0;
    proof {
        assert(a@.skip(0) =~= a@);
        assert(b@.skip(0) =~= b@);
    }
    while i < na && i < nb
        invariant
            i <= na,
            i <= nb,
            na == a@.len(),
            nb == b@.len(),
            lex_le(a@, b@) == lex_le(a@.skip(i as int), b@.skip(i as int)),
        decreases na - i,
    {
        let ca = a.get_char(i);
        let cb = b.get_char(i);
        proof {
            assert(a@.skip(i as int)[0] == ca);
            assert(b@.skip(i as int)[0] == cb);
        }
        if (ca as u32) < (cb as u32) {
            return true;
        }
        if (ca as u32) > (cb as u32) {
            return false;
        }
        proof {
            assert(a@.skip(i as int).skip(1) =~= a@.skip(i + 1));
            assert(b@.skip(i as int).skip(1) =~= b@.skip(i + 1));
        }
        i += 1;
    }
    if i >= na {
        proof {
            assert(a@.skip(i as int).len() == 0);
        }
        true
    } else {
        proof {
            assert(b@.skip(i as int).len() == 0);
            assert(a@.skip(i as int).len() > 0);
        }
        false
    }
}

/// A decimal digit.
pub open spec fn is_digit_char(c: char) -> bool {
    '0' <= c && c <= '9'
}

/// A character a post slug may hold: a lowercase letter, a digit, or '-'.
pub open spec fn is_slug_char(c: char) -> bool {
    ('a' <= c && c <= 'z') || is_digit_char(c) || c == '-'
}

/// Whether a post source name matches at `p`: four date digits, two and
/// two more, dash-separated, then a nonempty slug running to the markdown
/// suffix that ends the name.
pub open spec fn post_name_match_at(s: Seq<char>, p: int) -> bool {
    &&& 0 <= p
    &&& p + 15 <= s.len()
    &&& (forall|t: int| p <= t < p + 4 ==> is_digit_char(#[trigger] s[t]))
    &&& s[p + 4] == '-'
    &&& (forall|t: int| p + 5 <= t < p + 7 ==> is_digit_char(#[trigger] s[t]))
    &&& s[p + 7] == '-'
    &&& (forall|t: int| p + 8 <= t < p + 10 ==> is_digit_char(#[trigger] s[t]))
    &&& s[p + 10] == '-'
    &&& (forall|t: int| p + 11 <= t < s.len() - 3 ==> is_slug_char(#[trigger] s[t]))
    &&& occurs_at(s, ".md"@, s.len() - 3)
}

/// The first position at or after `from` where a post source name matches,
/// or -1.
pub open spec fn first_post_name_match(s: Seq<char>, from: int) -> int
    decreases s.len() - from + 1,
{
    if from < 0 || from + 15 > s.len() {
        -1
    } else if post_name_match_at(s, from) {
        from
    } else {
        first_post_name_match(s, from + 1)
    }
}

/// The key a post sorts by: its date written year-month-day.
pub open spec fn date_key(p: BlogPost) -> Seq<char> {
    p.year@ + "-"@ + p.month@ + "-"@ + p.day@
}

/// Posts ordered newest first: every later entry's date key is at most
/// the earlier one's.
pub open spec fn newest_first(posts: Seq<BlogPost>) -> bool {
    forall|i: int, j: int|
        0 <= i < j < posts.len() ==> lex_le(date_key(#[trigger] posts[j]), date_key(
            #[trigger] posts[i],
        ))
}

/// Order posts newest first by their dates, keeping exactly the same
/// posts: the blog index lists the latest post first.
#[verifier::loop_isolation(false)]
pub fn sort_posts_newest_first(posts: Vec<BlogPost>) -> (r: Vec<BlogPost>)
    ensures
        r@.to_multiset() == posts@.to_multiset(),
        newest_first(r@),
{
    let ghost orig = posts@;
    let mut posts = posts;
    let mut out: Vec<BlogPost> = Vec::new();
    while posts.len() > 0
        invariant
            out@.to_multiset().add(posts@.to_multiset()) == orig.to_multiset(),
            newest_first(out@),
        decreases posts@.len(),
    {
        let ghost prevposts = posts@;
        let ghost prevout = out@;
        let p = posts.remove(0);
        proof {
            assert(posts@.to_multiset() == prevposts.to_multiset().remove(p));
            assert(prevposts.to_multiset().count(p) > 0);
        }
        let key = p.date();
        let mut idx: usize = 0;
        while idx < out.len() && str_lex_le(key.as_str(), out[idx].date().as_str())
            invariant
                idx <= out@.len(),
                key@ == date_key(p),
                forall|k: int| 0 <= k < idx ==> lex_le(date_key(p), date_key(#[trigger] out@[k])),
            decreases out@.len() - idx,
        {
            idx += 1;
        }
        proof {
            if idx < prevout.len() {
                lemma_lex_total(date_key(p), date_key(prevout[idx as int]));
                assert(lex_le(date_key(prevout[idx as int]), date_key(p)));
            }
        }
        out.insert(idx, p);
        proof {
            assert(out@ == prevout.insert(idx as int, p));
            assert(out@.to_multiset() == prevout.to_multiset().insert(p));
            assert(out@.to_multiset().add(posts@.to_multiset()) =~= orig.to_multiset());
            assert forall|i: int, j: int|
                0 <= i < j < out@.len() implies lex_le(date_key(#[trigger] out@[j]), date_key(
                #[trigger] out@[i])) by {
                if j < idx {
                    assert(out@[i] == prevout[i] && out@[j] == prevout[j]);
                } else if j == idx {
                    assert(out@[i] == prevout[i] && out@[j] == p);
                } else if i == idx {
                    assert(out@[i] == p && out@[j] == prevout[j - 1]);
                    if j - 1 == idx {
                        assert(lex_le(date_key(prevout[idx as int]), date_key(p)));
                    } else {
                        assert(lex_le(date_key(prevout[j - 1]), date_key(prevout[idx as int])));
                        lemma_lex_trans(
                            date_key(prevout[j - 1]),
                            date_key(prevout[idx as int]),
                            date_key(p),
                        );
                    }
                } else if i < idx {
                    assert(out@[i] == prevout[i] && out@[j] == prevout[j - 1]);
                    assert(i < j - 1);
                } else {
                    assert(out@[i] == prevout[i - 1] && out@[j] == prevout[j - 1]);
                }
            }
        }
    }
    proof {
        assert forall|x: BlogPost| posts@.to_multiset().count(x) == 0 by {
            if posts@.to_multiset().count(x) > 0 {
                assert(posts@.contains(x));
            }
        }
        assert(posts@.to_multiset() =~= Multiset::<BlogPost>::empty());
        assert(out@.to_multiset() =~= orig.to_multiset());
    }
    out
}

/// Whether a digit stands at each index of [i, j) of the name.
fn digits_at(s: &str, i: usize, j: usize) -> (r: bool)
    requires
        i <= j <= s@.len(),
    ensures
        r == forall|t: int| i <= t < j ==> is_digit_char(#[trigger] s@[t]),
{
    let mut k = i;
    while k < j
        invariant
            i <= k <= j,
            j <= s@.len(),
            forall|t: int| i <= t < k ==> is_digit_char(#[trigger] s@[t]),
        decreases j - k,
    {
        let c = s.get_char(k);
        if !('0' <= c && c <= '9') {
            return false;
        }
        k += 1;
    }
    true
}

/// Whether a post source name matches at `p`.
fn post_name_match_exec(s: &str, p: usize) -> (r: bool)
    requires
        p + 15 <= s@.len(),
    ensures
        r == post_name_match_at(s@, p as int),
{
    let n = s.unicode_len();
    proof {
        reveal_strlit(".md");
    }
    let r = digits_at(s, p, p + 4) && s.get_char(p + 4) == '-' && digits_at(s, p + 5, p + 7)
        && s.get_char(p + 7) == '-' && digits_at(s, p + 8, p + 10) && s.get_char(p + 10) == '-'
        && slug_chars_at(s, p + 11, n - 3) && occurs_at_exec(s, ".md", n - 3);
    r
}

/// Whether a slug character stands at each index of [i, j) of the name.
fn slug_chars_at(s: &str, i: usize, j: usize) -> (r: bool)
    requires
        i <= j <= s@.len(),
    ensures
        r == forall|t: int| i <= t < j ==> is_slug_char(#[trigger] s@[t]),
{
    let mut k = i;
    while k < j
        invariant
            i <= k <= j,
            j <= s@.len(),
            forall|t: int| i <= t < k ==> is_slug_char(#[trigger] s@[t]),
        decreases j - k,
    {
        let c = s.get_char(k);
        if !(('a' <= c && c <= 'z') || ('0' <= c && c <= '9') || c == '-') {
            return false;
        }
        k += 1;
    }
    true
}

/// Split a post source name into its date parts and slug, at the first
/// position where the name shape matches; None when it matches nowhere.
#[verifier::loop_isolation(false)]
pub fn parse_post_filename(filename: &str) -> (r: Option<(String, String, String, String)>)
    ensures
        r is Some <==> first_post_name_match(filename@, 0) >= 0,
        r is Some ==> ({
            let p = first_post_name_match(filename@, 0);
            &&& r->Some_0.0@ == filename@.subrange(p, p + 4)
            &&& r->Some_0.1@ == filename@.subrange(p + 5, p + 7)
            &&& r->Some_0.2@ == filename@.subrange(p + 8, p + 10)
            &&& r->Some_0.3@ == filename@.subrange(p + 11, filename@.len() - 3)
        }),
{
    let n = filename.unicode_len();
    if n < 15 {
        return None;
    }
    let mut p: usize = 0;
    while p <= n - 15
        invariant
            p <= n,
            first_post_name_match(filename@, 0) == first_post_name_match(filename@, p as int),
        decreases n - p,
    {
        if post_name_match_exec(filename, p) {
            let year = String::from_str(filename.substring_char(p, p + 4));
            let month = String::from_str(filename.substring_char(p + 5, p + 7));
            let day = String::from_str(filename.substring_char(p + 8, p + 10));
            let slug = String::from_str(filename.substring_char(p + 11, n - 3));
            return Some((year, month, day, slug));
        }
        p += 1;
    }
    None
}

/// One rendered blog post.
pub struct BlogPost {
    pub year: String,
    pub month: String,
    pub day: String,
    pub slug: String,
    pub title: String,
    pub description: String,
    pub rendered: String,
}

impl BlogPost {
    /// The canonical URL path of this post.
    pub fn url(&self) -> (r: String)
        ensures
            r@ == "/blog/"@ + self.year@ + "-"@ + self.month@ + "-"@ + self.day@ + "-"@
                + self.slug@,
    {
        String::from_str("/blog/").concat(self.year.as_str()).concat("-").concat(
            self.month.as_str(),
        ).concat("-").concat(self.day.as_str()).concat("-").concat(self.slug.as_str())
    }

    /// The post's date, written year-month-day.
    pub fn date(&self) -> (r: String)
        ensures
            r@ == self.year@ + "-"@ + self.month@ + "-"@ + self.day@,
    {
        String::from_str(self.year.as_str()).concat("-").concat(self.month.as_str()).concat(
            "-",
        ).concat(self.day.as_str())
    }
}

} // verus!
