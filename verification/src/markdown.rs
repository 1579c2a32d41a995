//! Reading rendered markdown: a post's title is the text of its first
//! heading line, the capture of the leftmost `<h1>(.*)</h1>` match where
//! the capture is greedy and never crosses a newline.

use vstd::prelude::*;
use vstd::string::StrSliceExecFns;
use vstd::string::StringExecFns;
use crate::paths::str_eq;

verus! {

/// The link target a service shorthand expands to, with the icon marker
/// put before the link text: a modrinth or github scheme becomes a full
/// URL on that service (with a default account when the link names no
/// host); any other scheme is left alone.
pub fn service_link(scheme: &str, host: Option<&str>, path: &str) -> (r: Option<(String, String)>)
    ensures
        r is Some <==> (scheme@ == "modrinth"@ || scheme@ == "github"@),
        scheme@ == "modrinth"@ ==> r->Some_0.0@ == "https://modrinth.com/"@ + (match host {
            Some(h) => h@,
            None => "mod"@,
        }) + path@,
        scheme@ == "github"@ ==> r->Some_0.0@ == "https://github.com/"@ + (match host {
            Some(h) => h@,
            None => "ashhhleyyy"@,
        }) + path@,
        r is Some ==> r->Some_0.1@ == "!--icon("@ + scheme@ + ")--! "@,
{
    proof {
        reveal_strlit("modrinth");
        reveal_strlit("github");
    }
    let base: &str = if str_eq(scheme, "modrinth") {
        "https://modrinth.com/"
    } else if str_eq(scheme, "github") {
        "https://github.com/"
    } else {
        return None;
    };
    let account: &str = match host {
        Some(h) => h,
        None => if str_eq(scheme, "modrinth") {
            "mod"
        } else {
            "ashhhleyyy"
        },
    };
    let url = String::from_str(base).concat(account).concat(path);
    let marker = String::from_str("!--icon(").concat(scheme).concat(")--! ");
    Some((url, marker))
}

/// Whether `pat` occurs in `s` starting at index `i`.
pub open spec fn occurs_at(s: Seq<char>, pat: Seq<char>, i: int) -> bool {
    0 <= i && i + pat.len() <= s.len() && s.subrange(i, i + pat.len()) == pat
}

/// The first index at or after `from` where `pat` occurs, or -1.
pub open spec fn find_from(s: Seq<char>, pat: Seq<char>, from: int) -> int
    decreases s.len() - from + 1,
{
    if from < 0 || from + pat.len() > s.len() {
        -1
    } else if occurs_at(s, pat, from) {
        from
    } else {
        find_from(s, pat, from + 1)
    }
}

/// The index of the first newline at or after `from`, or the text's length.
pub open spec fn line_end_from(s: Seq<char>, from: int) -> int
    decreases s.len() - from,
{
    if from < 0 || from >= s.len() {
        s.len() as int
    } else if s[from] == '\n' {
        from
    } else {
        line_end_from(s, from + 1)
    }
}

/// The last index in [from, end - pat.len()] where `pat` occurs, or -1.
pub open spec fn rfind_between(s: Seq<char>, pat: Seq<char>, from: int, end: int) -> int
    decreases end - from + 1,
{
    if from < 0 || end - from < pat.len() {
        -1
    } else if occurs_at(s, pat, end - pat.len()) {
        end - pat.len()
    } else {
        rfind_between(s, pat, from, end - 1)
    }
}

/// The capture span of the leftmost `<h1>(.*)</h1>` match starting at or
/// after `from`: after an opening tag, the capture runs greedily to the
/// last closing tag on the same line; an opening tag with no closing tag
/// on its line cannot start a match.
pub open spec fn title_span(s: Seq<char>, from: int) -> Option<(int, int)>
    decreases s.len() - from,
{
    let p = find_from(s, "<h1>"@, from);
    if from < 0 || from >= s.len() || p < 0 {
        None
    } else {
        let e = line_end_from(s, p + 4);
        let q = rfind_between(s, "</h1>"@, p + 4, e + 5);
        if q >= 0 {
            Some((p + 4, q))
        } else {
            title_span(s, from + 1)
        }
    }
}

/// A found occurrence index is at or after `from` and is an occurrence.
proof fn lemma_find_from_props(s: Seq<char>, pat: Seq<char>, from: int)
    ensures
        find_from(s, pat, from) == -1 || (find_from(s, pat, from) >= from && occurs_at(
            s,
            pat,
            find_from(s, pat, from),
        )),
    decreases s.len() - from + 1,
{
    if from < 0 || from + pat.len() > s.len() {
    } else if occurs_at(s, pat, from) {
    } else {
        lemma_find_from_props(s, pat, from + 1);
    }
}

/// The end of a line lies between `from` and the text's end.
proof fn lemma_line_end_props(s: Seq<char>, from: int)
    requires
        0 <= from <= s.len(),
    ensures
        from <= line_end_from(s, from) <= s.len(),
    decreases s.len() - from,
{
    if from >= s.len() {
    } else if s[from] == '\n' {
    } else {
        lemma_line_end_props(s, from + 1);
    }
}

/// A found last occurrence is at or after `from` and is an occurrence.
proof fn lemma_rfind_props(s: Seq<char>, pat: Seq<char>, from: int, end: int)
    ensures
        rfind_between(s, pat, from, end) == -1 || (rfind_between(s, pat, from, end) >= from
            && occurs_at(s, pat, rfind_between(s, pat, from, end))),
    decreases end - from + 1,
{
    if from < 0 || end - from < pat.len() {
    } else if occurs_at(s, pat, end - pat.len()) {
    } else {
        lemma_rfind_props(s, pat, from, end - 1);
    }
}

/// Beyond the text's end no occurrence starts, so the search bound can be
/// brought back to the text's length.
proof fn lemma_rfind_clamp(s: Seq<char>, pat: Seq<char>, from: int, end: int)
    requires
        end >= s.len(),
        pat.len() >= 1,
    ensures
        rfind_between(s, pat, from, end) == rfind_between(s, pat, from, s.len() as int),
    decreases end - s.len(),
{
    if end > s.len() {
        if from < 0 || end - from < pat.len() {
            assert(s.len() - from < pat.len() || from < 0);
        } else {
            assert(!occurs_at(s, pat, end - pat.len()));
        }
        lemma_rfind_clamp(s, pat, from, end - 1);
    }
}

/// A capture span lies inside the text, after its opening tag.
proof fn lemma_title_span_props(s: Seq<char>, from: int)
    requires
        title_span(s, from) is Some,
    ensures
        ({
            let (a, b) = title_span(s, from)->Some_0;
            0 <= a <= b && b + 5 <= s.len()
        }),
    decreases s.len() - from,
{
    let p = find_from(s, "<h1>"@, from);
    lemma_find_from_props(s, "<h1>"@, from);
    reveal_strlit("<h1>");
    reveal_strlit("</h1>");
    if p >= 0 {
        let e = line_end_from(s, p + 4);
        let q = rfind_between(s, "</h1>"@, p + 4, e + 5);
        if q >= 0 {
            lemma_rfind_props(s, "</h1>"@, p + 4, e + 5);
        } else {
            lemma_title_span_props(s, from + 1);
        }
    }
}

/// Whether `pat` occurs in `s` at index `i`.
pub(crate) fn occurs_at_exec(s: &str, pat: &str, i: usize) -> (r: bool)
    ensures
        r == occurs_at(s@, pat@, i as int),
{
    let n = s.unicode_len();
    let m = pat.unicode_len();
    if i > n || m > n - i {
        return false;
    }
    let mut j: usize = 0;
    while j < m
        invariant
            j <= m,
            m == pat@.len(),
            n == s@.len(),
            i + m <= n,
            forall|t: int| 0 <= t < j ==> s@[i + t] == pat@[t],
        decreases m - j,
    {
        if s.get_char(i + j) != pat.get_char(j) {
            proof {
                assert(s@.subrange(i as int, i + m)[j as int] != pat@[j as int]);
            }
            return false;
        }
        j += 1;
    }
    proof {
        assert(s@.subrange(i as int, i + m) =~= pat@);
    }
    true
}

/// The first occurrence of `pat` at or after `from`, if any.
#[verifier::loop_isolation(false)]
fn find_from_exec(s: &str, pat: &str, from: usize) -> (r: Option<usize>)
    requires
        pat@.len() >= 1,
    ensures
        r is Some <==> find_from(s@, pat@, from as int) >= 0,
        r is Some ==> r->Some_0 == find_from(s@, pat@, from as int),
{
    let n = s.unicode_len();
    let m = pat.unicode_len();
    if m > n || from > n - m {
        return None;
    }
    let mut i = from;
    while i <= n - m
        invariant
            from <= i,
            i <= n - m + 1,
            find_from(s@, pat@, from as int) == find_from(s@, pat@, i as int),
        decreases n - i,
    {
        if occurs_at_exec(s, pat, i) {
            return Some(i);
        }
        i += 1;
    }
    None
}

/// The first newline at or after `from`, or the text's length.
#[verifier::loop_isolation(false)]
fn line_end_exec(s: &str, from: usize) -> (r: usize)
    requires
        from <= s@.len(),
    ensures
        r == line_end_from(s@, from as int),
{
    let n = s.unicode_len();
    let mut i = from;
    while i < n
        invariant
            from <= i <= n,
            line_end_from(s@, from as int) == line_end_from(s@, i as int),
        decreases n - i,
    {
        if s.get_char(i) == '\n' {
            return i;
        }
        i += 1;
    }
    n
}

/// The last occurrence of `pat` in [from, end - pat.len()], if any.
#[verifier::loop_isolation(false)]
fn rfind_exec(s: &str, pat: &str, from: usize, end: usize) -> (r: Option<usize>)
    requires
        pat@.len() >= 1,
    ensures
        r is Some <==> rfind_between(s@, pat@, from as int, end as int) >= 0,
        r is Some ==> r->Some_0 == rfind_between(s@, pat@, from as int, end as int),
{
    let m = pat.unicode_len();
    let mut e = end;
    while e >= m && e - m >= from
        invariant
            e <= end,
            rfind_between(s@, pat@, from as int, end as int) == rfind_between(
                s@,
                pat@,
                from as int,
                e as int,
            ),
        decreases e,
    {
        if occurs_at_exec(s, pat, e - m) {
            return Some(e - m);
        }
        e -= 1;
    }
    None
}

/// The capture span of the leftmost heading match at or after `from`.
#[verifier::loop_isolation(false)]
fn title_span_exec(s: &str, from: usize) -> (r: Option<(usize, usize)>)
    requires
        from <= s@.len(),
    ensures
        r is Some <==> title_span(s@, from as int) is Some,
        r is Some ==> (r->Some_0.0 as int, r->Some_0.1 as int) == title_span(
            s@,
            from as int,
        )->Some_0,
    decreases s@.len() - from,
{
    proof {
        reveal_strlit("<h1>");
        reveal_strlit("</h1>");
    }
    let n = s.unicode_len();
    match find_from_exec(s, "<h1>", from) {
        None => None,
        Some(p) => {
            proof {
                lemma_find_from_props(s@, "<h1>"@, from as int);
            }
            let e = line_end_exec(s, p + 4);
            proof {
                lemma_line_end_props(s@, p + 4);
            }
            let bound = if n - e < 5 {
                proof {
                    lemma_rfind_clamp(s@, "</h1>"@, p + 4, e + 5);
                    lemma_rfind_clamp(s@, "</h1>"@, p + 4, n as int);
                }
                n
            } else {
                e + 5
            };
            match rfind_exec(s, "</h1>", p + 4, bound) {
                Some(q) => Some((p + 4, q)),
                None => title_span_exec(s, from + 1),
            }
        },
    }
}

/// Split a post's front matter from its body: the text before the first
/// front-matter fence (a dashed line of its own) is the description, what
/// follows the fence is the body; a text without the fence is all body,
/// with an empty description.
pub fn split_frontmatter(markdown: &str) -> (r: (String, String))
    ensures
        find_from(markdown@, "\n---\n"@, 0) >= 0 ==> ({
            let f = find_from(markdown@, "\n---\n"@, 0);
            r.0@ == markdown@.subrange(0, f) && r.1@ == markdown@.subrange(
                f + 5,
                markdown@.len() as int,
            )
        }),
        find_from(markdown@, "\n---\n"@, 0) < 0 ==> r.0@ == Seq::<char>::empty() && r.1@
            == markdown@,
{
    proof {
        reveal_strlit("\n---\n");
    }
    match find_from_exec(markdown, "\n---\n", 0) {
        Some(f) => {
            let n = markdown.unicode_len();
            proof {
                lemma_find_from_props(markdown@, "\n---\n"@, 0);
                assert(f + 5 <= n);
            }
            let description = String::from_str(markdown.substring_char(0, f));
            let body = String::from_str(markdown.substring_char(f + 5, n));
            (description, body)
        },
        None => (String::new(), String::from_str(markdown)),
    }
}

/// The title of a rendered post: the text of its first heading, the
/// capture of the leftmost `<h1>(.*)</h1>` match.
pub fn extract_title(content: &str) -> (r: &str)
    requires
        title_span(content@, 0) is Some,
    ensures
        r@ == content@.subrange(title_span(content@, 0)->Some_0.0, title_span(content@, 0)->Some_0.1),
{
    proof {
        lemma_title_span_props(content@, 0);
    }
    match title_span_exec(content, 0) {
        Some((a, b)) => content.substring_char(a, b),
        None => {
            proof {
                assert(false);
            }
            content
        },
    }
}

} // verus!
