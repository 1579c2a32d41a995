//! Path and filename string logic: the final component of a slash-separated
//! path, its extension, and extension replacement. These mirror how the
//! pipeline names its outputs; paths are forward-slash separated strings.

use vstd::prelude::*;
use vstd::string::StrSliceExecFns;
use vstd::string::StringExecFns;

verus! {

/// The final component of a path: everything after the last '/', or the
/// whole path when it has no '/'.
pub open spec fn file_name_spec(path: Seq<char>) -> Seq<char>
    decreases path.len(),
{
    if path.len() == 0 {
        path
    } else if path.last() == '/' {
        Seq::empty()
    } else {
        file_name_spec(path.drop_last()).push(path.last())
    }
}

/// The index of the last '.' of a name, or -1 when it has none.
pub open spec fn last_dot(name: Seq<char>) -> int
    decreases name.len(),
{
    if name.len() == 0 {
        -1
    } else if name.last() == '.' {
        name.len() - 1
    } else {
        last_dot(name.drop_last())
    }
}

/// Whether a file name has an extension: a '.' that is neither absent nor
/// the leading character (a name such as a bare dotfile has none).
pub open spec fn has_extension(name: Seq<char>) -> bool {
    last_dot(name) > 0
}

/// The extension of a name: what follows its last '.'. Meaningful only when
/// `has_extension` holds.
pub open spec fn extension_spec(name: Seq<char>) -> Seq<char> {
    name.subrange(last_dot(name) + 1, name.len() as int)
}

/// The name with its extension (and the '.') removed; the whole name when it
/// has no extension.
pub open spec fn stem_spec(name: Seq<char>) -> Seq<char> {
    if has_extension(name) {
        name.take(last_dot(name))
    } else {
        name
    }
}

/// The name with its extension replaced (or appended when it has none).
pub open spec fn with_extension_spec(name: Seq<char>, ext: Seq<char>) -> Seq<char> {
    stem_spec(name) + seq!['.'] + ext
}

/// A suffix that contains no '/' and starts just after a '/' (or at the
/// start of the path) is the path's file name.
proof fn lemma_file_name_suffix(path: Seq<char>, idx: int)
    requires
        0 <= idx <= path.len(),
        forall|j: int| idx <= j < path.len() ==> path[j] != '/',
        idx > 0 ==> path[idx - 1] == '/',
    ensures
        file_name_spec(path) == path.subrange(idx, path.len() as int),
    decreases path.len(),
{
    if path.len() == 0 {
        assert(file_name_spec(path) =~= path.subrange(0, 0));
    } else if path.last() == '/' {
        assert(idx == path.len());
        assert(file_name_spec(path) =~= path.subrange(idx, path.len() as int));
    } else {
        assert(idx < path.len());
        let prev = path.drop_last();
        lemma_file_name_suffix(prev, idx);
        assert(prev.subrange(idx, prev.len() as int) =~= path.subrange(
            idx,
            path.len() as int,
        ).drop_last());
        assert(file_name_spec(path) =~= path.subrange(idx, path.len() as int));
    }
}

/// A scan that found no '.' at or after `idx`, with a '.' just before `idx`
/// when `idx` is positive, has found the last dot.
proof fn lemma_last_dot_scan(name: Seq<char>, idx: int)
    requires
        0 <= idx <= name.len(),
        forall|j: int| idx <= j < name.len() ==> name[j] != '.',
        idx > 0 ==> name[idx - 1] == '.',
    ensures
        last_dot(name) == idx - 1,
    decreases name.len(),
{
    if name.len() == 0 {
    } else if name.last() == '.' {
        assert(idx == name.len());
    } else {
        assert(idx < name.len());
        lemma_last_dot_scan(name.drop_last(), idx);
    }
}

/// Whether two strings hold the same characters.
pub fn str_eq(a: &str, b: &str) -> (r: bool)
    ensures
        r == (a@ == b@),
{
    let n = a.unicode_len();
    if n != b.unicode_len() {
        return false;
    }
    let mut i: usize = 0;
    while i < n
        invariant
            i <= n,
            n == a@.len(),
            n == b@.len(),
            forall|j: int| 0 <= j < i ==> a@[j] == b@[j],
        decreases n - i,
    {
        if a.get_char(i) != b.get_char(i) {
            return false;
        }
        i += 1;
    }
    proof {
        assert(a@ =~= b@);
    }
    true
}

/// The final component of a path: everything after its last '/'.
pub fn file_name(path: &str) -> (r: String)
    ensures
        r@ == file_name_spec(path@),
{
    let n = path.unicode_len();
    let mut i = n;
    while i > 0 && path.get_char(i - 1) != '/'
        invariant
            i <= n,
            n == path@.len(),
            forall|j: int| i <= j < n ==> path@[j] != '/',
        decreases i,
    {
        i = i - 1;
    }
    proof {
        lemma_file_name_suffix(path@, i as int);
    }
    String::from_str(path.substring_char(i, n))
}

/// The index just after the last '.' of the name, or 0 when it has no '.'.
fn scan_last_dot(name: &str) -> (i: usize)
    ensures
        last_dot(name@) == i - 1,
        i <= name@.len(),
{
    let n = name.unicode_len();
    let mut i = n;
    while i > 0 && name.get_char(i - 1) != '.'
        invariant
            i <= n,
            n == name@.len(),
            forall|j: int| i <= j < n ==> name@[j] != '.',
        decreases i,
    {
        i = i - 1;
    }
    proof {
        lemma_last_dot_scan(name@, i as int);
    }
    i
}

/// The extension of a file name, when it has one.
pub fn extension_of(name: &str) -> (r: Option<String>)
    ensures
        r is Some <==> has_extension(name@),
        r is Some ==> r->Some_0@ == extension_spec(name@),
{
    let i = scan_last_dot(name);
    if i > 1 {
        Some(String::from_str(name.substring_char(i, name.unicode_len())))
    } else {
        None
    }
}

/// The name with its extension replaced by `ext` (or '.' and `ext` appended
/// when it has none).
pub fn with_extension(name: &str, ext: &str) -> (r: String)
    ensures
        r@ == with_extension_spec(name@, ext@),
{
    let i = scan_last_dot(name);
    let stem = if i > 1 {
        String::from_str(name.substring_char(0, i - 1))
    } else {
        String::from_str(name)
    };
    let r = stem.concat(".").concat(ext);
    proof {
        reveal_strlit(".");
        assert(r@ =~= with_extension_spec(name@, ext@));
    }
    r
}

} // verus!
