//! The manifest: an ordered mapping from original source path to the list
//! of realized output paths, built fresh on every invocation and persisted
//! as one JSON object. Order matters: the first output of an entry is the
//! primary representation consumers default to.

use vstd::prelude::*;
use vstd::string::StrSliceExecFns;
use crate::hashing::hex_digits;
use crate::hashing::hex_digit_char;
use crate::config::strs_view;

verus! {

pub assume_specification[ String::push ](s: &mut String, c: char)
    ensures
        final(s)@ == old(s)@.push(c),
;

/// How one character appears inside a JSON string literal.
pub open spec fn json_escape_char(c: char) -> Seq<char> {
    if c == '"' {
        seq!['\\', '"']
    } else if c == '\\' {
        seq!['\\', '\\']
    } else if c == '\n' {
        seq!['\\', 'n']
    } else if c == '\r' {
        seq!['\\', 'r']
    } else if c == '\t' {
        seq!['\\', 't']
    } else if (c as u32) < 0x20 {
        seq!['\\', 'u', '0', '0']
            + seq![hex_digits()[((c as u32) >> 4u32) as int], hex_digits()[((c as u32) & 0xfu32) as int]]
    } else {
        seq![c]
    }
}

/// A text escaped for use inside a JSON string literal.
pub open spec fn json_escape(s: Seq<char>) -> Seq<char>
    decreases s.len(),
{
    if s.len() == 0 {
        Seq::empty()
    } else {
        json_escape_char(s[0]) + json_escape(s.skip(1))
    }
}

/// A JSON string literal.
pub open spec fn json_string(s: Seq<char>) -> Seq<char> {
    seq!['"'] + json_escape(s) + seq!['"']
}

/// JSON string literals joined with commas.
pub open spec fn json_strings_joined(v: Seq<Seq<char>>) -> Seq<char>
    decreases v.len(),
{
    if v.len() == 0 {
        Seq::empty()
    } else if v.len() == 1 {
        json_string(v[0])
    } else {
        json_string(v[0]) + seq![','] + json_strings_joined(v.skip(1))
    }
}

/// A JSON array of string literals.
pub open spec fn json_string_array(v: Seq<Seq<char>>) -> Seq<char> {
    seq!['['] + json_strings_joined(v) + seq![']']
}

/// One manifest entry as JSON: the key, a colon, the output array.
pub open spec fn json_entry(k: Seq<char>, outs: Seq<Seq<char>>) -> Seq<char> {
    json_string(k) + seq![':'] + json_string_array(outs)
}

/// Manifest entries as JSON, joined with commas.
pub open spec fn json_entries_joined(entries: Seq<(Seq<char>, Seq<Seq<char>>)>) -> Seq<char>
    decreases entries.len(),
{
    if entries.len() == 0 {
        Seq::empty()
    } else if entries.len() == 1 {
        json_entry(entries[0].0, entries[0].1)
    } else {
        json_entry(entries[0].0, entries[0].1) + seq![','] + json_entries_joined(entries.skip(1))
    }
}

/// The whole manifest as one JSON object, in entry order.
pub open spec fn manifest_json(entries: Seq<(Seq<char>, Seq<Seq<char>>)>) -> Seq<char> {
    seq!['{'] + json_entries_joined(entries) + seq!['}']
}

proof fn lemma_json_escape_snoc(s: Seq<char>, c: char)
    ensures
        json_escape(s.push(c)) == json_escape(s) + json_escape_char(c),
    decreases s.len(),
{
    let sp = s.push(c);
    if s.len() == 0 {
        assert(sp[0] == c);
        assert(sp.skip(1) =~= Seq::<char>::empty());
        assert(json_escape(sp) == json_escape_char(c) + json_escape(sp.skip(1)));
        assert(json_escape(sp) =~= json_escape(s) + json_escape_char(c));
    } else {
        assert(sp[0] == s[0]);
        assert(sp.skip(1) =~= s.skip(1).push(c));
        lemma_json_escape_snoc(s.skip(1), c);
        assert(json_escape(sp) == json_escape_char(s[0]) + (json_escape(s.skip(1))
            + json_escape_char(c)));
        assert(json_escape(sp) =~= (json_escape_char(s[0]) + json_escape(s.skip(1)))
            + json_escape_char(c));
        assert(json_escape(sp) =~= json_escape(s) + json_escape_char(c));
    }
}

proof fn lemma_json_strings_joined_snoc(v: Seq<Seq<char>>, x: Seq<char>)
    ensures
        v.len() == 0 ==> json_strings_joined(v.push(x)) == json_string(x),
        v.len() > 0 ==> json_strings_joined(v.push(x)) == json_strings_joined(v) + seq![',']
            + json_string(x),
    decreases v.len(),
{
    let vp = v.push(x);
    if v.len() == 0 {
        assert(vp[0] == x);
        assert(vp.len() == 1);
    } else if v.len() == 1 {
        assert(vp[0] == v[0]);
        assert(vp.skip(1) =~= seq![x]);
        assert(json_strings_joined(seq![x]) == json_string(x));
        assert(json_strings_joined(vp) =~= json_strings_joined(v) + seq![','] + json_string(x));
    } else {
        assert(vp[0] == v[0]);
        assert(vp.skip(1) =~= v.skip(1).push(x));
        lemma_json_strings_joined_snoc(v.skip(1), x);
        assert(json_strings_joined(vp) == json_string(v[0]) + seq![','] + (json_strings_joined(
            v.skip(1),
        ) + seq![','] + json_string(x)));
        assert(json_strings_joined(vp) =~= json_strings_joined(v) + seq![','] + json_string(x));
    }
}

proof fn lemma_json_entries_joined_snoc(v: Seq<(Seq<char>, Seq<Seq<char>>)>, x: (Seq<char>, Seq<Seq<char>>))
    ensures
        v.len() == 0 ==> json_entries_joined(v.push(x)) == json_entry(x.0, x.1),
        v.len() > 0 ==> json_entries_joined(v.push(x)) == json_entries_joined(v) + seq![',']
            + json_entry(x.0, x.1),
    decreases v.len(),
{
    let vp = v.push(x);
    if v.len() == 0 {
        assert(vp[0] == x);
        assert(vp.len() == 1);
    } else if v.len() == 1 {
        assert(vp[0] == v[0]);
        assert(vp.skip(1) =~= seq![x]);
        assert(json_entries_joined(seq![x]) == json_entry(x.0, x.1));
        assert(json_entries_joined(vp) =~= json_entries_joined(v) + seq![','] + json_entry(
            x.0,
            x.1,
        ));
    } else {
        assert(vp[0] == v[0]);
        assert(vp.skip(1) =~= v.skip(1).push(x));
        lemma_json_entries_joined_snoc(v.skip(1), x);
        assert(json_entries_joined(vp) == json_entry(v[0].0, v[0].1) + seq![','] + (
        json_entries_joined(v.skip(1)) + seq![','] + json_entry(x.0, x.1)));
        assert(json_entries_joined(vp) =~= json_entries_joined(v) + seq![','] + json_entry(
            x.0,
            x.1,
        ));
    }
}

/// Append one escaped text to the output.
fn append_escaped(out: &mut String, s: &str)
    ensures
        final(out)@ == old(out)@ + json_escape(s@),
{
    let n = s.unicode_len();
    let mut i: usize = 0;
    while i < n
        invariant
            i <= n,
            n == s@.len(),
            out@ == old(out)@ + json_escape(s@.take(i as int)),
        decreases n - i,
    {
        let c = s.get_char(i);
        if c == '"' {
            out.push('\\');
            out.push('"');
        } else if c == '\\' {
            out.push('\\');
            out.push('\\');
        } else if c == '\n' {
            out.push('\\');
            out.push('n');
        } else if c == '\r' {
            out.push('\\');
            out.push('r');
        } else if c == '\t' {
            out.push('\\');
            out.push('t');
        } else if (c as u32) < 0x20 {
            let code = c as u32;
            proof {
                assert(code < 0x20 ==> (code >> 4u32) < 16 && (code & 0xfu32) < 16)
                    by (bit_vector);
            }
            out.push('\\');
            out.push('u');
            out.push('0');
            out.push('0');
            out.push(hex_digit_char((code >> 4u32) as u8));
            out.push(hex_digit_char((code & 0xfu32) as u8));
        } else {
            out.push(c);
        }
        proof {
            lemma_json_escape_snoc(s@.take(i as int), s@[i as int]);
            assert(s@.take(i + 1) =~= s@.take(i as int).push(s@[i as int]));
            assert(out@ =~= old(out)@ + json_escape(s@.take(i + 1)));
        }
        i += 1;
    }
    proof {
        assert(s@.take(n as int) =~= s@);
    }
}

/// Append one JSON string literal to the output.
fn append_json_string(out: &mut String, s: &str)
    ensures
        final(out)@ == old(out)@ + json_string(s@),
{
    out.push('"');
    append_escaped(out, s);
    out.push('"');
    proof {
        assert(out@ =~= old(out)@ + json_string(s@));
    }
}

/// Append a JSON array of string literals to the output.
fn append_json_array(out: &mut String, v: &Vec<String>)
    ensures
        final(out)@ == old(out)@ + json_string_array(strs_view(v@)),
{
    out.push('[');
    let mut i: usize = 0;
    while i < v.len()
        invariant
            i <= v@.len(),
            out@ == old(out)@ + seq!['['] + json_strings_joined(strs_view(v@).take(i as int)),
        decreases v@.len() - i,
    {
        if i > 0 {
            out.push(',');
        }
        append_json_string(out, v[i].as_str());
        proof {
            lemma_json_strings_joined_snoc(strs_view(v@).take(i as int), v@[i as int]@);
            assert(strs_view(v@).take(i + 1) =~= strs_view(v@).take(i as int).push(v@[i as int]@));
            assert(out@ =~= old(out)@ + seq!['['] + json_strings_joined(strs_view(v@).take(i + 1)));
        }
        i += 1;
    }
    out.push(']');
    proof {
        assert(strs_view(v@).take(v@.len() as int) =~= strs_view(v@));
        assert(out@ =~= old(out)@ + json_string_array(strs_view(v@)));
    }
}

/// The mathematical value of a manifest entry.
pub open spec fn entry_view(e: (String, Vec<String>)) -> (Seq<char>, Seq<Seq<char>>) {
    (e.0@, strs_view(e.1@))
}

/// The manifest: source path to ordered output paths, in insertion order,
/// each key at most once.
pub struct Manifest {
    entries: Vec<(String, Vec<String>)>,
}

impl View for Manifest {
    type V = Seq<(Seq<char>, Seq<Seq<char>>)>;

    closed spec fn view(&self) -> Seq<(Seq<char>, Seq<Seq<char>>)> {
        Seq::new(self.entries@.len(), |i: int| entry_view(self.entries@[i]))
    }
}

/// The index of a key among entries, or -1 when absent.
pub open spec fn find_key(entries: Seq<(Seq<char>, Seq<Seq<char>>)>, k: Seq<char>) -> int
    decreases entries.len(),
{
    if entries.len() == 0 {
        -1
    } else if entries[0].0 == k {
        0
    } else {
        let r = find_key(entries.skip(1), k);
        if r == -1 {
            -1
        } else {
            r + 1
        }
    }
}

/// Inserting a mapping replaces the value of an existing key in place, or
/// appends a new entry at the end.
pub open spec fn spec_upsert(
    entries: Seq<(Seq<char>, Seq<Seq<char>>)>,
    k: Seq<char>,
    v: Seq<Seq<char>>,
) -> Seq<(Seq<char>, Seq<Seq<char>>)> {
    let i = find_key(entries, k);
    if i >= 0 {
        entries.update(i, (k, v))
    } else {
        entries.push((k, v))
    }
}

pub(crate) proof fn lemma_find_key_range(entries: Seq<(Seq<char>, Seq<Seq<char>>)>, k: Seq<char>)
    ensures
        -1 <= find_key(entries, k) < entries.len(),
        find_key(entries, k) >= 0 ==> entries[find_key(entries, k)].0 == k,
        find_key(entries, k) == -1 ==> forall|i: int|
            0 <= i < entries.len() ==> (#[trigger] entries[i]).0 != k,
        forall|i: int| 0 <= i < find_key(entries, k) ==> (#[trigger] entries[i]).0 != k,
    decreases entries.len(),
{
    if entries.len() > 0 && entries[0].0 != k {
        lemma_find_key_range(entries.skip(1), k);
        assert forall|i: int| 1 <= i < entries.len() implies entries.skip(1)[i - 1] == entries[i] by {}
    }
}

/// A scan prefix that does not hold the key places `find_key` at or beyond
/// its end.
pub(crate) proof fn lemma_find_key_scan(entries: Seq<(Seq<char>, Seq<Seq<char>>)>, k: Seq<char>, i: int)
    requires
        0 <= i <= entries.len(),
        forall|j: int| 0 <= j < i ==> (#[trigger] entries[j]).0 != k,
    ensures
        i < entries.len() && entries[i].0 == k ==> find_key(entries, k) == i,
        i == entries.len() ==> find_key(entries, k) == -1,
{
    lemma_find_key_range(entries, k);
    let f = find_key(entries, k);
    if i < entries.len() && entries[i].0 == k {
        if f == -1 {
            assert(entries[i].0 != k);
        } else if f < i {
            assert(entries[f].0 != k);
        } else if f > i {
            assert(entries[i].0 != k);
        }
    } else if i == entries.len() {
        if f >= 0 {
            assert(entries[f].0 != k);
        }
    }
}

impl Manifest {
    /// The keys of the manifest, in order.
    pub open spec fn spec_keys(&self) -> Seq<Seq<char>> {
        Seq::new(self@.len(), |i: int| self@[i].0)
    }

    /// Each source path appears at most once.
    pub open spec fn wf(&self) -> bool {
        forall|i: int, j: int|
            0 <= i < j < self@.len() ==> (#[trigger] self@[i]).0 != (#[trigger] self@[j]).0
    }

    /// An empty manifest: every build starts fresh.
    pub fn new() -> (r: Manifest)
        ensures
            r@ =~= Seq::<(Seq<char>, Seq<Seq<char>>)>::empty(),
            r.wf(),
    {
        Manifest { entries: Vec::new() }
    }

    /// The number of entries.
    pub fn len(&self) -> (r: usize)
        ensures
            r == self@.len(),
    {
        self.entries.len()
    }

    /// Record the outputs of one source path, replacing any earlier record
    /// of the same path.
    pub fn insert(&mut self, key: String, outputs: Vec<String>)
        requires
            old(self).wf(),
        ensures
            final(self)@ == spec_upsert(old(self)@, key@, strs_view(outputs@)),
            final(self).wf(),
    {
        let ghost orig = self@;
        let ghost origentries = self.entries@;
        let ghost gk = key@;
        let ghost gv = strs_view(outputs@);
        let mut i: usize = 0;
        while i < self.entries.len()
            invariant
                i <= self.entries@.len(),
                self@ == orig,
                self.entries@ == origentries,
                orig == old(self)@,
                old(self).wf(),
                forall|j: int| 0 <= j < i ==> (#[trigger] orig[j]).0 != gk,
                gk == key@,
                gv == strs_view(outputs@),
            decreases self.entries@.len() - i,
        {
            if self.entries[i].0 == key {
                proof {
                    lemma_find_key_scan(orig, gk, i as int);
                    assert(find_key(orig, gk) == i);
                }
                self.entries[i] = (key, outputs);
                proof {
                    assert(self.entries@ == origentries.update(i as int, self.entries@[i as int]));
                    assert forall|j: int| 0 <= j < self@.len() implies self@[j]
                        == spec_upsert(orig, gk, gv)[j] by {
                        if j == i {
                            assert(entry_view(self.entries@[j]) == (gk, gv));
                        } else {
                            assert(self.entries@[j] == origentries[j]);
                        }
                    }
                    assert(self@ =~= spec_upsert(orig, gk, gv));
                    assert forall|a: int, b: int|
                        0 <= a < b < self@.len() implies (#[trigger] self@[a]).0 != (
                    #[trigger] self@[b]).0 by {
                        assert(orig[i as int].0 == gk);
                        assert(self@[a].0 == orig[a].0);
                        assert(self@[b].0 == orig[b].0);
                    }
                }
                return ;
            }
            i += 1;
        }
        proof {
            lemma_find_key_scan(orig, gk, orig.len() as int);
        }
        self.entries.push((key, outputs));
        proof {
            assert forall|j: int| 0 <= j < self@.len() implies self@[j]
                == spec_upsert(orig, gk, gv)[j] by {
                if j < orig.len() {
                    assert(self.entries@[j] == origentries[j]);
                } else {
                    assert(entry_view(self.entries@[j]) == (gk, gv));
                }
            }
            assert(self@ =~= spec_upsert(orig, gk, gv));
            assert forall|a: int, b: int|
                0 <= a < b < self@.len() implies (#[trigger] self@[a]).0 != (
            #[trigger] self@[b]).0 by {
                lemma_find_key_range(orig, gk);
                if b < orig.len() {
                    assert(self@[a].0 == orig[a].0);
                    assert(self@[b].0 == orig[b].0);
                } else {
                    assert(self@[b].0 == gk);
                    assert(self@[a].0 == orig[a].0);
                    assert(orig[a].0 != gk);
                }
            }
        }
    }

    /// The manifest serialized as one JSON object, entries in order.
    pub fn to_json(&self) -> (r: String)
        ensures
            r@ == manifest_json(self@),
    {
        let mut out = String::new();
        out.push('{');
        let mut i: usize = 0;
        while i < self.entries.len()
            invariant
                i <= self.entries@.len(),
                out@ == seq!['{'] + json_entries_joined(self@.take(i as int)),
            decreases self.entries@.len() - i,
        {
            if i > 0 {
                out.push(',');
            }
            append_json_string(&mut out, self.entries[i].0.as_str());
            out.push(':');
            append_json_array(&mut out, &self.entries[i].1);
            proof {
                lemma_json_entries_joined_snoc(self@.take(i as int), self@[i as int]);
                assert(self@.take(i + 1) =~= self@.take(i as int).push(self@[i as int]));
                assert(out@ =~= seq!['{'] + json_entries_joined(self@.take(i + 1)));
            }
            i += 1;
        }
        out.push('}');
        proof {
            assert(self@.take(self@.len() as int) =~= self@);
            assert(out@ =~= manifest_json(self@));
        }
        out
    }
}

} // verus!
