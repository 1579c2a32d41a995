//! The asset map: the manifest as the web layer reads it, a lookup table
//! from original asset path to the realized output paths (each already
//! prefixed for serving). Lookups of unknown paths fall back to the path
//! itself.

use vstd::prelude::*;
use vstd::string::StrSliceExecFns;
use vstd::string::StringExecFns;
use crate::manifest::entry_view;
use crate::manifest::find_key;
use crate::manifest::lemma_find_key_scan;
use crate::paths::str_eq;

verus! {

/// The manifest as a lookup table, in entry order.
pub struct AssetMap {
    entries: Vec<(String, Vec<String>)>,
}

impl View for AssetMap {
    type V = Seq<(Seq<char>, Seq<Seq<char>>)>;

    closed spec fn view(&self) -> Seq<(Seq<char>, Seq<Seq<char>>)> {
        Seq::new(self.entries@.len(), |i: int| entry_view(self.entries@[i]))
    }
}

impl AssetMap {
    /// The primary output path recorded for an asset, or the name itself
    /// when nothing (or an empty list) is recorded for it.
    pub fn get<'a>(&'a self, name: &'a str) -> (r: &'a str)
        ensures
            ({
                let i = find_key(self@, name@);
                if i >= 0 && self@[i].1.len() > 0 {
                    r@ == self@[i].1[0]
                } else {
                    r@ == name@
                }
            }),
    {
        let mut k: usize = 0;
        while k < self.entries.len()
            invariant
                k <= self.entries@.len(),
                forall|j: int| 0 <= j < k ==> (#[trigger] self@[j]).0 != name@,
            decreases self.entries@.len() - k,
        {
            if str_eq(self.entries[k].0.as_str(), name) {
                proof {
                    lemma_find_key_scan(self@, name@, k as int);
                }
                if self.entries[k].1.len() > 0 {
                    return self.entries[k].1[0].as_str();
                } else {
                    return name;
                }
            }
            k += 1;
        }
        proof {
            lemma_find_key_scan(self@, name@, self@.len() as int);
        }
        name
    }

    /// Every output path recorded for an asset, in order, or None when the
    /// asset is unknown.
    pub fn get_all<'a>(&'a self, name: &'a str) -> (r: Option<Vec<&'a str>>)
        ensures
            r is Some <==> find_key(self@, name@) >= 0,
            r is Some ==> ({
                let i = find_key(self@, name@);
                &&& r->Some_0@.len() == self@[i].1.len()
                &&& forall|j: int|
                    0 <= j < self@[i].1.len() ==> (#[trigger] r->Some_0@[j])@ == self@[i].1[j]
            }),
    {
        let mut k: usize = 0;
        while k < self.entries.len()
            invariant
                k <= self.entries@.len(),
                forall|j: int| 0 <= j < k ==> (#[trigger] self@[j]).0 != name@,
            decreases self.entries@.len() - k,
        {
            if str_eq(self.entries[k].0.as_str(), name) {
                proof {
                    lemma_find_key_scan(self@, name@, k as int);
                }
                let vals = &self.entries[k].1;
                let mut out: Vec<&str> = Vec::new();
                let mut j: usize = 0;
                while j < vals.len()
                    invariant
                        j <= vals@.len(),
                        out@.len() == j,
                        forall|t: int| 0 <= t < j ==> (#[trigger] out@[t])@ == vals@[t]@,
                        vals@ == self.entries@[k as int].1@,
                        k < self.entries@.len(),
                    decreases vals@.len() - j,
                {
                    out.push(vals[j].as_str());
                    j += 1;
                }
                return Some(out);
            }
            k += 1;
        }
        proof {
            lemma_find_key_scan(self@, name@, self@.len() as int);
        }
        None
    }
}

/// Build the asset map the web layer serves from: every recorded output
/// path gains the serving prefix (a local path or a CDN base), entry order
/// kept.
#[verifier::loop_isolation(false)]
pub fn load_asset_map(entries: Vec<(String, Vec<String>)>, prefix: &str) -> (r: AssetMap)
    ensures
        r@.len() == entries@.len(),
        forall|i: int|
            0 <= i < entries@.len() ==> (#[trigger] r@[i]).0 == entries@[i].0@,
        forall|i: int|
            0 <= i < entries@.len() ==> (#[trigger] r@[i]).1.len() == entries@[i].1@.len(),
        forall|i: int, j: int|
            0 <= i < entries@.len() && 0 <= j < entries@[i].1@.len() ==> (#[trigger] r@[i].1[j])
                == prefix@ + entries@[i].1@[j]@,
{
    let mut out: Vec<(String, Vec<String>)> = Vec::new();
    let mut i: usize = 0;
    while i < entries.len()
        invariant
            i <= entries@.len(),
            out@.len() == i,
            forall|t: int|
                0 <= t < i ==> (#[trigger] entry_view(out@[t])).0 == entries@[t].0@,
            forall|t: int|
                0 <= t < i ==> (#[trigger] entry_view(out@[t])).1.len() == entries@[t].1@.len(),
            forall|t: int, j: int|
                0 <= t < i && 0 <= j < entries@[t].1@.len() ==> (#[trigger] entry_view(
                    out@[t],
                ).1[j]) == prefix@ + entries@[t].1@[j]@,
        decreases entries@.len() - i,
    {
        let key = entries[i].0.clone();
        let vals = &entries[i].1;
        let mut prefixed: Vec<String> = Vec::new();
        let mut j: usize = 0;
        while j < vals.len()
            invariant
                j <= vals@.len(),
                prefixed@.len() == j,
                forall|t: int|
                    0 <= t < j ==> (#[trigger] prefixed@[t])@ == prefix@ + vals@[t]@,
            decreases vals@.len() - j,
        {
            prefixed.push(String::from_str(prefix).concat(vals[j].as_str()));
            j += 1;
        }
        out.push((key, prefixed));
        i += 1;
    }
    let map = AssetMap { entries: out };
    proof {
        assert(map@.len() == entries@.len());
    }
    map
}

} // verus!
