//! Assembling a directory listing: pairing names with their full paths,
//! folding each entry's metadata (or its per-entry fallback) into a
//! [`FileEntry`], synthesizing the parent entry, and sorting the result
//! with directories first and names in lexicographic order.
//!
//! The metadata lookups themselves run outside the library, one per
//! entry and concurrently; their results come back here as values, zipped
//! to the entry that requested them by index, never by completion order.

use vstd::prelude::*;

verus! {

use vstd::string::StrSliceExecFns;
use vstd::string::StringExecFns;
use crate::app::FileEntry;
use crate::text::lex_lt;
use crate::text::lemma_lex_lt_asym;
use crate::text::lemma_lex_lt_trans;
use crate::text::lemma_lex_lt_trichotomy;
use crate::text::str_eq;
use crate::text::str_lt;

/// One entry's metadata, as plain values.
#[derive(Debug, Clone, Copy, PartialEq, Eq, Structural)]
pub struct StatInfo {
    pub is_dir: bool,
    pub size: u64,
    pub modified: Option<i64>,
}

/// The order of a finished listing: every directory before every file,
/// and names in lexicographic order within each group.
pub open spec fn entry_leq(a: FileEntry, b: FileEntry) -> bool {
    if a.is_dir != b.is_dir {
        a.is_dir
    } else {
        !lex_lt(b.name@, a.name@)
    }
}

/// Whether a listing is in its final order.
pub open spec fn entries_sorted(s: Seq<FileEntry>) -> bool {
    forall|i: int, j: int| 0 <= i < j < s.len() ==> entry_leq(#[trigger] s[i], #[trigger] s[j])
}

pub proof fn lemma_entry_leq_total(a: FileEntry, b: FileEntry)
    ensures
        entry_leq(a, b) || entry_leq(b, a),
{
    if a.is_dir == b.is_dir {
        if lex_lt(b.name@, a.name@) {
            lemma_lex_lt_asym(b.name@, a.name@);
        }
    }
}

pub proof fn lemma_entry_leq_trans(a: FileEntry, b: FileEntry, c: FileEntry)
    requires
        entry_leq(a, b),
        entry_leq(b, c),
    ensures
        entry_leq(a, c),
{
    if a.is_dir == b.is_dir && b.is_dir == c.is_dir {
        if lex_lt(c.name@, a.name@) {
            lemma_lex_lt_trichotomy(a.name@, b.name@);
            if a.name@ == b.name@ {
                assert(lex_lt(c.name@, b.name@));
            } else if lex_lt(a.name@, b.name@) {
                lemma_lex_lt_trans(c.name@, a.name@, b.name@);
            }
        }
    }
}

/// The order, decided executably.
pub fn entry_leq_exec(a: &FileEntry, b: &FileEntry) -> (r: bool)
    ensures
        r == entry_leq(*a, *b),
{
    if a.is_dir != b.is_dir {
        a.is_dir
    } else {
        !str_lt(b.name.as_str(), a.name.as_str())
    }
}

/// A sequence with one element inserted keeps every element, once more
/// the inserted one.
pub proof fn lemma_to_multiset_insert<A>(s: Seq<A>, i: int, e: A)
    requires
        0 <= i <= s.len(),
    ensures
        s.insert(i, e).to_multiset() =~= s.to_multiset().insert(e),
{
    broadcast use vstd::seq_lib::group_to_multiset_ensures;

    let t = s.insert(i, e);
    assert(t.remove(i) =~= s);
    assert(t[i] == e);
    assert(s.to_multiset() =~= t.to_multiset().remove(e));
    assert(t.contains(e));
    assert(t.to_multiset().count(e) > 0);
    assert(t.to_multiset() =~= s.to_multiset().insert(e));
}

/// Inserts one entry into a sorted listing, keeping it sorted; the new
/// entry lands after any entries it ties with.
pub fn insert_sorted(v: &mut Vec<FileEntry>, e: FileEntry)
    requires
        entries_sorted(old(v)@),
    ensures
        entries_sorted(final(v)@),
        final(v)@.len() == old(v)@.len() + 1,
        exists|p: int| 0 <= p <= old(v)@.len() && final(v)@ == old(v)@.insert(p, e),
{
    let mut p: usize = 0;
    while p < v.len() && entry_leq_exec(&v[p], &e)
        invariant
            p <= v@.len(),
            entries_sorted(v@),
            forall|i: int| 0 <= i < p ==> entry_leq(#[trigger] v@[i], e),
        decreases v@.len() - p,
    {
        p = p + 1;
    }
    proof {
        if p < v@.len() {
            lemma_entry_leq_total(v@[p as int], e);
        }
        assert forall|j: int| p <= j < v@.len() implies entry_leq(e, #[trigger] v@[j]) by {
            lemma_entry_leq_total(v@[p as int], e);
            if j > p {
                lemma_entry_leq_trans(e, v@[p as int], v@[j]);
            }
        }
    }
    let ghost oldv = v@;
    v.insert(p, e);
    proof {
        let t = v@;
        assert forall|i: int, j: int| 0 <= i < j < t.len() implies entry_leq(t[i], t[j]) by {
            if i < p && j < p {
                assert(t[i] == oldv[i]);
                assert(t[j] == oldv[j]);
            } else if i < p && j == p {
                assert(t[i] == oldv[i]);
            } else if i < p && j > p {
                assert(t[i] == oldv[i]);
                assert(t[j] == oldv[j - 1]);
            } else if i == p {
                assert(t[j] == oldv[j - 1]);
            } else {
                assert(t[i] == oldv[i - 1]);
                assert(t[j] == oldv[j - 1]);
            }
        }
    }
}

/// The remote path of an entry inside a directory: the two joined by a
/// single slash.
pub open spec fn full_path_of(dir: Seq<char>, name: Seq<char>) -> Seq<char> {
    if dir.len() > 0 && dir.last() == '/' {
        dir + name
    } else {
        dir + "/"@ + name
    }
}

/// Joins a directory path and an entry name executably.
pub fn join_path(dir: &str, name: &str) -> (r: String)
    ensures
        r@ == full_path_of(dir@, name@),
{
    let n = dir.unicode_len();
    let mut s = String::from_str(dir);
    if n == 0 || dir.get_char(n - 1) != '/' {
        s.append("/");
    }
    s.append(name);
    s
}

/// An entry of a listing reduced to its visible values.
pub open spec fn abs_entry(e: FileEntry) -> (Seq<char>, Seq<char>, bool, u64, Option<i64>, Option<
    u32,
>) {
    (e.name@, e.path@, e.is_dir, e.size, e.modified, e.permissions)
}

/// The synthesized parent-directory entry, reduced to its values.
pub open spec fn abs_parent() -> (Seq<char>, Seq<char>, bool, u64, Option<i64>, Option<u32>) {
    (".."@, ".."@, true, 0u64, None, None)
}

/// What one listed entry must show: its own name and path, its own
/// metadata where the lookup succeeded, and the fallback of a regular
/// file of size zero with unknown modification time where it failed.
/// One entry's failure never touches another entry's values.
pub open spec fn abs_listed(name: Seq<char>, path: Seq<char>, stat: Option<StatInfo>) -> (
    Seq<char>,
    Seq<char>,
    bool,
    u64,
    Option<i64>,
    Option<u32>,
) {
    match stat {
        Some(st) => (name, path, st.is_dir, st.size, st.modified, None),
        None => (name, path, false, 0u64, None, None),
    }
}

/// Whether a name is one of the two special directory entries that a raw
/// listing reports and the browser synthesizes itself.
pub open spec fn is_special_name(n: Seq<char>) -> bool {
    n == "."@ || n == ".."@
}

/// Pairs each ordinary name of a raw directory listing with its full
/// remote path, dropping the `.` and `..` entries; order is kept, and the
/// result tells each metadata lookup where to go.
pub fn prepare_listing(path: &str, names: Vec<String>) -> (r: Vec<(String, String)>)
    ensures
        ({
            let kept = names@.map_values(|nm: String| nm@).filter(|nm: Seq<char>| !is_special_name(nm));
            &&& r@.len() == kept.len()
            &&& forall|i: int|
                0 <= i < kept.len() ==> (#[trigger] r@[i]).0@ == kept[i] && r@[i].1@
                    == full_path_of(path@, kept[i])
        }),
{
    let mut out: Vec<(String, String)> = Vec::new();
    let n = names.len();
    let mut i: usize = 0;
    proof {
        reveal(Seq::filter);
    }
    while i < n
        invariant
            i <= n,
            n == names@.len(),
            ({
                let kept = names@.take(i as int).map_values(|nm: String| nm@).filter(
                    |nm: Seq<char>| !is_special_name(nm),
                );
                &&& out@.len() == kept.len()
                &&& forall|k: int|
                    0 <= k < kept.len() ==> (#[trigger] out@[k]).0@ == kept[k] && out@[k].1@
                        == full_path_of(path@, kept[k])
            }),
        decreases n - i,
    {
        proof {
            reveal(Seq::filter);
            let f = |nm: Seq<char>| !is_special_name(nm);
            let m = |nm: String| nm@;
            assert(names@.take(i + 1).drop_last() =~= names@.take(i as int));
            assert(names@.take(i + 1).map_values(m).drop_last() =~= names@.take(
                i as int,
            ).map_values(m));
            assert(names@.take(i + 1).map_values(m).last() == names@[i as int]@);
        }
        let name = &names[i];
        if !str_eq(name.as_str(), ".") && !str_eq(name.as_str(), "..") {
            let fp = join_path(path, name.as_str());
            out.push((name.clone(), fp));
        }
        i = i + 1;
    }
    proof {
        assert(names@.take(n as int) =~= names@);
    }
    out
}

/// Builds the finished listing: a parent entry exactly when the path is
/// not the root, one entry per prepared name carrying its own metadata or
/// the per-entry fallback, all sorted directories-first and
/// lexicographically by name within each group.
pub fn build_listing(path: &str, prepared: Vec<(String, String)>, stats: Vec<Option<StatInfo>>) -> (
    r: Vec<FileEntry>)
    requires
        prepared@.len() == stats@.len(),
    ensures
        entries_sorted(r@),
        path@ == "/"@ ==> r@.len() == prepared@.len(),
        path@ != "/"@ ==> r@.len() == prepared@.len() + 1,
        ({
            let base: Seq<(Seq<char>, Seq<char>, bool, u64, Option<i64>, Option<u32>)> = if path@
                != "/"@ {
                seq![abs_parent()]
            } else {
                Seq::empty()
            };
            let built = Seq::new(
                prepared@.len(),
                |i: int| abs_listed(prepared@[i].0@, prepared@[i].1@, stats@[i]),
            );
            r@.map_values(|e2: FileEntry| abs_entry(e2)).to_multiset() == (base
                + built).to_multiset()
        }),
{
    broadcast use vstd::seq_lib::group_to_multiset_ensures;

    let ghost base: Seq<(Seq<char>, Seq<char>, bool, u64, Option<i64>, Option<u32>)> = if path@
        != "/"@ {
        seq![abs_parent()]
    } else {
        Seq::empty()
    };
    let ghost built = Seq::new(
        prepared@.len(),
        |i: int| abs_listed(prepared@[i].0@, prepared@[i].1@, stats@[i]),
    );
    let mut out: Vec<FileEntry> = Vec::new();
    if !str_eq(path, "/") {
        let parent = FileEntry {
            name: String::from_str(".."),
            path: String::from_str(".."),
            is_dir: true,
            size: 0,
            modified: None,
            permissions: None,
        };
        out.push(parent);
        proof {
            assert(out@.map_values(|e2: FileEntry| abs_entry(e2)) =~= base);
        }
    } else {
        proof {
            assert(out@.map_values(|e2: FileEntry| abs_entry(e2)) =~= base);
        }
    }
    let n = prepared.len();
    let mut i: usize = 0;
    while i < n
        invariant
            i <= n,
            n == prepared@.len(),
            prepared@.len() == stats@.len(),
            entries_sorted(out@),
            out@.len() == base.len() + i,
            built == Seq::new(
                prepared@.len(),
                |k: int| abs_listed(prepared@[k].0@, prepared@[k].1@, stats@[k]),
            ),
            out@.map_values(|e2: FileEntry| abs_entry(e2)).to_multiset() == (base + built.take(
                i as int,
            )).to_multiset(),
        decreases n - i,
    {
        let (name, fpath) = (prepared[i].0.clone(), prepared[i].1.clone());
        let e = match &stats[i] {
            Some(st) => FileEntry {
                name,
                path: fpath,
                is_dir: st.is_dir,
                size: st.size,
                modified: st.modified,
                permissions: None,
            },
            None => FileEntry {
                name,
                path: fpath,
                is_dir: false,
                size: 0,
                modified: None,
                permissions: None,
            },
        };
        proof {
            assert(abs_entry(e) == built[i as int]);
        }
        let ghost oldout = out@;
        insert_sorted(&mut out, e);
        proof {
            let m = |e2: FileEntry| abs_entry(e2);
            let p = choose|p: int| 0 <= p <= oldout.len() && out@ == oldout.insert(p, e);
            assert(out@.map_values(m) =~= oldout.map_values(m).insert(p, abs_entry(e)));
            lemma_to_multiset_insert(oldout.map_values(m), p, abs_entry(e));
            assert((base + built.take(i + 1)).drop_last() =~= base + built.take(i as int));
            assert((base + built.take(i + 1)).last() == built[i as int]);
            assert(base + built.take(i + 1) =~= (base + built.take(i as int)).push(
                built[i as int],
            ));
            vstd::seq_lib::to_multiset_build(base + built.take(i as int), built[i as int]);
            assert((base + built.take(i as int)).push(built[i as int]).to_multiset() =~= (base
                + built.take(i as int)).to_multiset().insert(built[i as int]));
            assert(out@.map_values(m).to_multiset() == oldout.map_values(m).to_multiset().insert(
                abs_entry(e),
            ));
            assert(out@.map_values(m).to_multiset() == (base + built.take(i + 1)).to_multiset());
        }
        i = i + 1;
    }
    proof {
        assert(built.take(n as int) =~= built);
    }
    out
}

} // verus!
