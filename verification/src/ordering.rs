//! The deterministic, total ordering over directory entries. Every entry
//! falls into one bucket — directory-like things first, then file-like
//! things, then symlinks whose target could not be typed, then entries whose
//! own kind is unknown — and entries within one bucket are ordered by name,
//! case-sensitively. A symlink is classified by the kind found at most two
//! resolved hops away, so broken or over-deep link chains sink to the later
//! buckets instead of failing.

use vstd::prelude::*;

verus! {

use vstd::multiset::{group_multiset_axioms, Multiset};
use vstd::seq_lib::group_to_multiset_ensures;
use crate::fs::{EntryKind, FileData};
use crate::text::{lex_le, lemma_lex_le_total, lemma_lex_lt_transitive, str_le};

/// The ordering bucket of one entry: 0 for directories and symlinks
/// resolving to a directory, 1 for files and symlinks resolving to a file,
/// 2 for symlinks whose target is unresolved, untyped or again a symlink,
/// 3 for entries of unknown kind.
pub open spec fn bucket(e: FileData) -> int {
    match e.kind {
        EntryKind::Directory => 0,
        EntryKind::File => 1,
        EntryKind::Symlink => match e.spec_rec_linked() {
            Option::None => 2,
            Option::Some(t) => match t.kind {
                EntryKind::Directory => 0,
                EntryKind::File => 1,
                _ => 2,
            },
        },
        EntryKind::Unknown => 3,
    }
}

/// The pairwise order the directory view shows: by bucket, then by name.
pub open spec fn entry_le(a: FileData, b: FileData) -> bool {
    ||| bucket(a) < bucket(b)
    ||| (bucket(a) == bucket(b) && lex_le(a.name@, b.name@))
}

/// A sequence of entries in display order.
pub open spec fn entries_sorted(s: Seq<FileData>) -> bool {
    forall|i: int, j: int| 0 <= i < j < s.len() ==> entry_le(s[i], s[j])
}

/// No two entries of the sequence share a display name — what any one
/// directory listing guarantees.
pub open spec fn distinct_names(s: Seq<FileData>) -> bool {
    forall|i: int, j: int| 0 <= i < j < s.len() ==> s[i].name@ != s[j].name@
}

/// `entry_le` relates every pair, one way or the other.
pub proof fn lemma_entry_le_total(a: FileData, b: FileData)
    ensures
        entry_le(a, b) || entry_le(b, a),
{
    lemma_lex_le_total(a.name@, b.name@);
}

/// `entry_le` is transitive.
pub proof fn lemma_entry_le_transitive(a: FileData, b: FileData, c: FileData)
    ensures
        entry_le(a, b) && entry_le(b, c) ==> entry_le(a, c),
{
    lemma_lex_lt_transitive(a.name@, b.name@, c.name@);
}

/// Two entries ordered both ways sit in one bucket and share one name.
pub proof fn lemma_entry_le_antisymmetric_names(a: FileData, b: FileData)
    ensures
        entry_le(a, b) && entry_le(b, a) ==> bucket(a) == bucket(b) && a.name@ == b.name@,
{
    lemma_lex_le_total(a.name@, b.name@);
}

/// Exec form of `bucket`.
pub fn bucket_of(e: &FileData) -> (r: u8)
    ensures
        r == bucket(*e),
{
    match e.file_ty() {
        EntryKind::Directory => 0,
        EntryKind::File => 1,
        EntryKind::Unknown => 3,
        EntryKind::Symlink => match e.rec_linked() {
            None => 2,
            Some(t) => match t.file_ty() {
                EntryKind::Directory => 0,
                EntryKind::File => 1,
                _ => 2,
            },
        },
    }
}

/// Exec form of `entry_le`: does `a` come no later than `b`?
pub fn entry_before(a: &FileData, b: &FileData) -> (r: bool)
    ensures
        r == entry_le(*a, *b),
{
    let ba = bucket_of(a);
    let bb = bucket_of(b);
    if ba < bb {
        true
    } else if bb < ba {
        false
    } else {
        str_le(a.name().as_str(), b.name().as_str())
    }
}

/// Sorts a directory listing into display order. The result holds exactly
/// the entries given, in an order fixed by `entry_le` alone — feeding the
/// same entries in any input order yields one and the same sequence (see
/// `lemma_sorted_entries_unique`).
pub fn sort_entries(entries: Vec<FileData>) -> (r: Vec<FileData>)
    ensures
        entries_sorted(r@),
        r@.to_multiset() == entries@.to_multiset(),
{
    broadcast use group_multiset_axioms, group_to_multiset_ensures;

    let ghost orig = entries@;
    let mut rest = entries;
    let mut out: Vec<FileData> = Vec::new();
    proof {
        assert(out@.to_multiset().add(rest@.to_multiset()) =~= orig.to_multiset());
    }
    while rest.len() > 0
        invariant
            entries_sorted(out@),
            out@.to_multiset().add(rest@.to_multiset()) == orig.to_multiset(),
        decreases rest.len(),
    {
        let ghost pre_rest = rest@;
        let e = rest.remove(0);
        proof {
            broadcast use group_multiset_axioms, group_to_multiset_ensures;

            assert(pre_rest.remove(0).to_multiset() =~= pre_rest.to_multiset().remove(e));
            assert(pre_rest.contains(e));
            assert(pre_rest.to_multiset().count(e) > 0);
        }
        let mut j: usize = 0;
        while j < out.len() && entry_before(&out[j], &e)
            invariant
                j <= out@.len(),
                forall|k: int| 0 <= k < j ==> entry_le(out@[k], e),
            decreases out@.len() - j,
        {
            j = j + 1;
        }
        let ghost pre_out = out@;
        proof {
            if j < pre_out.len() {
                lemma_entry_le_total(pre_out[j as int], e);
            }
            assert forall|x: int, y: int|
                0 <= x < y < pre_out.insert(j as int, e).len() implies entry_le(
                pre_out.insert(j as int, e)[x],
                pre_out.insert(j as int, e)[y],
            ) by {
                let ins = pre_out.insert(j as int, e);
                if x == j {
                    if y - 1 > j {
                        lemma_entry_le_transitive(e, pre_out[j as int], pre_out[y - 1]);
                    }
                } else if y == j {
                    // x < j: the inner loop established entry_le(pre_out[x], e)
                } else if x < j && y > j {
                    // both sides are untouched entries of the sorted prefix
                    assert(ins[x] == pre_out[x] && ins[y] == pre_out[y - 1]);
                    if x < y - 1 {
                    } else {
                        lemma_entry_le_transitive(pre_out[x], e, pre_out[y - 1]);
                    }
                }
            }
        }
        out.insert(j, e);
        proof {
            broadcast use group_multiset_axioms, group_to_multiset_ensures;

            assert(out@ == pre_out.insert(j as int, e));
            assert(pre_out.insert(j as int, e).to_multiset() == pre_out.to_multiset().insert(e));
            assert(out@.to_multiset().add(rest@.to_multiset()) =~= orig.to_multiset());
        }
    }
    proof {
        assert(rest@ =~= Seq::<FileData>::empty());
        assert(rest@.to_multiset() =~= Multiset::<FileData>::empty());
        assert(out@.to_multiset() =~= orig.to_multiset());
    }
    out
}

/// The display order is a function of the entries alone: two sorted
/// sequences holding the same multiset of distinctly named entries agree
/// element for element, so sorting the same listing twice — in whatever
/// input order — yields one and the same sequence.
pub proof fn lemma_sorted_entries_unique(x: Seq<FileData>, y: Seq<FileData>)
    requires
        entries_sorted(x),
        entries_sorted(y),
        x.to_multiset() == y.to_multiset(),
        distinct_names(x),
    ensures
        x == y,
    decreases x.len(),
{
    broadcast use group_multiset_axioms, group_to_multiset_ensures;

    if x.len() == 0 {
        assert(y.to_multiset().len() == 0);
        assert(x =~= y);
    } else {
        assert(x.to_multiset().contains(x[0]));
        assert(y.to_multiset().len() > 0);
        assert(y.len() > 0);
        assert(y.to_multiset().contains(y[0]));
        // each head occurs in the other sequence
        assert(x.contains(y[0]));
        assert(y.contains(x[0]));
        let i = choose|i: int| 0 <= i < x.len() && x[i] == y[0];
        let j = choose|j: int| 0 <= j < y.len() && y[j] == x[0];
        // both heads are minimal, so they relate both ways
        assert(entry_le(x[0], y[0])) by {
            if i > 0 {
                assert(entry_le(x[0], x[i]));
            } else {
                lemma_entry_le_total(x[0], y[0]);
                lemma_entry_le_antisymmetric_names(x[0], y[0]);
            }
        }
        assert(entry_le(y[0], x[0])) by {
            if j > 0 {
                assert(entry_le(y[0], y[j]));
            } else {
                lemma_entry_le_total(y[0], x[0]);
                lemma_entry_le_antisymmetric_names(y[0], x[0]);
            }
        }
        lemma_entry_le_antisymmetric_names(x[0], y[0]);
        // equal names force one index, since x's names are distinct
        assert(x[0] == y[0]) by {
            if i != 0 {
                assert(x[0].name@ != x[i].name@);
            }
        }
        assert(x.drop_first().to_multiset() =~= x.to_multiset().remove(x[0])) by {
            assert(x.remove(0) =~= x.drop_first());
        }
        assert(y.drop_first().to_multiset() =~= y.to_multiset().remove(y[0])) by {
            assert(y.remove(0) =~= y.drop_first());
        }
        lemma_sorted_entries_unique(x.drop_first(), y.drop_first());
        assert(x.to_multiset().len() == x.len());
        assert(y.to_multiset().len() == y.len());
        assert forall|k: int| 0 <= k < x.len() implies x[k] == y[k] by {
            if k > 0 {
                assert(x[k] == x.drop_first()[k - 1]);
                assert(y[k] == y.drop_first()[k - 1]);
            }
        }
        assert(x =~= y);
    }
}

/// In a sorted listing the buckets come whole and in order: directory-like
/// entries precede file-like entries, which precede unresolved symlinks,
/// which precede entries of unknown kind.
pub proof fn lemma_bucket_order(s: Seq<FileData>)
    requires
        entries_sorted(s),
    ensures
        forall|i: int, j: int| 0 <= i < j < s.len() ==> bucket(s[i]) <= bucket(s[j]),
{
    assert forall|i: int, j: int| 0 <= i < j < s.len() implies bucket(s[i]) <= bucket(s[j]) by {
        assert(entry_le(s[i], s[j]));
    }
}

} // verus!
