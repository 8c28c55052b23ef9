//! Ordering a directory listing.
//!
//! An OS may enumerate a directory's children in any order; the engine
//! always presents them in the listing order of [`crate::order`]. Because
//! that order is total, the sorted form of a listing is unique: listing
//! an unchanged directory twice yields the identical sequence.

use vstd::prelude::*;
use vstd::relations::sorted_by;
use vstd::seq_lib::{lemma_multiset_commutative, lemma_sorted_unique};
use vstd::multiset::Multiset;
use crate::entry::{EntryModel, FileEntry};
use crate::order::{entry_le, entry_order, entry_le_exec, folded, lex_cmp, lemma_entry_order_total};

verus! {

/// The models of a sequence of entries.
pub open spec fn models(s: Seq<FileEntry>) -> Seq<EntryModel> {
    s.map_values(|e: FileEntry| e@)
}

/// The one sorted arrangement of an enumeration of entries.
pub open spec fn sorted_listing(s: Seq<EntryModel>) -> Seq<EntryModel> {
    s.sort_by(entry_order())
}

/// Inserting an element anywhere adds exactly it to the multiset.
proof fn lemma_insert_to_multiset<A>(s: Seq<A>, i: int, a: A)
    requires
        0 <= i <= s.len(),
    ensures
        s.insert(i, a).to_multiset() == s.to_multiset().insert(a),
{
    broadcast use vstd::seq_lib::group_to_multiset_ensures;
    broadcast use vstd::multiset::group_multiset_axioms;

    let l = s.subrange(0, i);
    let r = s.subrange(i, s.len() as int);
    assert(s =~= l + r);
    assert(s.insert(i, a) == l.push(a) + r);
    lemma_multiset_commutative(l.push(a), r);
    lemma_multiset_commutative(l, r);
    assert(s.insert(i, a).to_multiset() =~= s.to_multiset().insert(a));
}

/// Taking models commutes with inserting an entry.
proof fn lemma_models_insert(s: Seq<FileEntry>, i: int, e: FileEntry)
    requires
        0 <= i <= s.len(),
    ensures
        models(s.insert(i, e)) == models(s).insert(i, e@),
{
    s.insert_ensures(i, e);
    models(s).insert_ensures(i, e@);
    assert forall|k: int| 0 <= k < models(s.insert(i, e)).len()
        implies models(s.insert(i, e))[k] == models(s).insert(i, e@)[k] by {
        if k < i {
            assert(s.insert(i, e)[k] == s[k]);
            assert(models(s).insert(i, e@)[k] == models(s)[k]);
        } else if k == i {
            assert(s.insert(i, e)[i] == e);
            assert(models(s).insert(i, e@)[i] == e@);
        } else {
            assert(s.insert(i, e)[k] == s[k - 1]);
            assert(models(s).insert(i, e@)[k] == models(s)[k - 1]);
        }
    }
    assert(models(s.insert(i, e)) =~= models(s).insert(i, e@));
}

/// Sorts a listing into the listing order: directories before files,
/// names compared case-insensitively, remaining ties broken so that the
/// result is the unique sorted arrangement of the input.
pub fn sort_entries(v: Vec<FileEntry>) -> (r: Vec<FileEntry>)
    ensures
        sorted_by(models(r@), entry_order()),
        models(r@).to_multiset() == models(v@).to_multiset(),
        models(r@) == sorted_listing(models(v@)),
{
    let mut input = v;
    let mut out: Vec<FileEntry> = Vec::new();
    proof {
        broadcast use vstd::seq_lib::group_to_multiset_ensures;
        broadcast use vstd::multiset::group_multiset_axioms;

        assert(models(out@) =~= Seq::<EntryModel>::empty());
        assert(models(input@) =~= models(v@));
        assert(models(out@).to_multiset().add(models(input@).to_multiset())
            =~= models(v@).to_multiset());
    }
    while input.len() > 0
        invariant
            sorted_by(models(out@), entry_order()),
            models(out@).to_multiset().add(models(input@).to_multiset())
                == models(v@).to_multiset(),
        decreases input.len(),
    {
        let ghost input0 = input@;
        let ghost out0 = out@;
        let e = input.pop().unwrap();
        proof {
            broadcast use vstd::seq_lib::group_to_multiset_ensures;
            broadcast use vstd::multiset::group_multiset_axioms;

            assert(models(input0) =~= models(input@).push(e@));
            assert(models(input0).to_multiset() == models(input@).to_multiset().insert(e@));
        }
        let mut pos: usize = 0;
        while pos < out.len() && entry_le_exec(&out[pos], &e)
            invariant
                pos <= out@.len(),
                out@ == out0,
                forall|k: int| 0 <= k < pos ==> entry_le(#[trigger] models(out@)[k], e@),
            decreases out@.len() - pos,
        {
            pos = pos + 1;
        }
        proof {
            lemma_entry_order_total();
            let le = entry_order();
            assert forall|k: int| pos <= k < out0.len()
                implies entry_le(e@, #[trigger] models(out0)[k]) by {
                assert(!entry_le(models(out0)[pos as int], e@));
                crate::order::lemma_entry_cmp_antisym(e@, models(out0)[pos as int]);
                assert(le(e@, models(out0)[pos as int]));
                if k > pos {
                    assert(le(models(out0)[pos as int], models(out0)[k]));
                    crate::order::lemma_entry_cmp_trans(
                        e@,
                        models(out0)[pos as int],
                        models(out0)[k],
                    );
                }
            }
        }
        out.insert(pos, e);
        proof {
            broadcast use vstd::seq_lib::group_to_multiset_ensures;
            broadcast use vstd::multiset::group_multiset_axioms;

            lemma_entry_order_total();
            let le = entry_order();
            lemma_models_insert(out0, pos as int, e);
            lemma_insert_to_multiset(models(out0), pos as int, e@);
            out0.insert_ensures(pos as int, e);
            models(out0).insert_ensures(pos as int, e@);
            let m = models(out@);
            assert(m == models(out0).insert(pos as int, e@));
            assert forall|i: int, j: int| 0 <= i < j < m.len() implies le(m[i], m[j]) by {
                if j < pos {
                    assert(m[i] == models(out0)[i] && m[j] == models(out0)[j]);
                } else if i > pos {
                    assert(m[i] == models(out0)[i - 1] && m[j] == models(out0)[j - 1]);
                } else if i == pos && j > pos {
                    assert(m[i] == e@ && m[j] == models(out0)[j - 1]);
                } else if j == pos && i < pos {
                    assert(m[i] == models(out0)[i] && m[j] == e@);
                } else {
                    assert(i < pos && j > pos);
                    assert(m[i] == models(out0)[i] && m[j] == models(out0)[j - 1]);
                    assert(le(models(out0)[i], e@));
                    assert(le(e@, models(out0)[j - 1]));
                }
            }
            assert(sorted_by(m, le));
            assert(models(out@).to_multiset().add(models(input@).to_multiset())
                =~= models(v@).to_multiset());
        }
    }
    proof {
        broadcast use vstd::seq_lib::group_to_multiset_ensures;
        broadcast use vstd::multiset::group_multiset_axioms;

        let le = entry_order();
        lemma_entry_order_total();
        assert(models(input@) =~= Seq::<EntryModel>::empty());
        assert(models(input@).to_multiset() =~= Multiset::<EntryModel>::empty());
        assert(models(out@).to_multiset() =~= models(v@).to_multiset());
        models(v@).lemma_sort_by_ensures(le);
        lemma_sorted_unique(models(out@), models(v@).sort_by(le), le);
        assert(models(out@) == sorted_listing(models(v@)));
    }
    out
}

/// Listing an unchanged directory twice yields the identical ordered
/// sequence: the sorted form depends only on the multiset of entries,
/// not on the order the OS enumerated them in.
pub proof fn lemma_listing_deterministic(s1: Seq<EntryModel>, s2: Seq<EntryModel>)
    requires
        s1.to_multiset() == s2.to_multiset(),
    ensures
        sorted_listing(s1) == sorted_listing(s2),
{
    let le = entry_order();
    lemma_entry_order_total();
    s1.lemma_sort_by_ensures(le);
    s2.lemma_sort_by_ensures(le);
    lemma_sorted_unique(s1.sort_by(le), s2.sort_by(le), le);
}

/// In a sorted listing, every directory precedes every file, and within
/// each group the case-folded names compare non-decreasing.
pub proof fn lemma_listing_shape(s: Seq<EntryModel>, i: int, j: int)
    requires
        sorted_by(s, entry_order()),
        0 <= i < j < s.len(),
    ensures
        s[j].is_dir ==> s[i].is_dir,
        s[i].is_dir == s[j].is_dir ==> lex_cmp(folded(s[i].name), folded(s[j].name)) <= 0,
{
    assert(entry_order()(s[i], s[j]));
    assert(entry_le(s[i], s[j]));
    crate::order::lemma_lex_cmp_zero(folded(s[i].name), folded(s[j].name));
}

} // verus!

