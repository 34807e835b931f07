//! Ordering of result lists: newest first, stable for equal timestamps.
//!
//! The listing a worker collects is sorted by last-modification time,
//! descending, before the match phase walks it; the match phase only ever
//! appends in listing order, so the sortedness established here carries
//! through to every delivered result list.

use vstd::prelude::*;

use crate::note::ListItem;
use crate::note::NoteView;
use crate::note::SortMethod;

verus! {

/// The ghost image of a listing: each item by its view.
pub open spec fn notes(s: Seq<ListItem>) -> Seq<NoteView> {
    s.map_values(|it: ListItem| it@)
}

/// Newest first: the modification time never increases along the sequence.
pub open spec fn sorted_desc(s: Seq<NoteView>) -> bool {
    forall|i: int, j: int| 0 <= i <= j < s.len() ==> s[i].modified >= s[j].modified
}

/// Where `x` lands when inserted into `s`: before the first element strictly
/// older than `x`, and after every element at least as new — so a run of
/// equal timestamps keeps its original order.
pub open spec fn insert_desc(s: Seq<NoteView>, x: NoteView) -> Seq<NoteView>
    decreases s.len(),
{
    if s.len() == 0 {
        seq![x]
    } else if s[0].modified >= x.modified {
        seq![s[0]] + insert_desc(s.drop_first(), x)
    } else {
        seq![x] + s
    }
}

/// Stable insertion sort, newest first: the one meaning of
/// [`SortMethod::DateNewest`].
pub open spec fn sort_desc(s: Seq<NoteView>) -> Seq<NoteView>
    decreases s.len(),
{
    if s.len() == 0 {
        Seq::empty()
    } else {
        insert_desc(sort_desc(s.drop_last()), s.last())
    }
}

/// `insert_desc` is insertion at the first position whose element is strictly
/// older than `x`.
proof fn lemma_insert_desc_at(s: Seq<NoteView>, x: NoteView, pos: int)
    requires
        0 <= pos <= s.len(),
        forall|k: int| 0 <= k < pos ==> s[k].modified >= x.modified,
        pos < s.len() ==> s[pos].modified < x.modified,
    ensures
        insert_desc(s, x) == s.insert(pos, x),
    decreases s.len(),
{
    if s.len() == 0 {
        assert(insert_desc(s, x) =~= s.insert(0, x));
    } else if pos == 0 {
        assert(s[0].modified < x.modified);
        assert(insert_desc(s, x) =~= s.insert(0, x));
    } else {
        assert(s[0].modified >= x.modified);
        lemma_insert_desc_at(s.drop_first(), x, pos - 1);
        assert(insert_desc(s, x) =~= s.insert(pos, x));
    }
}

/// Inserting preserves sortedness.
proof fn lemma_insert_desc_sorted(s: Seq<NoteView>, x: NoteView)
    requires
        sorted_desc(s),
    ensures
        sorted_desc(insert_desc(s, x)),
        insert_desc(s, x).len() == s.len() + 1,
    decreases s.len(),
{
    if s.len() == 0 {
    } else if s[0].modified >= x.modified {
        assert(sorted_desc(s.drop_first()));
        lemma_insert_desc_sorted(s.drop_first(), x);
        let r = seq![s[0]] + insert_desc(s.drop_first(), x);
        assert forall|i: int, j: int| 0 <= i <= j < r.len() implies r[i].modified
            >= r[j].modified by {
            if i == 0 && j > 0 {
                lemma_insert_desc_bound(s.drop_first(), x, s[0].modified);
            }
        }
    }
}

/// Every element of an insertion's result is bounded by a bound on the
/// inputs.
proof fn lemma_insert_desc_bound(s: Seq<NoteView>, x: NoteView, b: u64)
    requires
        forall|k: int| 0 <= k < s.len() ==> b >= s[k].modified,
        b >= x.modified,
    ensures
        forall|k: int|
            0 <= k < insert_desc(s, x).len() ==> b >= insert_desc(s, x)[k].modified,
    decreases s.len(),
{
    if s.len() == 0 {
    } else if s[0].modified >= x.modified {
        lemma_insert_desc_bound(s.drop_first(), x, b);
    }
}

/// Inserting adds exactly the new element: the result is a permutation of
/// the input plus `x`.
proof fn lemma_insert_desc_multiset(s: Seq<NoteView>, x: NoteView)
    ensures
        insert_desc(s, x).to_multiset() == s.to_multiset().insert(x),
    decreases s.len(),
{
    broadcast use vstd::seq_lib::group_to_multiset_ensures;

    if s.len() == 0 {
        assert(insert_desc(s, x) =~= Seq::empty().push(x));
        assert(Seq::<NoteView>::empty().push(x).to_multiset() =~= s.to_multiset().insert(x));
    } else if s[0].modified >= x.modified {
        lemma_insert_desc_multiset(s.drop_first(), x);
        assert(seq![s[0]] + insert_desc(s.drop_first(), x) =~= insert_desc(
            s.drop_first(),
            x,
        ).insert(0, s[0]));
        assert(s =~= s.drop_first().insert(0, s[0]));
        assert(insert_desc(s, x).to_multiset() =~= s.to_multiset().insert(x));
    } else {
        assert(seq![x] + s =~= s.insert(0, x));
        assert(insert_desc(s, x).to_multiset() =~= s.to_multiset().insert(x));
    }
}

/// The sort's result is sorted.
pub proof fn lemma_sort_desc_sorted(s: Seq<NoteView>)
    ensures
        sorted_desc(sort_desc(s)),
        sort_desc(s).len() == s.len(),
    decreases s.len(),
{
    if s.len() > 0 {
        lemma_sort_desc_sorted(s.drop_last());
        lemma_insert_desc_sorted(sort_desc(s.drop_last()), s.last());
    }
}

/// The sort's result is a permutation of its input: nothing is dropped,
/// duplicated or invented.
pub proof fn lemma_sort_desc_permutes(s: Seq<NoteView>)
    ensures
        sort_desc(s).to_multiset() == s.to_multiset(),
    decreases s.len(),
{
    broadcast use vstd::seq_lib::group_to_multiset_ensures;

    if s.len() > 0 {
        lemma_sort_desc_permutes(s.drop_last());
        lemma_insert_desc_multiset(sort_desc(s.drop_last()), s.last());
        assert(s =~= s.drop_last().push(s.last()));
        assert(sort_desc(s).to_multiset() =~= s.to_multiset());
    }
}

/// Sorts a listing for the match phase. The one supported method orders by
/// modification time, newest first; ties keep their listing order.
pub fn sort_listing(list: Vec<ListItem>, sort_by: SortMethod) -> (r: Vec<ListItem>)
    ensures
        notes(r@) == sort_desc(notes(list@)),
        sorted_desc(notes(r@)),
{
    match sort_by {
        SortMethod::DateNewest => {},
    }
    let ghost original = list@;
    let mut rest = list;
    let mut out: Vec<ListItem> = Vec::new();
    let ghost mut done: Seq<ListItem> = Seq::empty();
    proof {
        assert(notes(done) =~= Seq::<NoteView>::empty());
        assert(done + rest@ =~= original);
    }
    while rest.len() > 0
        invariant
            done + rest@ == original,
            notes(out@) == sort_desc(notes(done)),
            sorted_desc(notes(out@)),
        decreases rest@.len(),
    {
        let x = rest.remove(0);
        proof {
            assert(done.push(x) + rest@ =~= original);
        }
        let mut pos: usize = 0;
        while pos < out.len() && out[pos].modified >= x.modified
            invariant
                pos <= out@.len(),
                forall|k: int| 0 <= k < pos ==> notes(out@)[k].modified >= x.modified,
            decreases out@.len() - pos,
        {
            pos = pos + 1;
        }
        let ghost out_before = out@;
        proof {
            lemma_insert_desc_at(notes(out_before), x@, pos as int);
            lemma_insert_desc_sorted(notes(out_before), x@);
            assert(notes(done.push(x)).drop_last() =~= notes(done));
            assert(notes(done.push(x)).last() == x@);
            assert(sort_desc(notes(done.push(x))) == insert_desc(sort_desc(notes(done)), x@));
        }
        out.insert(pos, x);
        proof {
            assert(notes(out@) =~= notes(out_before).insert(pos as int, x@));
            done = done.push(x);
            assert(notes(out@) =~= sort_desc(notes(done)));
        }
    }
    proof {
        assert(done =~= original);
    }
    out
}

} // verus!
