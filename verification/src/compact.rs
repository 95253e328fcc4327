//! Taking marked items out of a collection whose order does not matter.
//!
//! An item is taken out by moving the last item into its place. That keeps
//! every index below the vacated place valid and no other, so the marked
//! indices are sorted and taken from the greatest down.

use vstd::prelude::*;
use vstd::seq_lib::{to_multiset_remove, to_multiset_update};
use crate::fate::{indices_where, lemma_indices_where};

verus! {

/// The items of `s` whose index is not in `gone`, in their order.
pub open spec fn kept<T>(s: Seq<T>, gone: Set<int>) -> Seq<T>
    decreases s.len(),
{
    if s.len() == 0 {
        Seq::empty()
    } else {
        let rest = kept(s.drop_last(), gone);
        if gone.contains(s.len() - 1) {
            rest
        } else {
            rest.push(s.last())
        }
    }
}

/// A list of marks as a sequence of unbounded integers.
pub open spec fn indices(marks: Seq<usize>) -> Seq<int> {
    Seq::new(marks.len(), |k: int| marks[k] as int)
}

/// The indices that a list of marks names.
pub open spec fn mark_set(marks: Seq<usize>) -> Set<int> {
    Set::new(|i: int| exists|k: int| 0 <= k < marks.len() && marks[k] == i)
}

/// The indices that a list of marks names are the items of the list.
pub proof fn lemma_mark_set(marks: Seq<usize>)
    ensures
        mark_set(marks) == indices(marks).to_set(),
{
    assert forall|i: int| mark_set(marks).contains(i) implies indices(marks).to_set().contains(
        i,
    ) by {
        let k = choose|k: int| 0 <= k < marks.len() && marks[k] == i;
        assert(indices(marks)[k] == i);
    }
    assert forall|i: int| indices(marks).to_set().contains(i) implies mark_set(marks).contains(
        i,
    ) by {
        let k = choose|k: int| 0 <= k < indices(marks).len() && indices(marks)[k] == i;
        assert(marks[k] == i);
    }
    assert(mark_set(marks) =~= indices(marks).to_set());
}

/// Whether every mark names an item of a collection of `len` items, and no
/// two marks name the same one.
pub open spec fn marks_valid(marks: Seq<usize>, len: nat) -> bool {
    &&& marks.no_duplicates()
    &&& forall|k: int| 0 <= k < marks.len() ==> marks[k] < len
}

/// Whether `s` runs from its greatest item to its least.
pub open spec fn descending(s: Seq<usize>) -> bool {
    forall|i: int, j: int| 0 <= i < j < s.len() ==> s[i] >= s[j]
}

/// Only the indices below the length of `s` matter to [`kept`].
pub proof fn lemma_kept_agrees<T>(s: Seq<T>, gone: Set<int>, other: Set<int>)
    requires
        forall|i: int| 0 <= i < s.len() ==> (gone.contains(i) <==> other.contains(i)),
    ensures
        kept(s, gone) == kept(s, other),
    decreases s.len(),
{
    if s.len() > 0 {
        lemma_kept_agrees(s.drop_last(), gone, other);
    }
}

/// With nothing gone, everything is kept.
pub proof fn lemma_kept_all<T>(s: Seq<T>)
    ensures
        kept(s, Set::empty()) == s,
    decreases s.len(),
{
    if s.len() > 0 {
        lemma_kept_all(s.drop_last());
        assert(s.drop_last().push(s.last()) == s);
    }
}

/// Items added behind every index that is gone are all kept.
pub proof fn lemma_kept_appended<T>(s: Seq<T>, tail: Seq<T>, gone: Set<int>)
    requires
        forall|i: int| gone.contains(i) ==> i < s.len(),
    ensures
        kept(s + tail, gone) == kept(s, gone) + tail,
    decreases tail.len(),
{
    if tail.len() == 0 {
        assert(s + tail == s);
        assert(kept(s, gone) + tail == kept(s, gone));
    } else {
        let all = s + tail;
        lemma_kept_appended(s, tail.drop_last(), gone);
        assert(all.drop_last() == s + tail.drop_last());
        assert(all.last() == tail.last());
        assert((kept(s, gone) + tail.drop_last()).push(tail.last()) == kept(s, gone) + tail);
    }
}

/// Marking one more item takes exactly that item out of what is kept.
pub proof fn lemma_kept_one_less<T>(s: Seq<T>, gone: Set<int>, index: int)
    requires
        0 <= index < s.len(),
        !gone.contains(index),
    ensures
        kept(s, gone).to_multiset().count(s[index]) > 0,
        kept(s, gone.insert(index)).to_multiset() == kept(s, gone).to_multiset().remove(s[index]),
        kept(s, gone.insert(index)).len() == kept(s, gone).len() - 1,
    decreases s.len(),
{
    broadcast use {vstd::seq_lib::group_to_multiset_ensures, vstd::multiset::group_multiset_axioms};

    let head = s.drop_last();
    let more = gone.insert(index);
    if index == s.len() - 1 {
        lemma_kept_agrees(head, more, gone);
        assert(kept(s, more).to_multiset() =~= kept(s, gone).to_multiset().remove(s[index]));
    } else {
        lemma_kept_one_less(head, gone, index);
        assert(head[index] == s[index]);
        assert(kept(s, more).to_multiset() =~= kept(s, gone).to_multiset().remove(s[index]));
    }
}

/// What is kept when the items that satisfy `marked` are gone is what a
/// filter by `unmarked`, the opposite condition, lets through.
pub proof fn lemma_kept_unmarked<T>(
    s: Seq<T>,
    marked: spec_fn(T) -> bool,
    unmarked: spec_fn(T) -> bool,
)
    requires
        forall|x: T| #[trigger] unmarked(x) <==> !marked(x),
    ensures
        kept(s, indices_where(s, marked).to_set()) == s.filter(unmarked),
    decreases s.len(),
{
    reveal(Seq::filter);
    if s.len() > 0 {
        let head = s.drop_last();
        let gone = indices_where(s, marked).to_set();
        lemma_kept_unmarked(head, marked, unmarked);
        lemma_indices_where(s, marked);
        lemma_indices_where(head, marked);
        assert forall|i: int| 0 <= i < head.len() implies (gone.contains(i) <==> indices_where(
            head,
            marked,
        ).to_set().contains(i)) by {
            assert(head[i] == s[i]);
            if gone.contains(i) {
                let k = choose|k: int|
                    0 <= k < indices_where(s, marked).len() && indices_where(s, marked)[k] == i;
                assert(marked(s[indices_where(s, marked)[k]]));
            }
            if indices_where(head, marked).to_set().contains(i) {
                let k = choose|k: int|
                    0 <= k < indices_where(head, marked).len() && indices_where(head, marked)[k]
                        == i;
                assert(marked(head[indices_where(head, marked)[k]]));
            }
        }
        lemma_kept_agrees(head, gone, indices_where(head, marked).to_set());
        if marked(s.last()) {
            assert(s[s.len() - 1] == s.last());
            assert(gone.contains(s.len() - 1));
        } else {
            if gone.contains(s.len() - 1) {
                let k = choose|k: int|
                    0 <= k < indices_where(s, marked).len() && indices_where(s, marked)[k]
                        == s.len() - 1;
                assert(marked(s[indices_where(s, marked)[k]]));
            }
        }
    }
}

/// Exchanging two items of a sequence changes nothing in what it holds.
proof fn lemma_exchange<T>(s: Seq<T>, i: int, j: int)
    requires
        0 <= i < s.len(),
        0 <= j < s.len(),
    ensures
        s.update(i, s[j]).update(j, s[i]).to_multiset() == s.to_multiset(),
{
    broadcast use vstd::multiset::group_multiset_axioms;

    to_multiset_update(s, i, s[j]);
    to_multiset_update(s.update(i, s[j]), j, s[i]);
    vstd::seq_lib::to_multiset_contains(s, s[i]);
    vstd::seq_lib::to_multiset_contains(s, s[j]);
    assert(s.contains(s[i]));
    assert(s.contains(s[j]));
    assert(s.update(i, s[j]).update(j, s[i]).to_multiset() =~= s.to_multiset());
}

/// Moving the last item into the place of item `i` and dropping the last
/// place takes exactly item `i` out.
proof fn lemma_swap_remove<T>(s: Seq<T>, i: int)
    requires
        0 <= i < s.len(),
    ensures
        s.update(i, s.last()).drop_last().to_multiset() == s.to_multiset().remove(s[i]),
{
    broadcast use vstd::multiset::group_multiset_axioms;

    let moved = s.update(i, s.last());
    let last = s.len() - 1;
    assert(moved.drop_last() == moved.remove(last));
    to_multiset_remove(moved, last);
    to_multiset_update(s, i, s.last());
    vstd::seq_lib::to_multiset_contains(s, s[i]);
    vstd::seq_lib::to_multiset_contains(s, s.last());
    assert(s.contains(s[i]));
    assert(s.contains(s[last]));
    assert(moved.drop_last().to_multiset() =~= s.to_multiset().remove(s[i]));
}

/// Two sequences that hold the same items hold `x` both or neither.
proof fn lemma_same_items<T>(a: Seq<T>, b: Seq<T>, x: T)
    requires
        a.to_multiset() == b.to_multiset(),
        a.contains(x),
    ensures
        b.contains(x),
{
    vstd::seq_lib::to_multiset_contains(a, x);
    vstd::seq_lib::to_multiset_contains(b, x);
}

/// Sorts `marks` from the greatest to the least.
pub fn sort_descending(marks: &mut Vec<usize>)
    ensures
        descending(final(marks)@),
        final(marks)@.to_multiset() == old(marks)@.to_multiset(),
        final(marks)@.len() == old(marks)@.len(),
{
    let n = marks.len();
    let mut i: usize = 1;
    while i < n
        invariant
            1 <= i,
            marks@.len() == n,
            marks@.to_multiset() == old(marks)@.to_multiset(),
            forall|a: int, b: int| 0 <= a < b < i && b < n ==> marks@[a] >= marks@[b],
        decreases n - i,
    {
        let mut j: usize = i;
        while j > 0 && marks[j - 1] < marks[j]
            invariant
                j <= i < n,
                marks@.len() == n,
                marks@.to_multiset() == old(marks)@.to_multiset(),
                forall|a: int, b: int|
                    0 <= a < b <= i && a != j && b != j ==> marks@[a] >= marks@[b],
                forall|b: int| j < b <= i ==> marks@[j as int] >= marks@[b],
            decreases j,
        {
            let ghost before = marks@;
            let lower = marks[j - 1];
            let upper = marks[j];
            marks.set(j - 1, upper);
            marks.set(j, lower);
            proof {
                lemma_exchange(before, j - 1, j as int);
            }
            j = j - 1;
        }
        i = i + 1;
    }
}

/// Takes out of `items` every item that `marks` names, and leaves `marks`
/// sorted from the greatest to the least.
///
/// What stays is exactly what stood at the unmarked indices: no other item
/// is taken out, and none is held more often than before. In what order the
/// items stay is not stated.
pub fn remove_marked<T>(items: &mut Vec<T>, marks: &mut Vec<usize>)
    requires
        marks_valid(old(marks)@, old(items)@.len()),
    ensures
        final(items)@.to_multiset() == kept(old(items)@, mark_set(old(marks)@)).to_multiset(),
        final(items)@.len() == old(items)@.len() - old(marks)@.len(),
        descending(final(marks)@),
        final(marks)@.to_multiset() == old(marks)@.to_multiset(),
{
    sort_descending(marks);
    let ghost start = items@;
    proof {
        broadcast use vstd::seq_lib::group_to_multiset_ensures;

        old(marks)@.lemma_multiset_has_no_duplicates();
        marks@.lemma_multiset_has_no_duplicates_conv();
        assert forall|k: int| 0 <= k < marks@.len() implies marks@[k] < start.len() by {
            assert(marks@.contains(marks@[k]));
            lemma_same_items(marks@, old(marks)@, marks@[k]);
        }
        lemma_kept_all(start);
        assert(mark_set(marks@.take(0)) =~= Set::<int>::empty());
    }
    let mut k: usize = 0;
    while k < marks.len()
        invariant
            k <= marks@.len(),
            descending(marks@),
            marks@.no_duplicates(),
            forall|m: int| 0 <= m < marks@.len() ==> marks@[m] < start.len(),
            items@.len() == start.len() - k,
            items@.to_multiset() == kept(start, mark_set(marks@.take(k as int))).to_multiset(),
            forall|i: int|
                0 <= i < start.len() && (k > 0 ==> i < marks@[k - 1]) ==> i < items@.len()
                    && items@[i] == start[i],
        decreases marks@.len() - k,
    {
        let at = marks[k];
        let ghost taken = marks@.take(k as int);
        let ghost next = marks@.take(k + 1);
        let ghost gone = mark_set(taken);
        let ghost before = items@;
        proof {
            if k > 0 {
                assert(marks@[k as int] != marks@[k - 1]);
            }
            assert(!gone.contains(at as int)) by {
                if gone.contains(at as int) {
                    let m = choose|m: int| 0 <= m < taken.len() && taken[m] == at;
                    assert(marks@[m] == marks@[k as int]);
                }
            }
            lemma_kept_one_less(start, gone, at as int);
            lemma_swap_remove(before, at as int);
            assert(mark_set(next) =~= gone.insert(at as int)) by {
                assert forall|i: int| gone.insert(at as int).contains(i) implies mark_set(
                    next,
                ).contains(i) by {
                    if i == at {
                        assert(next[k as int] == at);
                    } else {
                        let m = choose|m: int| 0 <= m < taken.len() && taken[m] == i;
                        assert(next[m] == i);
                    }
                }
                assert forall|i: int| mark_set(next).contains(i) implies gone.insert(
                    at as int,
                ).contains(i) by {
                    let m = choose|m: int| 0 <= m < next.len() && next[m] == i;
                    if m < k {
                        assert(taken[m] == i);
                    }
                }
            }
        }
        items.swap_remove(at);
        k = k + 1;
    }
    proof {
        assert(marks@.take(marks@.len() as int) == marks@);
        assert(mark_set(marks@) =~= mark_set(old(marks)@)) by {
            broadcast use vstd::seq_lib::group_to_multiset_ensures;

            assert forall|i: int| mark_set(marks@).contains(i) implies mark_set(
                old(marks)@,
            ).contains(i) by {
                let m = choose|m: int| 0 <= m < marks@.len() && marks@[m] == i;
                assert(marks@.contains(marks@[m]));
                lemma_same_items(marks@, old(marks)@, marks@[m]);
                let o = choose|o: int| 0 <= o < old(marks)@.len() && old(marks)@[o] == marks@[m];
                assert(old(marks)@[o] == i);
            }
            assert forall|i: int| mark_set(old(marks)@).contains(i) implies mark_set(
                marks@,
            ).contains(i) by {
                let o = choose|o: int| 0 <= o < old(marks)@.len() && old(marks)@[o] == i;
                assert(old(marks)@.contains(old(marks)@[o]));
                lemma_same_items(old(marks)@, marks@, old(marks)@[o]);
                let m = choose|m: int| 0 <= m < marks@.len() && marks@[m] == old(marks)@[o];
                assert(marks@[m] == i);
            }
        }
    }
}

} // verus!
