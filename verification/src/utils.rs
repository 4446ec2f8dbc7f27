//! Applying a finished drag to the caller's list.

use vstd::prelude::*;

verus! {

/// Final position of the dragged element when it is taken out of slot `from`
/// and put back at insertion slot `to`. Insertion slots count the `len + 1`
/// gaps of the original list, so every slot above `from` shifts down by one
/// once the element is removed.
pub open spec fn moved_index(from: int, to: int) -> int {
    if to <= from {
        to
    } else {
        to - 1
    }
}

/// The list after moving the element at index `from` to insertion slot `to`:
/// the element is taken out, everything else closes up, and the element is
/// put back at `moved_index(from, to)`.
pub open spec fn apply_move<T>(s: Seq<T>, from: int, to: int) -> Seq<T>
    recommends
        0 <= from < s.len(),
        0 <= to <= s.len(),
{
    s.remove(from).insert(moved_index(from, to), s[from])
}

/// Move the element at index `from` to insertion slot `to`, keeping the
/// relative order of all other elements.
pub fn shift_vec<T>(from: usize, to: usize, items: &mut Vec<T>)
    requires
        from < old(items).len(),
        to <= old(items).len(),
    ensures
        final(items)@ == apply_move(old(items)@, from as int, to as int),
{
    let item = items.remove(from);
    let dest: usize = if to <= from {
        to
    } else {
        to - 1
    };
    items.insert(dest, item);
}

/// Moving an element leaves every other element in place, in order: the
/// result has the same length, carries the moved element at its new index,
/// holds the same elements (as a multiset), and, with the moved element
/// taken back out, is exactly the original list without it.
pub proof fn lemma_apply_move_preserves_rest<T>(s: Seq<T>, from: int, to: int)
    requires
        0 <= from < s.len(),
        0 <= to <= s.len(),
    ensures
        apply_move(s, from, to).len() == s.len(),
        apply_move(s, from, to)[moved_index(from, to)] == s[from],
        apply_move(s, from, to).remove(moved_index(from, to)) == s.remove(from),
        apply_move(s, from, to).to_multiset() == s.to_multiset(),
{
    broadcast use vstd::seq_lib::group_to_multiset_ensures;
    broadcast use vstd::multiset::group_multiset_axioms;

    let rest = s.remove(from);
    let dest = moved_index(from, to);
    assert(rest.insert(dest, s[from]).remove(dest) =~= rest);
    assert(s.contains(s[from]));
    assert(rest.to_multiset().insert(s[from]) =~= s.to_multiset());
}

/// Where an element other than the moved one lands: removal at `from`
/// closes the gap, insertion at the moved element's final index opens one.
pub open spec fn rest_index(from: int, to: int, j: int) -> int {
    let p = if j < from {
        j
    } else {
        j - 1
    };
    if p < moved_index(from, to) {
        p
    } else {
        p + 1
    }
}

/// Every element other than the moved one is still there, at
/// `rest_index(from, to, j)`: the whole list is accounted for, element by
/// element.
pub proof fn lemma_apply_move_rest_index<T>(s: Seq<T>, from: int, to: int, j: int)
    requires
        0 <= from < s.len(),
        0 <= to <= s.len(),
        0 <= j < s.len(),
        j != from,
    ensures
        0 <= rest_index(from, to, j) < s.len(),
        apply_move(s, from, to)[rest_index(from, to, j)] == s[j],
{
}

/// Of two elements other than the moved one, the one that came first still
/// comes first: a move keeps the relative order of everything else.
pub proof fn lemma_apply_move_keeps_order<T>(s: Seq<T>, from: int, to: int, j1: int, j2: int)
    requires
        0 <= from < s.len(),
        0 <= to <= s.len(),
        0 <= j1 < j2 < s.len(),
        j1 != from,
        j2 != from,
    ensures
        rest_index(from, to, j1) < rest_index(from, to, j2),
{
}

/// Dropping an element back into the slot it came from, or into the slot
/// right after it, leaves the list unchanged.
pub proof fn lemma_apply_move_same_slot<T>(s: Seq<T>, from: int)
    requires
        0 <= from < s.len(),
    ensures
        apply_move(s, from, from) == s,
        apply_move(s, from, from + 1) == s,
{
    assert(apply_move(s, from, from) =~= s);
    assert(apply_move(s, from, from + 1) =~= s);
}

} // verus!
