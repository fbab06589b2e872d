//! Copy and cut of the selected objects (Ctrl+C, Ctrl+X).
//!
//! A page is a sequence of elements; `ids[i]` is the id of the element at position `i`.
//! Copy puts clones of the selected elements on the clipboard, in page order; cut moves
//! them there, leaves the other elements on the page in their order and clears the
//! selection.
use vstd::prelude::*;
use crate::canvas::selection::SelectionState;
use crate::clipboard::{ClipboardStore, copy_to_clipboard, random_id};

verus! {

/// The positions of the elements whose id is (`selected`) or is not (`!selected`) in
/// `sel`, in page order.
pub open spec fn positions(ids: Seq<u128>, sel: Seq<u128>, selected: bool) -> Seq<int>
    decreases ids.len(),
{
    if ids.len() == 0 {
        Seq::empty()
    } else {
        let before = positions(ids.drop_last(), sel, selected);
        if sel.contains(ids.last()) == selected {
            before.push(ids.len() - 1)
        } else {
            before
        }
    }
}

/// The elements at the given positions, in that order.
pub open spec fn at_positions<E>(elements: Seq<E>, ps: Seq<int>) -> Seq<E> {
    ps.map_values(|p: int| elements[p])
}

/// The positions lie within the page and follow each other in page order.
pub proof fn lemma_positions_in_order(ids: Seq<u128>, sel: Seq<u128>, selected: bool)
    ensures
        forall|k: int|
            0 <= k < positions(ids, sel, selected).len() ==> 0 <= #[trigger] positions(
                ids,
                sel,
                selected,
            )[k] < ids.len(),
        forall|j: int, k: int|
            0 <= j < k < positions(ids, sel, selected).len() ==> positions(ids, sel, selected)[j]
                < positions(ids, sel, selected)[k],
    decreases ids.len(),
{
    if ids.len() > 0 {
        let t = ids.drop_last();
        lemma_positions_in_order(t, sel, selected);
        let before = positions(t, sel, selected);
        if sel.contains(ids.last()) == selected {
            let p = before.push(ids.len() - 1);
            assert(positions(ids, sel, selected) == p);
            assert forall|k: int| 0 <= k < p.len() implies 0 <= #[trigger] p[k] < ids.len() by {
                if k < before.len() {
                    assert(p[k] == before[k]);
                }
            }
            assert forall|j: int, k: int| 0 <= j < k < p.len() implies p[j] < p[k] by {
                assert(p[j] == before[j]);
                if k < before.len() {
                    assert(p[k] == before[k]);
                }
            }
        }
    }
}

/// Every element is either selected or not: the two position lists together have as
/// many entries as the page.
pub proof fn lemma_positions_partition(ids: Seq<u128>, sel: Seq<u128>)
    ensures
        positions(ids, sel, true).len() + positions(ids, sel, false).len() == ids.len(),
    decreases ids.len(),
{
    if ids.len() > 0 {
        lemma_positions_partition(ids.drop_last(), sel);
    }
}

/// The positions within the first `i + 1` ids extend those within the first `i`.
proof fn lemma_positions_step(ids: Seq<u128>, sel: Seq<u128>, selected: bool, i: int)
    requires
        0 <= i < ids.len(),
    ensures
        positions(ids.take(i + 1), sel, selected) == if sel.contains(ids[i]) == selected {
            positions(ids.take(i), sel, selected).push(i)
        } else {
            positions(ids.take(i), sel, selected)
        },
{
    assert(ids.take(i + 1).drop_last() =~= ids.take(i));
}

/// Clones of the elements whose id is selected, in page order (what Ctrl+C copies).
pub fn clone_selected<E: Clone>(elements: &Vec<E>, ids: &Vec<u128>, selection: &SelectionState) -> (res:
    Vec<E>)
    requires
        elements@.len() == ids@.len(),
    ensures
        res@.len() == positions(ids@, selection@, true).len(),
        forall|k: int|
            0 <= k < res@.len() ==> cloned::<E>(
                elements@[positions(ids@, selection@, true)[k]],
                #[trigger] res@[k],
            ),
{
    let mut res: Vec<E> = Vec::new();
    let n = ids.len();
    for i in 0..n
        invariant
            n == ids@.len(),
            elements@.len() == ids@.len(),
            res@.len() == positions(ids@.take(i as int), selection@, true).len(),
            forall|k: int|
                0 <= k < res@.len() ==> cloned::<E>(
                    elements@[positions(ids@.take(i as int), selection@, true)[k]],
                    #[trigger] res@[k],
                ),
    {
        proof {
            lemma_positions_step(ids@, selection@, true, i as int);
        }
        if selection.is_selected(ids[i]) {
            let copy = elements[i].clone();
            res.push(copy);
        }
    }
    proof {
        assert(ids@.take(n as int) =~= ids@);
    }
    res
}

/// Ctrl+D: clones of the elements whose id is selected, in page order, each paired with
/// a newly drawn random id; the caller moves them by the duplicate offset and adds them
/// to the page.
pub fn duplicate_selected<E: Clone>(
    elements: &Vec<E>,
    ids: &Vec<u128>,
    selection: &SelectionState,
) -> (res: Vec<(u128, E)>)
    requires
        elements@.len() == ids@.len(),
    ensures
        res@.len() == positions(ids@, selection@, true).len(),
        forall|k: int|
            0 <= k < res@.len() ==> cloned::<E>(
                elements@[positions(ids@, selection@, true)[k]],
                #[trigger] res@[k].1,
            ),
{
    let mut res: Vec<(u128, E)> = Vec::new();
    let n = ids.len();
    for i in 0..n
        invariant
            n == ids@.len(),
            elements@.len() == ids@.len(),
            res@.len() == positions(ids@.take(i as int), selection@, true).len(),
            forall|k: int|
                0 <= k < res@.len() ==> cloned::<E>(
                    elements@[positions(ids@.take(i as int), selection@, true)[k]],
                    #[trigger] res@[k].1,
                ),
    {
        proof {
            lemma_positions_step(ids@, selection@, true, i as int);
        }
        if selection.is_selected(ids[i]) {
            let id = random_id();
            let copy = elements[i].clone();
            res.push((id, copy));
        }
    }
    proof {
        assert(ids@.take(n as int) =~= ids@);
    }
    res
}

/// Ctrl+C: when something is selected, clones of the selected elements go to the
/// clipboard in page order (which restarts the paste offsets); otherwise nothing
/// happens. Returns whether a copy was made.
pub fn copy_selection<E: Clone>(
    elements: &Vec<E>,
    ids: &Vec<u128>,
    selection: &SelectionState,
    store: &mut ClipboardStore<E>,
) -> (res: bool)
    requires
        elements@.len() == ids@.len(),
    ensures
        res == (selection@.len() > 0),
        res ==> {
            &&& final(store).paste_count == 0
            &&& final(store).data matches Some(d) && d.paste_count == 0 && d.elements@.len()
                == positions(ids@, selection@, true).len() && forall|k: int|
                0 <= k < d.elements@.len() ==> cloned::<E>(
                    elements@[positions(ids@, selection@, true)[k]],
                    #[trigger] d.elements@[k],
                )
        },
        !res ==> *final(store) == *old(store),
{
    if selection.count() == 0 {
        return false;
    }
    let copies = clone_selected(elements, ids, selection);
    copy_to_clipboard(store, copies);
    true
}

/// Splits the page into the selected elements and the others, each in page order.
fn split_selected<E>(elements: Vec<E>, ids: &Vec<u128>, selection: &SelectionState) -> (res: (
    Vec<E>,
    Vec<E>,
))
    requires
        elements@.len() == ids@.len(),
    ensures
        res.0@ == at_positions(elements@, positions(ids@, selection@, true)),
        res.1@ == at_positions(elements@, positions(ids@, selection@, false)),
{
    let ghost all = elements@;
    let mut rest = elements;
    let mut cut: Vec<E> = Vec::new();
    let mut kept: Vec<E> = Vec::new();
    let n = ids.len();
    for i in 0..n
        invariant
            n == ids@.len(),
            all.len() == n,
            rest@ == all.skip(i as int),
            cut@ == at_positions(all, positions(ids@.take(i as int), selection@, true)),
            kept@ == at_positions(all, positions(ids@.take(i as int), selection@, false)),
    {
        proof {
            lemma_positions_step(ids@, selection@, true, i as int);
            lemma_positions_step(ids@, selection@, false, i as int);
        }
        let e = rest.remove(0);
        assert(e == all[i as int]);
        assert(rest@ =~= all.skip(i + 1));
        if selection.is_selected(ids[i]) {
            cut.push(e);
        } else {
            kept.push(e);
        }
        assert(cut@ =~= at_positions(all, positions(ids@.take(i + 1), selection@, true)));
        assert(kept@ =~= at_positions(all, positions(ids@.take(i + 1), selection@, false)));
    }
    proof {
        assert(ids@.take(n as int) =~= ids@);
    }
    (cut, kept)
}

/// Ctrl+X: when something is selected, the selected elements move from the page to the
/// clipboard (page order kept on both sides, paste offsets restarted) and the selection
/// is cleared; otherwise nothing happens. Returns whether a cut was made.
pub fn cut_selection<E>(
    elements: &mut Vec<E>,
    ids: &Vec<u128>,
    selection: &mut SelectionState,
    store: &mut ClipboardStore<E>,
) -> (res: bool)
    requires
        old(elements)@.len() == ids@.len(),
    ensures
        res == (old(selection)@.len() > 0),
        res ==> {
            &&& final(elements)@ == at_positions(
                old(elements)@,
                positions(ids@, old(selection)@, false),
            )
            &&& final(store).paste_count == 0
            &&& final(store).data matches Some(d) && d.paste_count == 0 && d.elements@
                == at_positions(old(elements)@, positions(ids@, old(selection)@, true))
            &&& final(selection)@.len() == 0
        },
        !res ==> *final(elements) == *old(elements) && *final(store) == *old(store)
            && final(selection)@ == old(selection)@,
        final(selection).spec_mode() == old(selection).spec_mode(),
{
    if selection.count() == 0 {
        return false;
    }
    let mut page: Vec<E> = Vec::new();
    std::mem::swap(&mut page, elements);
    let (cut, kept) = split_selected(page, ids, selection);
    *elements = kept;
    copy_to_clipboard(store, cut);
    selection.clear();
    true
}

/// A cut separates the page by the selection: every element moved to the clipboard is
/// selected and every element left on the page is not (together they are as many as the
/// page had: `lemma_positions_partition`).
pub proof fn lemma_cut_separates_selected(ids: Seq<u128>, sel: Seq<u128>)
    ensures
        forall|k: int|
            0 <= k < positions(ids, sel, true).len() ==> sel.contains(
                ids[#[trigger] positions(ids, sel, true)[k]],
            ),
        forall|k: int|
            0 <= k < positions(ids, sel, false).len() ==> !sel.contains(
                ids[#[trigger] positions(ids, sel, false)[k]],
            ),
    decreases ids.len(),
{
    if ids.len() > 0 {
        lemma_cut_separates_selected(ids.drop_last(), sel);
        lemma_positions_in_order(ids.drop_last(), sel, true);
        lemma_positions_in_order(ids.drop_last(), sel, false);
        let t = ids.drop_last();
        assert forall|k: int|
            0 <= k < positions(t, sel, true).len() implies ids[positions(t, sel, true)[k]]
            == t[positions(t, sel, true)[k]] by {}
        assert forall|k: int|
            0 <= k < positions(t, sel, false).len() implies ids[positions(t, sel, false)[k]]
            == t[positions(t, sel, false)[k]] by {}
    }
}

} // verus!
