//! Destroying element trees and windows.
use vstd::prelude::*;

use crate::runtime::{handles_below, children_of, elements_view, lemma_elements_dom, window_of, windows_view, AppModel, AppState, ElementView};
use crate::table::{drop_key, remove_key_usize};

verus! {

broadcast use vstd::std_specs::hash::group_hash_axioms;

/// The listener table without the listeners registered on element `h`.
pub open spec fn listeners_without(s: Seq<(u64, (usize, i32))>, h: usize) -> Seq<(u64, (usize, i32))>
    decreases s.len(),
{
    if s.len() == 0 {
        s
    } else {
        let r = listeners_without(s.drop_last(), h);
        if s.last().1.0 == h {
            r
        } else {
            r.push(s.last())
        }
    }
}

/// Destroying the tree under `h` with `fuel` levels of descent: first the
/// trees of its children, in order, then the listeners of `h` and `h` itself.
/// The second component lists the handles whose element was removed, in the
/// order of removal.
pub open spec fn destroyed(m: AppModel, h: usize, fuel: nat) -> (AppModel, Seq<usize>)
    decreases fuel, 1int, 0int,
{
    let (m1, r1) = if fuel == 0 {
        (m, Seq::<usize>::empty())
    } else {
        destroyed_all(m, children_of(m, h), (fuel - 1) as nat)
    };
    (
        AppModel { callbacks: listeners_without(m1.callbacks, h), elements: m1.elements.remove(h), ..m1 },
        if m1.elements.contains_key(h) {
            r1.push(h)
        } else {
            r1
        },
    )
}

/// Destroying the trees under each of `cs`, in order.
pub open spec fn destroyed_all(m: AppModel, cs: Seq<usize>, fuel: nat) -> (AppModel, Seq<usize>)
    decreases fuel, 2int, cs.len(),
{
    if cs.len() == 0 {
        (m, Seq::empty())
    } else {
        let (m1, r1) = destroyed_all(m, cs.drop_last(), fuel);
        let (m2, r2) = destroyed(m1, cs.last(), fuel);
        (m2, r1 + r2)
    }
}

/// Destroying a tree only removes elements and listeners, so handles stay
/// below the counter.
pub proof fn lemma_destroy_keeps_handles(m: AppModel, h: usize, fuel: nat)
    requires
        handles_below(m),
    ensures
        handles_below(destroyed(m, h, fuel).0),
    decreases fuel, 1int, 0int,
{
    if fuel > 0 {
        lemma_destroy_all_keeps_handles(m, children_of(m, h), (fuel - 1) as nat);
    }
}

/// See `lemma_destroy_keeps_handles`.
pub proof fn lemma_destroy_all_keeps_handles(m: AppModel, cs: Seq<usize>, fuel: nat)
    requires
        handles_below(m),
    ensures
        handles_below(destroyed_all(m, cs, fuel).0),
    decreases fuel, 2int, cs.len(),
{
    if cs.len() > 0 {
        lemma_destroy_all_keeps_handles(m, cs.drop_last(), fuel);
        lemma_destroy_keeps_handles(destroyed_all(m, cs.drop_last(), fuel).0, cs.last(), fuel);
    }
}

/// Removes the listeners registered on element `h`.
fn drop_listeners_of(state: &mut AppState, h: usize)
    ensures
        final(state)@ == (AppModel { callbacks: listeners_without(old(state)@.callbacks, h), ..old(state)@ }),
{
    let mut taken: Vec<(u64, (usize, i32))> = Vec::new();
    std::mem::swap(&mut taken, &mut state.callbacks);
    let ghost orig = taken@;
    let mut kept: Vec<(u64, (usize, i32))> = Vec::new();
    for e in it: taken.into_iter()
        invariant
            it.seq() == orig,
            kept@ == listeners_without(orig.take(it.index() as int), h),
    {
        proof {
            let n = it.index() as int;
            assert(orig.take(n + 1).drop_last() == orig.take(n));
            assert(orig.take(n + 1).last() == e);
        }
        if e.1.0 != h {
            kept.push(e);
        }
    }
    assert(orig.take(orig.len() as int) == orig);
    state.callbacks = kept;
}

/// A copy of the children of `h`, empty when there is no such element.
fn children_copy(state: &AppState, h: usize) -> (r: Vec<usize>)
    ensures
        r@ == children_of(state@, h),
{
    let mut r: Vec<usize> = Vec::new();
    match state.elements.get(&h) {
        Some(e) => {
            let mut i: usize = 0;
            while i < e.children.len()
                invariant
                    i <= e.children.len(),
                    r@ == e.children@.take(i as int),
                decreases e.children.len() - i,
            {
                r.push(e.children[i]);
                i = i + 1;
                assert(r@ =~= e.children@.take(i as int));
            }
            assert(e.children@.take(e.children.len() as int) == e.children@);
        },
        None => {},
    }
    r
}

fn destroy_within(state: &mut AppState, h: usize, fuel: usize, removed: &mut Vec<usize>)
    ensures
        final(state)@ == destroyed(old(state)@, h, fuel as nat).0,
        final(removed)@ == old(removed)@ + destroyed(old(state)@, h, fuel as nat).1,
    decreases fuel,
{
    let ghost m0 = state@;
    let ghost r0 = removed@;
    if fuel > 0 {
        let children = children_copy(state, h);
        let mut i: usize = 0;
        while i < children.len()
            invariant
                0 < fuel,
                i <= children.len(),
                children@ == children_of(m0, h),
                state@ == destroyed_all(m0, children@.take(i as int), (fuel - 1) as nat).0,
                removed@ == r0 + destroyed_all(m0, children@.take(i as int), (fuel - 1) as nat).1,
            decreases children.len() - i,
        {
            assert(children@.take(i + 1).drop_last() == children@.take(i as int));
            let ghost rb = removed@;
            destroy_within(state, children[i], fuel - 1, removed);
            proof {
                let (m1, r1) = destroyed_all(m0, children@.take(i as int), (fuel - 1) as nat);
                let (m2, r2) = destroyed(m1, children@[i as int], (fuel - 1) as nat);
                assert(removed@ =~= r0 + (r1 + r2));
            }
            i = i + 1;
        }
        assert(children@.take(children.len() as int) == children@);
    }
    let ghost m1 = state@;
    let ghost rm1 = removed@;
    drop_listeners_of(state, h);
    let ghost before = state.elements@;
    let gone = state.elements.remove(&h);
    assert(elements_view(state.elements@) =~= elements_view(before).remove(h));
    if gone.is_some() {
        removed.push(h);
        assert(removed@ =~= r0 + (rm1.subrange(r0.len() as int, rm1.len() as int)).push(h)) by {
            assert(rm1 =~= r0 + rm1.subrange(r0.len() as int, rm1.len() as int));
        }
    }
    proof {
        let (mm, rr) = if fuel == 0 {
            (m0, Seq::<usize>::empty())
        } else {
            destroyed_all(m0, children_of(m0, h), (fuel - 1) as nat)
        };
        assert(mm == m1);
        assert(rm1 =~= r0 + rr);
        assert(state@ =~= destroyed(m0, h, fuel as nat).0);
    }
}

/// Destroys element `h` and everything below it: the children's trees
/// first, in order, then the listeners of `h` and `h` itself.  Descent stops
/// after as many levels as there are elements, which every tree without a
/// cycle fits in.  Returns the handles whose element was removed, in the
/// order of removal, so that the layout nodes kept beside them can go too.
pub fn destroy_element_tree(state: &mut AppState, h: usize) -> (removed: Vec<usize>)
    ensures
        handles_below(old(state)@) ==> handles_below(final(state)@),
        (final(state)@, removed@) == destroyed(old(state)@, h, old(state)@.elements.dom().len()),
{
    proof {
        lemma_elements_dom(state.elements@);
        if handles_below(state@) {
            lemma_destroy_keeps_handles(state@, h, state@.elements.dom().len());
        }
    }
    let mut removed: Vec<usize> = Vec::new();
    let fuel = state.elements.len();
    destroy_within(state, h, fuel, &mut removed);
    assert(removed@ =~= Seq::<usize>::empty() + removed@);
    removed
}

/// The model after closing window `w`: the tree under its root destroyed
/// (as `destroy_element_tree` does), then the window itself removed.
pub open spec fn closed_window(m: AppModel, w: usize) -> (AppModel, Seq<usize>) {
    let (m1, r) = match window_of(m, w) {
        Some(win) => match win.root_element {
            Some(root) => destroyed(m, root, m.elements.dom().len()),
            None => (m, Seq::empty()),
        },
        None => (m, Seq::empty()),
    };
    (AppModel { windows: drop_key(m1.windows, w), ..m1 }, r)
}

/// Closes window `w`: destroys the tree under its root and removes the
/// window.  Returns the handles whose element was removed.
pub fn cleanup_window(state: &mut AppState, w: usize) -> (removed: Vec<usize>)
    ensures
        handles_below(old(state)@) ==> handles_below(final(state)@),
        (final(state)@, removed@) == closed_window(old(state)@, w),
{
    proof {
        crate::runtime::lemma_windows_keys(state.windows@);
    }
    let root = match crate::table::find_key_usize(&state.windows, w) {
        Some(i) => state.windows[i].1.root_element,
        None => None,
    };
    let removed = match root {
        Some(r) => destroy_element_tree(state, r),
        None => Vec::new(),
    };
    let ghost before = state.windows@;
    let ghost mid = state@;
    remove_key_usize(&mut state.windows, w);
    proof {
        lemma_windows_drop(before, w);
        let wb = windows_view(before);
        crate::table::lemma_drop_key_props(wb, w);
        if handles_below(old(state)@) {
            assert(handles_below(mid));
            let d = drop_key(wb, w);
            assert forall|i: int| 0 <= i < d.len() implies d[i].0 < mid.next_handle by {
                assert(wb.contains(d[i]));
                let j = choose|j: int| 0 <= j < wb.len() && wb[j] == d[i];
                assert(mid.windows == wb);
                assert(mid.windows[j].0 < mid.next_handle);
            }
            assert(state@.windows == d);
            assert(state@.elements == mid.elements);
            assert(handles_below(state@));
        }
    }
    removed
}

/// Dropping a key commutes with taking the views of the windows.
pub proof fn lemma_windows_drop(s: Seq<(usize, crate::runtime::WindowState)>, k: usize)
    ensures
        windows_view(drop_key(s, k)) == drop_key(windows_view(s), k),
    decreases s.len(),
{
    if s.len() > 0 {
        lemma_windows_drop(s.drop_last(), k);
        assert(windows_view(s).drop_last() =~= windows_view(s.drop_last()));
        assert(windows_view(drop_key(s.drop_last(), k).push(s.last())) =~= windows_view(drop_key(s.drop_last(), k)).push(
            (s.last().0, s.last().1@),
        ));
    } else {
        assert(windows_view(s) =~= Seq::empty());
    }
}

/// Closes window `w` (see `cleanup_window`).
pub fn native_destroy_window(state: &mut AppState, w: usize) -> (removed: Vec<usize>)
    ensures
        handles_below(old(state)@) ==> handles_below(final(state)@),
        (final(state)@, removed@) == closed_window(old(state)@, w),
{
    cleanup_window(state, w)
}

} // verus!
