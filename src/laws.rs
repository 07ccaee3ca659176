use vstd::prelude::*;

use crate::navigator::{
    key_step, fetch_step, in_bounds, well_formed, Action, Key, LevelView, NavView, RequestView,
};

verus! {

/// The state after a run of key events, while none of them starts a fetch.
pub open spec fn after_keys(v: NavView, keys: Seq<Key>) -> NavView
    decreases keys.len(),
{
    if keys.len() == 0 {
        v
    } else {
        after_keys(key_step(v, keys[0]).0, keys.drop_first())
    }
}

/// Arrow keys only move the selection, and whatever their number and order
/// the selected row stays on the list (the top row of an empty list).
pub proof fn lemma_arrows_stay_in_bounds(v: NavView, keys: Seq<Key>)
    requires
        well_formed(v),
        forall|i: int| 0 <= i < keys.len() ==> #[trigger] keys[i] == Key::Up || keys[i] == Key::Down,
    ensures
        well_formed(after_keys(v, keys)),
        in_bounds(after_keys(v, keys).selected, v.list.len()),
        after_keys(v, keys).level == v.level,
        after_keys(v, keys).list == v.list,
        after_keys(v, keys).pending == v.pending,
    decreases keys.len(),
{
    if keys.len() > 0 {
        let w = key_step(v, keys[0]).0;
        assert(keys[0] == Key::Up || keys[0] == Key::Down);
        assert(well_formed(w));
        let rest = keys.drop_first();
        assert forall|i: int| 0 <= i < rest.len() implies #[trigger] rest[i] == Key::Up || rest[i]
            == Key::Down by {
            assert(rest[i] == keys[i + 1]);
        }
        lemma_arrows_stay_in_bounds(w, rest);
    }
}

/// An arrow key that would leave the list leaves the selection where it is:
/// Down on the last row, Up on the first.
pub proof fn lemma_arrows_stop_at_edges(v: NavView)
    requires
        well_formed(v),
        v.pending is None,
    ensures
        v.selected + 1 >= v.list.len() ==> key_step(v, Key::Down).0 == v,
        v.selected == 0 ==> key_step(v, Key::Up).0 == v,
{
}

/// Confirm on an empty list resolves no item: nothing changes and nothing is
/// fetched.
pub proof fn lemma_confirm_on_empty_list_does_nothing(v: NavView)
    requires
        well_formed(v),
        v.list.len() == 0,
    ensures
        key_step(v, Key::Confirm) == (v, Action::Nothing),
{
}

/// Opening a container from the top level and cancelling at once gives back
/// the top level with its list and its selected row as they were.
pub proof fn lemma_enter_then_cancel(v: NavView, subs: Seq<Seq<char>>)
    requires
        well_formed(v),
        v.level is Root,
        v.pending is None,
        v.selected < v.list.len(),
    ensures
        ({
            let (b, a1) = key_step(v, Key::Confirm);
            let c = fetch_step(b, Some(subs));
            let (d, a2) = key_step(c, Key::Cancel);
            &&& a1 == Action::Fetch
            &&& c.level == (LevelView::InContainer { container: v.list[v.selected as int] })
            &&& a2 == Action::Redraw
            &&& d.level == v.level
            &&& d.list == v.list
            &&& d.selected == v.selected
            &&& d.pending == v.pending
        }),
{
}

/// A key that starts a fetch, followed by the failure of that fetch, leaves
/// the state exactly as it was before the key.
pub proof fn lemma_failed_fetch_changes_nothing(v: NavView, key: Key)
    requires
        well_formed(v),
        key_step(v, key).1 == Action::Fetch,
    ensures
        fetch_step(key_step(v, key).0, None) == v,
{
}

/// Cancel inside a collection lists the container's collections anew, and the
/// container is then shown with what that listing returned.
pub proof fn lemma_back_from_collection_relists(v: NavView, subs: Seq<Seq<char>>)
    requires
        well_formed(v),
        v.level is InCollection,
        v.pending is None,
    ensures
        ({
            let (b, a) = key_step(v, Key::Cancel);
            let c = fetch_step(b, Some(subs));
            &&& a == Action::Fetch
            &&& b.pending == Some(RequestView::SubContainers { container: v.level->InCollection_container })
            &&& b.level == v.level
            &&& c.level == (LevelView::InContainer { container: v.level->InCollection_container })
            &&& c.list == subs
            &&& in_bounds(c.selected, subs.len())
        }),
{
}

} // verus!
