//! Popups and the chains they form.
//!
//! Every toplevel that has popups open owns one chain: the popup opened on
//! the toplevel itself, then the popup opened on that popup, and so on. A
//! popup is closed together with everything above it in its chain, so closing
//! always cuts a chain short and never leaves a gap.
use crate::geometry::{Point, Rectangle};
use crate::seat::Action;
use crate::space::{index_of, mapped, Space, SpaceEntry};
use vstd::prelude::*;

verus! {

/// A popup surface.
#[derive(Clone, Copy, PartialEq, Eq, Debug)]
pub struct Popup {
    pub surface: u64,
    /// The surface that the popup was opened on: a toplevel or another popup.
    pub parent: u64,
    /// The client that owns the surface.
    pub client: u64,
    /// Where the popup is placed, relative to the geometry of its parent.
    pub geometry: Rectangle,
    /// Whether the backing surface still exists.
    pub alive: bool,
    /// Whether the popup holds an explicit grab.
    pub grabbed: bool,
    /// Whether the client has committed the surface.
    pub committed: bool,
    /// Whether the first configure was sent.
    pub configure_sent: bool,
}

/// Why a popup could not be tracked.
#[derive(Clone, Copy, PartialEq, Eq, Debug)]
pub enum PopupError {
    /// The toplevel under the popup cannot be found: the parent is neither a
    /// live window of the scene nor a live popup above one.
    DeadResource,
    /// The surface is tracked as a popup already.
    AlreadyTracked,
}

/// Why a popup was refused a grab.
#[derive(Clone, Copy, PartialEq, Eq, Debug)]
pub enum PopupGrabError {
    /// The popup is not tracked or its surface is gone.
    DeadResource,
    /// The popup was committed before it asked for the grab.
    InvalidGrab,
    /// The popup below it in the chain holds no grab.
    NotTheTopmostPopup,
}

/// The chain of popups above one toplevel, bottom to top.
#[derive(Clone, Debug)]
pub struct PopupChain {
    root: u64,
    popups: Vec<Popup>,
}

/// A chain as a value.
pub ghost struct ChainView {
    /// The toplevel under the chain.
    pub root: u64,
    /// The popups, each opened on the one before it and the first on `root`.
    pub popups: Seq<Popup>,
}

impl View for PopupChain {
    type V = ChainView;

    closed spec fn view(&self) -> ChainView {
        ChainView { root: self.root, popups: self.popups@ }
    }
}

/// The popups that are open, by chain.
#[derive(Debug)]
pub struct PopupManager {
    chains: Vec<PopupChain>,
}

/// Index of the first popup of `popups` with the given surface, or the
/// length of `popups`.
pub open spec fn popup_index(popups: Seq<Popup>, surface: u64) -> int
    decreases popups.len(),
{
    if popups.len() == 0 {
        0
    } else if popups[0].surface == surface {
        0
    } else {
        1 + popup_index(popups.drop_first(), surface)
    }
}

/// Index of the first chain of `v` that holds a popup with the given
/// surface, or the length of `v`.
pub open spec fn holder(v: Seq<ChainView>, surface: u64) -> int
    decreases v.len(),
{
    if v.len() == 0 {
        0
    } else if popup_index(v[0].popups, surface) < v[0].popups.len() {
        0
    } else {
        1 + holder(v.drop_first(), surface)
    }
}

/// Whether a popup with the given surface is in a chain of `v`.
pub open spec fn has_popup(v: Seq<ChainView>, surface: u64) -> bool {
    holder(v, surface) < v.len()
}

/// Where the popup with the given surface stands in its chain (meaningful
/// where it is tracked).
pub open spec fn place(v: Seq<ChainView>, surface: u64) -> int {
    popup_index(v[holder(v, surface)].popups, surface)
}

/// The popup with the given surface (meaningful where it is tracked).
pub open spec fn popup_of(v: Seq<ChainView>, surface: u64) -> Popup {
    v[holder(v, surface)].popups[place(v, surface)]
}

/// Whether `v` has a chain above the toplevel `root`.
pub open spec fn has_chain(v: Seq<ChainView>, root: u64) -> bool {
    exists|c: int| 0 <= c < v.len() && (#[trigger] v[c]).root == root
}

/// Index of the chain above the toplevel `root` (meaningful where there is
/// one).
pub open spec fn chain_index(v: Seq<ChainView>, root: u64) -> int {
    choose|c: int| 0 <= c < v.len() && (#[trigger] v[c]).root == root
}

/// Whether the chain is not empty and each of its popups was opened on the
/// one before it, the first on the root.
pub open spec fn linked(c: ChainView) -> bool {
    &&& c.popups.len() > 0
    &&& c.popups[0].parent == c.root
    &&& forall|i: int|
        0 < i < c.popups.len() ==> (#[trigger] c.popups[i]).parent == c.popups[i - 1].surface
}

/// Whether the popups that hold a grab are the lowest of the chain.
pub open spec fn grabs_from_root(c: ChainView) -> bool {
    forall|i: int, j: int|
        0 <= i < j < c.popups.len() && (#[trigger] c.popups[j]).grabbed ==> (
        #[trigger] c.popups[i]).grabbed
}

/// Whether each chain is linked with its grabs starting at the root, and no
/// two chains stand above the same toplevel.
pub open spec fn chains_shape(v: Seq<ChainView>) -> bool {
    &&& forall|c: int| 0 <= c < v.len() ==> linked(#[trigger] v[c]) && grabs_from_root(v[c])
    &&& forall|c: int, d: int|
        0 <= c < d < v.len() ==> (#[trigger] v[c]).root != (#[trigger] v[d]).root
}

/// No two popups of `popups` share a surface.
pub open spec fn popups_distinct(popups: Seq<Popup>) -> bool {
    forall|i: int, j: int|
        0 <= i < j < popups.len() ==> (#[trigger] popups[i]).surface != (
        #[trigger] popups[j]).surface
}

/// Every surface stands in one chain only, and once in it.
pub open spec fn surfaces_distinct(v: Seq<ChainView>) -> bool {
    forall|c: int, i: int, d: int, j: int|
        0 <= c < v.len() && 0 <= i < v[c].popups.len() && 0 <= d < v.len() && 0 <= j
            < v[d].popups.len() && (#[trigger] v[c].popups[i]).surface == (
        #[trigger] v[d].popups[j]).surface ==> c == d && i == j
}

/// What holds of the chains of every manager: each is linked, grabs start at
/// the root, no two chains stand above the same toplevel, and every surface
/// stands in one chain only.
pub open spec fn chains_wf(v: Seq<ChainView>) -> bool {
    chains_shape(v) && surfaces_distinct(v)
}

/// The surface of the topmost live popup of `popups` that holds a grab.
pub open spec fn grab_top(popups: Seq<Popup>) -> Option<u64>
    decreases popups.len(),
{
    if popups.len() == 0 {
        None
    } else if popups.last().grabbed && popups.last().alive {
        Some(popups.last().surface)
    } else {
        grab_top(popups.drop_last())
    }
}

/// Where the origin of the last popup of `popups` stands relative to the
/// geometry of the root: the sum of the placements, saturating.
pub open spec fn offset_of(popups: Seq<Popup>) -> Point
    decreases popups.len(),
{
    if popups.len() == 0 {
        Point { x: 0, y: 0 }
    } else {
        offset_of(popups.drop_last()).plus(popups.last().geometry.loc)
    }
}

/// Where the surface that `popup` was opened on stands relative to the
/// geometry of the root of its chain: at the corner of the geometry if that
/// surface is the root itself.
pub open spec fn parent_offset(v: Seq<ChainView>, popup: Popup) -> Point {
    if has_popup(v, popup.parent) {
        offset_of(v[holder(v, popup.parent)].popups.take(place(v, popup.parent) + 1))
    } else {
        Point { x: 0, y: 0 }
    }
}

/// Whether `root` is a live window of the scene.
pub open spec fn root_alive(s: Seq<SpaceEntry>, root: u64) -> bool {
    mapped(s, root) && s[index_of(s, root)].element.alive
}

/// The toplevel under a new popup: its parent, if that is a live window of
/// the scene; else the root of the chain that holds its parent, if the
/// parent is a live popup and that root a live window.
pub open spec fn resolve_root(v: Seq<ChainView>, s: Seq<SpaceEntry>, popup: Popup) -> Option<u64> {
    if root_alive(s, popup.parent) {
        Some(popup.parent)
    } else if has_popup(v, popup.parent) && popup_of(v, popup.parent).alive && root_alive(
        s,
        v[holder(v, popup.parent)].root,
    ) {
        Some(v[holder(v, popup.parent)].root)
    } else {
        None
    }
}

/// The requests that dismiss `popups`, the topmost first.
pub open spec fn dismissals(popups: Seq<Popup>) -> Seq<Action> {
    Seq::new(
        popups.len(),
        |i: int| Action::DismissPopup { surface: popups[popups.len() - 1 - i].surface },
    )
}

/// The popup as it enters a chain: without a grab.
pub open spec fn entering(popup: Popup) -> Popup {
    Popup { grabbed: false, ..popup }
}

/// Whether tracking `popup` succeeds, and if not, why.
pub open spec fn track_outcome(v: Seq<ChainView>, s: Seq<SpaceEntry>, popup: Popup) -> Result<
    (),
    PopupError,
> {
    if has_popup(v, popup.surface) {
        Err(PopupError::AlreadyTracked)
    } else if resolve_root(v, s, popup).is_none() {
        Err(PopupError::DeadResource)
    } else {
        Ok(())
    }
}

/// The popups that tracking `popup` closes: everything above its parent.
pub open spec fn track_closes(v: Seq<ChainView>, s: Seq<SpaceEntry>, popup: Popup) -> Seq<Popup> {
    if track_outcome(v, s, popup).is_err() {
        Seq::empty()
    } else if root_alive(s, popup.parent) {
        if has_chain(v, popup.parent) {
            v[chain_index(v, popup.parent)].popups
        } else {
            Seq::empty()
        }
    } else {
        v[holder(v, popup.parent)].popups.skip(place(v, popup.parent) + 1)
    }
}

/// The chains after `popup` was tracked: it stands directly above its parent
/// in the chain of its root, and what stood there before is gone.
pub open spec fn track_result(v: Seq<ChainView>, s: Seq<SpaceEntry>, popup: Popup) -> Seq<
    ChainView,
> {
    if track_outcome(v, s, popup).is_err() {
        v
    } else if root_alive(s, popup.parent) {
        let fresh = ChainView { root: popup.parent, popups: seq![entering(popup)] };
        if has_chain(v, popup.parent) {
            v.update(chain_index(v, popup.parent), fresh)
        } else {
            v.push(fresh)
        }
    } else {
        let c = holder(v, popup.parent);
        v.update(
            c,
            ChainView {
                root: v[c].root,
                popups: v[c].popups.take(place(v, popup.parent) + 1).push(entering(popup)),
            },
        )
    }
}

/// Whether the popup `surface` is given a grab, and if not, why.
pub open spec fn grab_outcome(v: Seq<ChainView>, surface: u64) -> Result<(), PopupGrabError> {
    if !has_popup(v, surface) || !popup_of(v, surface).alive {
        Err(PopupGrabError::DeadResource)
    } else if popup_of(v, surface).committed {
        Err(PopupGrabError::InvalidGrab)
    } else if place(v, surface) > 0 && !v[holder(v, surface)].popups[place(v, surface) - 1].grabbed {
        Err(PopupGrabError::NotTheTopmostPopup)
    } else {
        Ok(())
    }
}

/// The chains in which the popup `surface` is replaced by `popup`.
pub open spec fn with_popup(v: Seq<ChainView>, surface: u64, popup: Popup) -> Seq<ChainView> {
    let c = holder(v, surface);
    v.update(
        c,
        ChainView { root: v[c].root, popups: v[c].popups.update(place(v, surface), popup) },
    )
}

/// Index of the first popup of `popups` whose surface is gone, or the length
/// of `popups`.
pub open spec fn first_dead(popups: Seq<Popup>) -> int
    decreases popups.len(),
{
    if popups.len() == 0 {
        0
    } else if !popups[0].alive {
        0
    } else {
        1 + first_dead(popups.drop_first())
    }
}

/// How many popups of the chain a cleanup keeps: none if the root is not a
/// live window of the scene, else those below the first whose surface is
/// gone.
pub open spec fn kept(c: ChainView, s: Seq<SpaceEntry>) -> int {
    if root_alive(s, c.root) {
        first_dead(c.popups)
    } else {
        0
    }
}

/// The chains after a cleanup: each is cut down to what it keeps, and chains
/// that keep nothing are gone.
pub open spec fn cleanup_result(v: Seq<ChainView>, s: Seq<SpaceEntry>) -> Seq<ChainView>
    decreases v.len(),
{
    if v.len() == 0 {
        v
    } else if kept(v[0], s) > 0 {
        seq![ChainView { root: v[0].root, popups: v[0].popups.take(kept(v[0], s)) }]
            + cleanup_result(v.drop_first(), s)
    } else {
        cleanup_result(v.drop_first(), s)
    }
}

/// The requests of a cleanup: chain by chain, what is cut off is dismissed.
pub open spec fn cleanup_actions(v: Seq<ChainView>, s: Seq<SpaceEntry>) -> Seq<Action>
    decreases v.len(),
{
    if v.len() == 0 {
        Seq::empty()
    } else {
        dismissals(v[0].popups.skip(kept(v[0], s))) + cleanup_actions(v.drop_first(), s)
    }
}

/// Whether every chain stands above a live window of the scene and holds
/// live popups only.
pub open spec fn all_rooted(v: Seq<ChainView>, s: Seq<SpaceEntry>) -> bool {
    forall|c: int|
        0 <= c < v.len() ==> root_alive(s, (#[trigger] v[c]).root) && forall|i: int|
            0 <= i < v[c].popups.len() ==> (#[trigger] v[c].popups[i]).alive
}

/// `popup_index` is the least index with the surface.
pub proof fn lemma_popup_index(popups: Seq<Popup>, surface: u64)
    ensures
        0 <= popup_index(popups, surface) <= popups.len(),
        popup_index(popups, surface) < popups.len() ==> popups[popup_index(
            popups,
            surface,
        )].surface == surface,
        forall|i: int|
            0 <= i < popup_index(popups, surface) ==> (#[trigger] popups[i]).surface != surface,
    decreases popups.len(),
{
    if popups.len() > 0 && popups[0].surface != surface {
        let rest = popups.drop_first();
        lemma_popup_index(rest, surface);
        assert forall|i: int| 0 <= i < popup_index(popups, surface) implies (
        #[trigger] popups[i]).surface != surface by {
            if i > 0 {
                assert(popups[i] == rest[i - 1]);
            }
        }
    }
}

/// `holder` is the least index of a chain with the surface.
pub proof fn lemma_holder(v: Seq<ChainView>, surface: u64)
    ensures
        0 <= holder(v, surface) <= v.len(),
        holder(v, surface) < v.len() ==> 0 <= place(v, surface) < v[holder(
            v,
            surface,
        )].popups.len() && popup_of(v, surface).surface == surface,
        forall|c: int|
            0 <= c < holder(v, surface) ==> popup_index((#[trigger] v[c]).popups, surface)
                == v[c].popups.len(),
    decreases v.len(),
{
    if v.len() > 0 {
        lemma_popup_index(v[0].popups, surface);
        if popup_index(v[0].popups, surface) >= v[0].popups.len() {
            let rest = v.drop_first();
            lemma_holder(rest, surface);
            assert(holder(v, surface) == 1 + holder(rest, surface));
            if holder(v, surface) < v.len() {
                assert(v[holder(v, surface)] == rest[holder(rest, surface)]);
            }
            assert forall|c: int| 0 <= c < holder(v, surface) implies popup_index(
                (#[trigger] v[c]).popups,
                surface,
            ) == v[c].popups.len() by {
                if c > 0 {
                    assert(v[c] == rest[c - 1]);
                }
            }
        }
    }
}

/// `first_dead` is the least index of a popup whose surface is gone.
pub proof fn lemma_first_dead(popups: Seq<Popup>)
    ensures
        0 <= first_dead(popups) <= popups.len(),
        first_dead(popups) < popups.len() ==> !popups[first_dead(popups)].alive,
        forall|i: int| 0 <= i < first_dead(popups) ==> (#[trigger] popups[i]).alive,
    decreases popups.len(),
{
    if popups.len() > 0 && popups[0].alive {
        let rest = popups.drop_first();
        lemma_first_dead(rest);
        assert forall|i: int| 0 <= i < first_dead(popups) implies (#[trigger] popups[i]).alive by {
            if i > 0 {
                assert(popups[i] == rest[i - 1]);
            }
        }
    }
}

/// In chains of distinct roots, the chain above a root determines its index.
pub proof fn lemma_chain_index(v: Seq<ChainView>, root: u64, c: int)
    requires
        chains_wf(v),
        0 <= c < v.len(),
        v[c].root == root,
    ensures
        has_chain(v, root),
        chain_index(v, root) == c,
{
    let d = chain_index(v, root);
    assert(0 <= d < v.len() && v[d].root == root);
    if d < c {
        assert(v[d].root != v[c].root);
    }
    if c < d {
        assert(v[c].root != v[d].root);
    }
}

/// A chain that is cut short, but not to nothing, is still well-formed.
pub proof fn lemma_take_wf(c: ChainView, k: int)
    requires
        linked(c),
        grabs_from_root(c),
        0 < k <= c.popups.len(),
    ensures
        linked(ChainView { root: c.root, popups: c.popups.take(k) }),
        grabs_from_root(ChainView { root: c.root, popups: c.popups.take(k) }),
{
    let t = c.popups.take(k);
    assert forall|i: int| 0 < i < t.len() implies (#[trigger] t[i]).parent == t[i - 1].surface by {
        assert(c.popups[i].parent == c.popups[i - 1].surface);
    }
    assert forall|i: int, j: int| 0 <= i < j < t.len() && (#[trigger] t[j]).grabbed implies (
    #[trigger] t[i]).grabbed by {
        assert(c.popups[j].grabbed ==> c.popups[i].grabbed);
    }
}

/// A chain with a new popup on top, opened on the popup that was the top, is
/// still well-formed.
pub proof fn lemma_push_wf(c: ChainView, popup: Popup)
    requires
        linked(c),
        grabs_from_root(c),
        popup.parent == c.popups.last().surface,
        !popup.grabbed,
    ensures
        linked(ChainView { root: c.root, popups: c.popups.push(popup) }),
        grabs_from_root(ChainView { root: c.root, popups: c.popups.push(popup) }),
{
    let t = c.popups.push(popup);
    assert forall|i: int| 0 < i < t.len() implies (#[trigger] t[i]).parent == t[i - 1].surface by {
        if i < c.popups.len() {
            assert(c.popups[i].parent == c.popups[i - 1].surface);
        }
    }
    assert forall|i: int, j: int| 0 <= i < j < t.len() && (#[trigger] t[j]).grabbed implies (
    #[trigger] t[i]).grabbed by {
        if j < c.popups.len() {
            assert(c.popups[j].grabbed ==> c.popups[i].grabbed);
        }
    }
}

/// A popup that stands in a chain is found: the lookup of its surface
/// answers, and in chains where every surface stands once, it answers with
/// that very place.
pub proof fn lemma_occurs(v: Seq<ChainView>, c: int, i: int)
    requires
        0 <= c < v.len(),
        0 <= i < v[c].popups.len(),
    ensures
        has_popup(v, v[c].popups[i].surface),
        holder(v, v[c].popups[i].surface) <= c,
        surfaces_distinct(v) ==> holder(v, v[c].popups[i].surface) == c && place(
            v,
            v[c].popups[i].surface,
        ) == i,
    decreases v.len(),
{
    let surface = v[c].popups[i].surface;
    lemma_popup_index(v[0].popups, surface);
    if c == 0 {
        if popup_index(v[0].popups, surface) >= v[0].popups.len() {
            assert(v[0].popups[i].surface != surface);
        }
    } else if popup_index(v[0].popups, surface) >= v[0].popups.len() {
        let rest = v.drop_first();
        assert(rest[c - 1] == v[c]);
        lemma_occurs(rest, c - 1, i);
    }
    if surfaces_distinct(v) {
        lemma_holder(v, surface);
        let h = holder(v, surface);
        let k = place(v, surface);
        assert(v[h].popups[k].surface == v[c].popups[i].surface);
    }
}

/// Leaving out the first chain keeps the chains well-formed.
pub proof fn lemma_drop_first_wf(v: Seq<ChainView>)
    requires
        chains_wf(v),
        v.len() > 0,
    ensures
        chains_wf(v.drop_first()),
{
    let rest = v.drop_first();
    assert forall|a: int| 0 <= a < rest.len() implies linked(#[trigger] rest[a])
        && grabs_from_root(rest[a]) by {
        assert(linked(v[a + 1]));
    }
    assert forall|a: int, b: int| 0 <= a < b < rest.len() implies (#[trigger] rest[a]).root != (
    #[trigger] rest[b]).root by {
        assert(v[a + 1].root != v[b + 1].root);
    }
    assert forall|c: int, i: int, d: int, j: int|
        0 <= c < rest.len() && 0 <= i < rest[c].popups.len() && 0 <= d < rest.len() && 0 <= j
            < rest[d].popups.len() && (#[trigger] rest[c].popups[i]).surface == (
        #[trigger] rest[d].popups[j]).surface implies c == d && i == j by {
        assert(v[c + 1].popups[i].surface == v[d + 1].popups[j].surface);
    }
}

/// Replacing one chain keeps every surface in one chain only, if each popup
/// of the new chain either stands where a popup with its surface stood in
/// the old one, or has a surface that was in no chain, and no two of them
/// share a surface.
pub proof fn lemma_update_distinct(v: Seq<ChainView>, c: int, chain: ChainView)
    requires
        surfaces_distinct(v),
        0 <= c < v.len(),
        popups_distinct(chain.popups),
        forall|i: int|
            0 <= i < chain.popups.len() ==> (i < v[c].popups.len() && (
            #[trigger] chain.popups[i]).surface == v[c].popups[i].surface) || !has_popup(
                v,
                chain.popups[i].surface,
            ),
    ensures
        surfaces_distinct(v.update(c, chain)),
{
    let r = v.update(c, chain);
    assert forall|a: int, i: int, d: int, j: int|
        0 <= a < r.len() && 0 <= i < r[a].popups.len() && 0 <= d < r.len() && 0 <= j
            < r[d].popups.len() && (#[trigger] r[a].popups[i]).surface == (
        #[trigger] r[d].popups[j]).surface implies a == d && i == j by {
        if a == c && d == c {
            if i < j {
                assert(chain.popups[i].surface != chain.popups[j].surface);
            }
            if j < i {
                assert(chain.popups[j].surface != chain.popups[i].surface);
            }
        } else if a == c {
            lemma_occurs(v, d, j);
            assert(chain.popups[i].surface == v[d].popups[j].surface);
            assert(i < v[c].popups.len() && v[c].popups[i].surface == v[d].popups[j].surface);
        } else if d == c {
            lemma_occurs(v, a, i);
            assert(chain.popups[j].surface == v[a].popups[i].surface);
            assert(j < v[c].popups.len() && v[c].popups[j].surface == v[a].popups[i].surface);
        } else {
            assert(v[a].popups[i].surface == v[d].popups[j].surface);
        }
    }
}

/// Replacing one chain by a well-formed chain above the same root keeps the
/// shape of the chains.
pub proof fn lemma_update_wf(v: Seq<ChainView>, c: int, chain: ChainView)
    requires
        chains_shape(v),
        0 <= c < v.len(),
        chain.root == v[c].root,
        linked(chain),
        grabs_from_root(chain),
    ensures
        chains_shape(v.update(c, chain)),
{
    let r = v.update(c, chain);
    assert forall|a: int| 0 <= a < r.len() implies linked(#[trigger] r[a]) && grabs_from_root(
        r[a],
    ) by {
        if a != c {
            assert(linked(v[a]));
        }
    }
    assert forall|a: int, b: int| 0 <= a < b < r.len() implies (#[trigger] r[a]).root != (
    #[trigger] r[b]).root by {
        assert(v[a].root != v[b].root);
    }
}

/// Taking a chain away keeps the chains well-formed.
pub proof fn lemma_remove_chain_wf(v: Seq<ChainView>, c: int)
    requires
        chains_wf(v),
        0 <= c < v.len(),
    ensures
        chains_wf(v.remove(c)),
        !has_chain(v.remove(c), v[c].root),
{
    let r = v.remove(c);
    assert forall|a: int| 0 <= a < r.len() implies linked(#[trigger] r[a]) && grabs_from_root(
        r[a],
    ) by {
        let a2 = if a < c { a } else { a + 1 };
        assert(linked(v[a2]));
    }
    assert forall|a: int, b: int| 0 <= a < b < r.len() implies (#[trigger] r[a]).root != (
    #[trigger] r[b]).root by {
        let a2 = if a < c { a } else { a + 1 };
        let b2 = if b < c { b } else { b + 1 };
        assert(v[a2].root != v[b2].root);
    }
    assert forall|a: int| 0 <= a < r.len() implies (#[trigger] r[a]).root != v[c].root by {
        let a2 = if a < c { a } else { a + 1 };
        if a2 < c {
            assert(v[a2].root != v[c].root);
        } else {
            assert(v[c].root != v[a2].root);
        }
    }
    assert forall|a: int, i: int, d: int, j: int|
        0 <= a < r.len() && 0 <= i < r[a].popups.len() && 0 <= d < r.len() && 0 <= j
            < r[d].popups.len() && (#[trigger] r[a].popups[i]).surface == (
        #[trigger] r[d].popups[j]).surface implies a == d && i == j by {
        let a2 = if a < c { a } else { a + 1 };
        let d2 = if d < c { d } else { d + 1 };
        assert(v[a2].popups[i].surface == v[d2].popups[j].surface);
    }
}

/// Replacing a popup by another changes no root.
pub proof fn lemma_destroy_keeps_roots(v: Seq<ChainView>, surface: u64)
    ensures
        forall|popup: Popup, root: u64|
            has_popup(v, surface) ==> (has_chain(#[trigger] with_popup(v, surface, popup), root)
                <==> #[trigger] has_chain(v, root)),
{
    lemma_holder(v, surface);
    assert forall|popup: Popup, root: u64| has_popup(v, surface) implies (has_chain(
        #[trigger] with_popup(v, surface, popup),
        root,
    ) <==> #[trigger] has_chain(v, root)) by {
        let r = with_popup(v, surface, popup);
        if has_chain(r, root) {
            let c = chain_index(r, root);
            assert(v[c].root == root);
        }
        if has_chain(v, root) {
            let c = chain_index(v, root);
            assert(r[c].root == root);
        }
    }
}

/// After a cleanup the chains have their shape, and every chain stands above
/// a live window of the scene and holds live popups only.
proof fn lemma_cleanup_shape(v: Seq<ChainView>, s: Seq<SpaceEntry>)
    requires
        chains_wf(v),
    ensures
        chains_shape(cleanup_result(v, s)),
        all_rooted(cleanup_result(v, s), s),
        forall|c: int|
            0 <= c < cleanup_result(v, s).len() ==> has_chain(
                v,
                (#[trigger] cleanup_result(v, s)[c]).root,
            ),
        forall|root: u64| !root_alive(s, root) ==> !has_chain(cleanup_result(v, s), root),
    decreases v.len(),
{
    if v.len() > 0 {
        let rest = v.drop_first();
        lemma_drop_first_wf(v);
        lemma_cleanup_shape(rest, s);
        let r = cleanup_result(v, s);
        let rr = cleanup_result(rest, s);
        let k = kept(v[0], s);
        lemma_first_dead(v[0].popups);
        assert(linked(v[0]));
        if k > 0 {
            let head = ChainView { root: v[0].root, popups: v[0].popups.take(k) };
            lemma_take_wf(v[0], k);
            assert(r =~= seq![head] + rr);
            assert forall|a: int| 0 <= a < r.len() implies linked(#[trigger] r[a])
                && grabs_from_root(r[a]) by {
                if a > 0 {
                    assert(r[a] == rr[a - 1]);
                    assert(linked(rr[a - 1]));
                }
            }
            assert forall|a: int, b: int| 0 <= a < b < r.len() implies (#[trigger] r[a]).root != (
            #[trigger] r[b]).root by {
                assert(r[b] == rr[b - 1]);
                if a > 0 {
                    assert(r[a] == rr[a - 1]);
                    assert(rr[a - 1].root != rr[b - 1].root);
                } else {
                    assert(has_chain(rest, rr[b - 1].root));
                    let d = chain_index(rest, rr[b - 1].root);
                    assert(v[0].root != v[d + 1].root);
                }
            }
            assert forall|c: int| 0 <= c < r.len() implies root_alive(s, (#[trigger] r[c]).root)
                && forall|i: int| 0 <= i < r[c].popups.len() ==> (#[trigger] r[c].popups[i]).alive by {
                if c > 0 {
                    assert(r[c] == rr[c - 1]);
                    assert(root_alive(s, rr[c - 1].root));
                }
            }
            assert forall|c: int| 0 <= c < r.len() implies has_chain(v, (#[trigger] r[c]).root) by {
                if c > 0 {
                    assert(r[c] == rr[c - 1]);
                    assert(has_chain(rest, rr[c - 1].root));
                    let d = chain_index(rest, rr[c - 1].root);
                    assert(v[d + 1].root == r[c].root);
                } else {
                    assert(v[0].root == r[0].root);
                }
            }
            assert forall|root: u64| !root_alive(s, root) implies !has_chain(r, root) by {
                if has_chain(r, root) {
                    let c = chain_index(r, root);
                    assert(root_alive(s, r[c].root));
                }
            }
        } else {
            assert(r == rr);
            assert forall|c: int| 0 <= c < r.len() implies has_chain(v, (#[trigger] r[c]).root) by {
                assert(has_chain(rest, rr[c].root));
                let d = chain_index(rest, rr[c].root);
                assert(v[d + 1].root == r[c].root);
            }
        }
    }
}

/// What a cleanup leaves of each chain: a chain that is left is the chain
/// above the same root cut down to what it keeps, and every chain that keeps
/// something is left.
pub proof fn lemma_cleanup_cut(v: Seq<ChainView>, s: Seq<SpaceEntry>)
    requires
        chains_wf(v),
    ensures
        forall|c: int|
            0 <= c < cleanup_result(v, s).len() ==> {
                let root = (#[trigger] cleanup_result(v, s)[c]).root;
                &&& has_chain(v, root)
                &&& cleanup_result(v, s)[c].popups == v[chain_index(v, root)].popups.take(
                    kept(v[chain_index(v, root)], s),
                )
                &&& 0 < kept(v[chain_index(v, root)], s) <= v[chain_index(v, root)].popups.len()
            },
        forall|d: int|
            0 <= d < v.len() && kept(#[trigger] v[d], s) > 0 ==> has_chain(
                cleanup_result(v, s),
                v[d].root,
            ),
    decreases v.len(),
{
    if v.len() > 0 {
        let rest = v.drop_first();
        lemma_drop_first_wf(v);
        lemma_cleanup_cut(rest, s);
        let r = cleanup_result(v, s);
        let rr = cleanup_result(rest, s);
        let k = kept(v[0], s);
        lemma_first_dead(v[0].popups);
        let shift = if k > 0 { 1int } else { 0int };
        if k > 0 {
            let head = ChainView { root: v[0].root, popups: v[0].popups.take(k) };
            assert(r =~= seq![head] + rr);
        } else {
            assert(r == rr);
        }
        assert forall|c: int| 0 <= c < r.len() implies {
            let root = (#[trigger] r[c]).root;
            &&& has_chain(v, root)
            &&& r[c].popups == v[chain_index(v, root)].popups.take(
                kept(v[chain_index(v, root)], s),
            )
            &&& 0 < kept(v[chain_index(v, root)], s) <= v[chain_index(v, root)].popups.len()
        } by {
            if c < shift {
                lemma_chain_index(v, v[0].root, 0);
            } else {
                assert(r[c] == rr[c - shift]);
                let root = rr[c - shift].root;
                let d = chain_index(rest, root);
                assert(has_chain(rest, root));
                assert(rest[d] == v[d + 1]);
                lemma_chain_index(v, root, d + 1);
            }
        }
        assert forall|d: int| 0 <= d < v.len() && kept(#[trigger] v[d], s) > 0 implies has_chain(
            r,
            v[d].root,
        ) by {
            if d == 0 {
                assert(r[0].root == v[0].root);
            } else {
                assert(rest[d - 1] == v[d]);
                assert(has_chain(rr, rest[d - 1].root));
                let e = chain_index(rr, v[d].root);
                assert(r[e + shift] == rr[e]);
            }
        }
    }
}

/// After a cleanup the chains are well-formed; each of them stands above a
/// live window of the scene and holds live popups only: no popup outlives
/// its root, and none stays above a popup that is gone.
pub proof fn lemma_cleanup_result(v: Seq<ChainView>, s: Seq<SpaceEntry>)
    requires
        chains_wf(v),
    ensures
        chains_wf(cleanup_result(v, s)),
        all_rooted(cleanup_result(v, s), s),
        forall|c: int|
            0 <= c < cleanup_result(v, s).len() ==> has_chain(
                v,
                (#[trigger] cleanup_result(v, s)[c]).root,
            ),
        forall|root: u64| !root_alive(s, root) ==> !has_chain(cleanup_result(v, s), root),
{
    lemma_cleanup_shape(v, s);
    lemma_cleanup_cut(v, s);
    let r = cleanup_result(v, s);
    assert forall|a: int, i: int, d: int, j: int|
        0 <= a < r.len() && 0 <= i < r[a].popups.len() && 0 <= d < r.len() && 0 <= j
            < r[d].popups.len() && (#[trigger] r[a].popups[i]).surface == (
        #[trigger] r[d].popups[j]).surface implies a == d && i == j by {
        let a2 = chain_index(v, r[a].root);
        let d2 = chain_index(v, r[d].root);
        assert(has_chain(v, r[a].root) && has_chain(v, r[d].root));
        assert(r[a].popups[i] == v[a2].popups[i]);
        assert(r[d].popups[j] == v[d2].popups[j]);
        assert(v[a2].popups[i].surface == v[d2].popups[j].surface);
        assert(a2 == d2 && i == j);
        if a < d {
            assert(r[a].root != r[d].root);
        }
        if d < a {
            assert(r[d].root != r[a].root);
        }
    }
}

/// Which popups a cleanup leaves tracked: exactly those whose root is a live
/// window of the scene and that stand below the first popup of their chain
/// whose surface is gone, and they are left as they were. So once the root
/// of a chain is destroyed, the lookup of any popup of that chain answers
/// with nothing after the next cleanup, while the popups of live roots are
/// still found.
pub proof fn lemma_cleanup_keeps(v: Seq<ChainView>, s: Seq<SpaceEntry>, c: int, i: int)
    requires
        chains_wf(v),
        0 <= c < v.len(),
        0 <= i < v[c].popups.len(),
    ensures
        has_popup(cleanup_result(v, s), v[c].popups[i].surface) <==> (root_alive(s, v[c].root)
            && i < first_dead(v[c].popups)),
        has_popup(cleanup_result(v, s), v[c].popups[i].surface) ==> popup_of(
            cleanup_result(v, s),
            v[c].popups[i].surface,
        ) == v[c].popups[i],
{
    let r = cleanup_result(v, s);
    let surface = v[c].popups[i].surface;
    lemma_cleanup_result(v, s);
    lemma_cleanup_cut(v, s);
    lemma_first_dead(v[c].popups);
    if has_popup(r, surface) {
        lemma_holder(r, surface);
        let h = holder(r, surface);
        let k = place(r, surface);
        let d = chain_index(v, r[h].root);
        assert(has_chain(v, r[h].root));
        assert(r[h].popups[k] == v[d].popups[k]);
        assert(v[d].popups[k].surface == v[c].popups[i].surface);
        assert(d == c && k == i);
        assert(root_alive(s, r[h].root));
    }
    if root_alive(s, v[c].root) && i < first_dead(v[c].popups) {
        assert(kept(v[c], s) > 0);
        assert(has_chain(r, v[c].root));
        let h = chain_index(r, v[c].root);
        lemma_chain_index(v, v[c].root, c);
        assert(r[h].popups[i] == v[c].popups[i]);
        lemma_occurs(r, h, i);
    }
}

impl PopupChain {
    /// The toplevel under the chain.
    pub fn root(&self) -> (r: u64)
        ensures
            r == self@.root,
    {
        self.root
    }

    /// Number of popups in the chain.
    pub fn len(&self) -> (n: usize)
        ensures
            n == self@.popups.len(),
    {
        self.popups.len()
    }

    /// The `i`-th popup from the root.
    pub fn popup(&self, i: usize) -> (p: Popup)
        requires
            i < self@.popups.len(),
        ensures
            p == self@.popups[i as int],
    {
        self.popups[i]
    }

    /// Index of the popup with the given surface.
    fn position(&self, surface: u64) -> (r: usize)
        ensures
            r == popup_index(self@.popups, surface),
    {
        let mut i: usize = 0;
        assert(self.popups@.subrange(0, self.popups@.len() as int) =~= self.popups@);
        while i < self.popups.len()
            invariant
                i <= self.popups@.len(),
                popup_index(self.popups@, surface) == i + popup_index(
                    self.popups@.subrange(i as int, self.popups@.len() as int),
                    surface,
                ),
            decreases self.popups@.len() - i,
        {
            let ghost rest = self.popups@.subrange(i as int, self.popups@.len() as int);
            assert(rest[0] == self.popups@[i as int]);
            if self.popups[i].surface == surface {
                return i;
            }
            assert(rest.drop_first() =~= self.popups@.subrange(i + 1, self.popups@.len() as int));
            i += 1;
        }
        i
    }

    /// Index of the first popup whose surface is gone.
    fn first_dead(&self) -> (r: usize)
        ensures
            r == first_dead(self@.popups),
    {
        let mut i: usize = 0;
        assert(self.popups@.subrange(0, self.popups@.len() as int) =~= self.popups@);
        while i < self.popups.len()
            invariant
                i <= self.popups@.len(),
                first_dead(self.popups@) == i + first_dead(
                    self.popups@.subrange(i as int, self.popups@.len() as int),
                ),
            decreases self.popups@.len() - i,
        {
            let ghost rest = self.popups@.subrange(i as int, self.popups@.len() as int);
            assert(rest[0] == self.popups@[i as int]);
            if !self.popups[i].alive {
                return i;
            }
            assert(rest.drop_first() =~= self.popups@.subrange(i + 1, self.popups@.len() as int));
            i += 1;
        }
        i
    }

    /// Adds the requests that dismiss the popups from `from` on, the topmost
    /// first.
    fn dismiss_from(&self, from: usize, actions: &mut Vec<Action>)
        requires
            from <= self@.popups.len(),
        ensures
            final(actions)@ == old(actions)@ + dismissals(self@.popups.skip(from as int)),
    {
        let ghost cut = self.popups@.skip(from as int);
        let mut i: usize = self.popups.len();
        assert(old(actions)@ + dismissals(cut).take(0) =~= old(actions)@);
        while i > from
            invariant
                from <= i <= self.popups@.len(),
                cut == self.popups@.skip(from as int),
                actions@ == old(actions)@ + dismissals(cut).take(self.popups@.len() - i),
            decreases i,
        {
            i -= 1;
            let ghost n = self.popups@.len() - i - 1;
            assert(dismissals(cut)[n] == (Action::DismissPopup {
                surface: self.popups@[i as int].surface,
            }));
            assert(dismissals(cut).take(n + 1) =~= dismissals(cut).take(n).push(dismissals(cut)[n]));
            actions.push(Action::DismissPopup { surface: self.popups[i].surface });
            assert(actions@ =~= old(actions)@ + dismissals(cut).take(n + 1));
        }
        assert(dismissals(cut).take(self.popups@.len() - from) =~= dismissals(cut));
    }
}

impl PopupManager {
    /// The chains, in the order in which their roots got their first popup.
    pub closed spec fn view(&self) -> Seq<ChainView> {
        Seq::new(self.chains@.len(), |c: int| self.chains@[c]@)
    }

    /// What holds of every manager: see [`chains_wf`].
    pub open spec fn wf(&self) -> bool {
        chains_wf(self@)
    }

    /// A manager without popups.
    pub fn new() -> (m: PopupManager)
        ensures
            m.wf(),
            m@ == Seq::<ChainView>::empty(),
    {
        let m = PopupManager { chains: Vec::new() };
        assert(m@ =~= Seq::<ChainView>::empty());
        m
    }

    /// Number of chains.
    pub fn len(&self) -> (n: usize)
        ensures
            n == self@.len(),
    {
        self.chains.len()
    }

    /// The `c`-th chain.
    pub fn chain(&self, c: usize) -> (r: &PopupChain)
        requires
            c < self@.len(),
        ensures
            r@ == self@[c as int],
    {
        &self.chains[c]
    }

    /// Index of the chain above `root`.
    pub fn chain_position(&self, root: u64) -> (r: Option<usize>)
        requires
            self.wf(),
        ensures
            r.is_some() == has_chain(self@, root),
            r.is_some() ==> r.unwrap() == chain_index(self@, root) && r.unwrap() < self@.len()
                && self@[r.unwrap() as int].root == root,
    {
        let mut i: usize = 0;
        while i < self.chains.len()
            invariant
                i <= self.chains@.len(),
                self.wf(),
                forall|j: int| 0 <= j < i ==> (#[trigger] self@[j]).root != root,
            decreases self.chains@.len() - i,
        {
            if self.chains[i].root == root {
                proof {
                    assert(self@[i as int].root == root);
                    lemma_chain_index(self@, root, i as int);
                }
                return Some(i);
            }
            assert(self@[i as int].root != root);
            i += 1;
        }
        None
    }

    /// The chain that holds the popup `surface`, and the popup's place in it.
    pub fn locate(&self, surface: u64) -> (r: Option<(usize, usize)>)
        ensures
            r.is_some() == has_popup(self@, surface),
            r.is_some() ==> r.unwrap().0 == holder(self@, surface) && r.unwrap().1 == place(
                self@,
                surface,
            ) && r.unwrap().0 < self@.len() && r.unwrap().1 < self@[r.unwrap().0 as int].popups.len(),
    {
        let mut c: usize = 0;
        assert(self@.subrange(0, self@.len() as int) =~= self@);
        while c < self.chains.len()
            invariant
                c <= self.chains@.len(),
                holder(self@, surface) == c + holder(
                    self@.subrange(c as int, self@.len() as int),
                    surface,
                ),
            decreases self.chains@.len() - c,
        {
            let ghost rest = self@.subrange(c as int, self@.len() as int);
            assert(rest[0] == self@[c as int]);
            let k = self.chains[c].position(surface);
            if k < self.chains[c].popups.len() {
                return Some((c, k));
            }
            assert(rest.drop_first() =~= self@.subrange(c + 1, self@.len() as int));
            c += 1;
        }
        None
    }

    /// The popup with the given surface, if it is tracked.
    pub fn find_popup(&self, surface: u64) -> (r: Option<Popup>)
        ensures
            r == (if has_popup(self@, surface) {
                Some(popup_of(self@, surface))
            } else {
                None
            }),
    {
        match self.locate(surface) {
            Some((c, k)) => Some(self.chains[c].popups[k]),
            None => None,
        }
    }

    /// The toplevel under the popup `surface`, if the popup is tracked.
    pub fn root_of(&self, surface: u64) -> (r: Option<u64>)
        ensures
            r == (if has_popup(self@, surface) {
                Some(self@[holder(self@, surface)].root)
            } else {
                None
            }),
    {
        match self.locate(surface) {
            Some((c, _)) => Some(self.chains[c].root),
            None => None,
        }
    }

    /// The surface that a popup grab above `root` routes the keyboard to: the
    /// topmost live popup of the chain that holds a grab, if the chain is
    /// open and has one.
    pub fn current_grab(&self, root: u64) -> (r: Option<u64>)
        requires
            self.wf(),
        ensures
            r == (if has_chain(self@, root) {
                grab_top(self@[chain_index(self@, root)].popups)
            } else {
                None
            }),
    {
        match self.chain_position(root) {
            Some(c) => {
                let chain = &self.chains[c];
                let mut i: usize = chain.popups.len();
                assert(chain.popups@.subrange(0, i as int) =~= chain.popups@);
                while i > 0
                    invariant
                        i <= chain.popups@.len(),
                        has_chain(self@, root),
                        c == chain_index(self@, root),
                        chain.popups@ == self@[c as int].popups,
                        grab_top(chain.popups@) == grab_top(chain.popups@.subrange(0, i as int)),
                    decreases i,
                {
                    let ghost front = chain.popups@.subrange(0, i as int);
                    i -= 1;
                    assert(front.last() == chain.popups@[i as int]);
                    assert(front.drop_last() =~= chain.popups@.subrange(0, i as int));
                    if chain.popups[i].grabbed && chain.popups[i].alive {
                        return Some(chain.popups[i].surface);
                    }
                }
                None
            },
            None => None,
        }
    }

    /// Where the surface that `popup` was opened on stands relative to the
    /// geometry of the root of its chain; see [`parent_offset`].
    pub fn offset_of_parent(&self, popup: &Popup) -> (r: Point)
        ensures
            r == parent_offset(self@, *popup),
    {
        match self.locate(popup.parent) {
            Some((c, k)) => {
                let chain = &self.chains[c];
                let mut offset = Point { x: 0, y: 0 };
                let mut i: usize = 0;
                let ghost upto = chain.popups@.take(k + 1);
                assert(upto.take(0) =~= Seq::<Popup>::empty());
                while i <= k
                    invariant
                        i <= k + 1,
                        k < chain.popups.len(),
                        upto == chain.popups@.take(k + 1),
                        offset == offset_of(upto.take(i as int)),
                    decreases k + 1 - i,
                {
                    assert(upto.take(i + 1).drop_last() =~= upto.take(i as int));
                    assert(upto.take(i + 1).last() == chain.popups@[i as int]);
                    offset = offset.add(chain.popups[i].geometry.loc);
                    i += 1;
                }
                assert(upto.take(i as int) =~= upto);
                offset
            },
            None => Point { x: 0, y: 0 },
        }
    }

    /// The toplevel under a new popup; see [`resolve_root`].
    pub fn resolve(&self, space: &Space, popup: &Popup) -> (r: Option<u64>)
        requires
            space.wf(),
        ensures
            r == resolve_root(self@, space@, *popup),
    {
        if space.alive(popup.parent) {
            return Some(popup.parent);
        }
        match self.locate(popup.parent) {
            Some((c, k)) => {
                if self.chains[c].popups[k].alive && space.alive(self.chains[c].root) {
                    Some(self.chains[c].root)
                } else {
                    None
                }
            },
            None => None,
        }
    }

    /// Starts to track `popup`: it is put directly above its parent in the
    /// chain of its root, without a grab, and what stood above the parent is
    /// closed. Fails if the surface is tracked already or if no live toplevel
    /// is found under the popup; nothing changes then.
    pub fn track_popup(&mut self, popup: Popup, space: &Space) -> (r: Result<
        Vec<Action>,
        PopupError,
    >)
        requires
            old(self).wf(),
            space.wf(),
        ensures
            final(self).wf(),
            final(self)@ == track_result(old(self)@, space@, popup),
            r.is_ok() == track_outcome(old(self)@, space@, popup).is_ok(),
            r.is_err() ==> Err::<(), PopupError>(r.unwrap_err()) == track_outcome(
                old(self)@,
                space@,
                popup,
            ),
            r.is_ok() ==> r.unwrap()@ == dismissals(track_closes(old(self)@, space@, popup)),
    {
        if self.locate(popup.surface).is_some() {
            return Err(PopupError::AlreadyTracked);
        }
        if self.resolve(space, &popup).is_none() {
            return Err(PopupError::DeadResource);
        }
        let mut actions: Vec<Action> = Vec::new();
        let mut entering = popup;
        entering.grabbed = false;
        let ghost v = self@;
        if space.alive(popup.parent) {
            let mut popups: Vec<Popup> = Vec::new();
            popups.push(entering);
            let fresh = PopupChain { root: popup.parent, popups };
            assert(linked(fresh@) && grabs_from_root(fresh@));
            match self.chain_position(popup.parent) {
                Some(c) => {
                    self.chains[c].dismiss_from(0, &mut actions);
                    assert(v[c as int].popups.skip(0) =~= v[c as int].popups);
                    self.chains[c] = fresh;
                    proof {
                        assert(self@ =~= v.update(c as int, fresh@));
                        lemma_update_wf(v, c as int, fresh@);
                        lemma_update_distinct(v, c as int, fresh@);
                    }
                },
                None => {
                    self.chains.push(fresh);
                    proof {
                        assert(self@ =~= v.push(fresh@));
                        assert(dismissals(Seq::<Popup>::empty()) =~= Seq::<Action>::empty());
                        assert forall|a: int| 0 <= a < self@.len() implies linked(
                            #[trigger] self@[a],
                        ) && grabs_from_root(self@[a]) by {
                            if a < v.len() {
                                assert(linked(v[a]));
                            }
                        }
                        assert forall|a: int, b: int| 0 <= a < b < self@.len() implies (
                        #[trigger] self@[a]).root != (#[trigger] self@[b]).root by {
                            if b < v.len() {
                                assert(v[a].root != v[b].root);
                            } else {
                                assert(v[a].root != popup.parent);
                            }
                        }
                        let r = self@;
                        assert forall|a: int, i: int, d: int, j: int|
                            0 <= a < r.len() && 0 <= i < r[a].popups.len() && 0 <= d < r.len()
                                && 0 <= j < r[d].popups.len() && (
                            #[trigger] r[a].popups[i]).surface == (
                            #[trigger] r[d].popups[j]).surface implies a == d && i == j by {
                            if a < v.len() && d < v.len() {
                                assert(v[a].popups[i].surface == v[d].popups[j].surface);
                            } else if a < v.len() {
                                lemma_occurs(v, a, i);
                            } else if d < v.len() {
                                lemma_occurs(v, d, j);
                            }
                        }
                    }
                },
            }
        } else {
            match self.locate(popup.parent) {
                Some((c, k)) => {
                    assert(k < self.chains[c as int].popups.len());
                    proof {
                        lemma_holder(v, popup.parent);
                        assert(linked(v[c as int]));
                        lemma_take_wf(v[c as int], k + 1);
                        lemma_push_wf(
                            ChainView { root: v[c as int].root, popups: v[c as int].popups.take(k + 1) },
                            entering,
                        );
                    }
                    self.chains[c].dismiss_from(k + 1, &mut actions);
                    self.chains[c].popups.truncate(k + 1);
                    self.chains[c].popups.push(entering);
                    proof {
                        let chain = ChainView {
                            root: v[c as int].root,
                            popups: v[c as int].popups.take(k + 1).push(entering),
                        };
                        assert(self@ =~= v.update(c as int, chain));
                        lemma_update_wf(v, c as int, chain);
                        assert(popups_distinct(chain.popups)) by {
                            assert forall|i: int, j: int|
                                0 <= i < j < chain.popups.len() implies (
                            #[trigger] chain.popups[i]).surface != (
                            #[trigger] chain.popups[j]).surface by {
                                if j <= k {
                                    assert(v[c as int].popups[i].surface
                                        != v[c as int].popups[j].surface);
                                } else {
                                    lemma_occurs(v, c as int, i);
                                }
                            }
                        }
                        lemma_update_distinct(v, c as int, chain);
                    }
                },
                None => {},
            }
        }
        Ok(actions)
    }

    /// Gives the popup `surface` an explicit grab. Succeeds for a live
    /// tracked popup that was not committed yet and that stands directly on
    /// its root or on a popup that holds a grab; nothing changes otherwise.
    pub fn grab_popup(&mut self, surface: u64) -> (r: Result<(), PopupGrabError>)
        requires
            old(self).wf(),
        ensures
            final(self).wf(),
            r == grab_outcome(old(self)@, surface),
            final(self)@ == (if r.is_ok() {
                with_popup(
                    old(self)@,
                    surface,
                    Popup { grabbed: true, ..popup_of(old(self)@, surface) },
                )
            } else {
                old(self)@
            }),
    {
        let ghost v = self@;
        match self.locate(surface) {
            Some((c, k)) => {
                let popup = self.chains[c].popups[k];
                if !popup.alive {
                    return Err(PopupGrabError::DeadResource);
                }
                if popup.committed {
                    return Err(PopupGrabError::InvalidGrab);
                }
                if k > 0 && !self.chains[c].popups[k - 1].grabbed {
                    return Err(PopupGrabError::NotTheTopmostPopup);
                }
                self.chains[c].popups[k].grabbed = true;
                proof {
                    let chain = ChainView {
                        root: v[c as int].root,
                        popups: v[c as int].popups.update(
                            k as int,
                            Popup { grabbed: true, ..popup },
                        ),
                    };
                    assert(self@ =~= v.update(c as int, chain));
                    assert(linked(v[c as int]) && grabs_from_root(v[c as int]));
                    assert(linked(chain)) by {
                        assert forall|i: int| 0 < i < chain.popups.len() implies (
                        #[trigger] chain.popups[i]).parent == chain.popups[i - 1].surface by {
                            assert(v[c as int].popups[i].parent == v[c as int].popups[i
                                - 1].surface);
                        }
                    }
                    assert(grabs_from_root(chain)) by {
                        assert forall|i: int, j: int|
                            0 <= i < j < chain.popups.len() && (
                            #[trigger] chain.popups[j]).grabbed implies (
                        #[trigger] chain.popups[i]).grabbed by {
                            if j == k {
                                if i < k - 1 {
                                    assert(v[c as int].popups[k - 1].grabbed
                                        ==> v[c as int].popups[i].grabbed);
                                }
                            } else {
                                assert(v[c as int].popups[j].grabbed
                                    ==> v[c as int].popups[i].grabbed);
                            }
                        }
                    }
                    lemma_update_wf(v, c as int, chain);
                    assert(popups_distinct(chain.popups)) by {
                        assert forall|i: int, j: int| 0 <= i < j < chain.popups.len() implies (
                        #[trigger] chain.popups[i]).surface != (
                        #[trigger] chain.popups[j]).surface by {
                            assert(v[c as int].popups[i].surface != v[c as int].popups[j].surface);
                        }
                    }
                    lemma_update_distinct(v, c as int, chain);
                }
                Ok(())
            },
            None => Err(PopupGrabError::DeadResource),
        }
    }

    /// Closes the whole chain above `root`; answers with the requests that
    /// dismiss its popups, the topmost first.
    pub fn ungrab_all(&mut self, root: u64) -> (actions: Vec<Action>)
        requires
            old(self).wf(),
        ensures
            final(self).wf(),
            !has_chain(final(self)@, root),
            final(self)@ == (if has_chain(old(self)@, root) {
                old(self)@.remove(chain_index(old(self)@, root))
            } else {
                old(self)@
            }),
            actions@ == (if has_chain(old(self)@, root) {
                dismissals(old(self)@[chain_index(old(self)@, root)].popups)
            } else {
                Seq::empty()
            }),
    {
        let mut actions: Vec<Action> = Vec::new();
        let ghost v = self@;
        match self.chain_position(root) {
            Some(c) => {
                self.chains[c].dismiss_from(0, &mut actions);
                assert(v[c as int].popups.skip(0) =~= v[c as int].popups);
                self.chains.remove(c);
                proof {
                    assert(self@ =~= v.remove(c as int));
                    lemma_remove_chain_wf(v, c as int);
                }
            },
            None => {},
        }
        actions
    }

    /// Replaces the tracked popup at the given place by `popup`, which
    /// differs from it in neither surface, parent nor grab.
    fn put(&mut self, c: usize, k: usize, popup: Popup)
        requires
            old(self).wf(),
            c < old(self)@.len(),
            k < old(self)@[c as int].popups.len(),
            popup.surface == old(self)@[c as int].popups[k as int].surface,
            popup.parent == old(self)@[c as int].popups[k as int].parent,
            popup.grabbed == old(self)@[c as int].popups[k as int].grabbed,
        ensures
            final(self).wf(),
            final(self)@ == old(self)@.update(
                c as int,
                ChainView {
                    root: old(self)@[c as int].root,
                    popups: old(self)@[c as int].popups.update(k as int, popup),
                },
            ),
    {
        let ghost v = self@;
        self.chains[c].popups[k] = popup;
        proof {
            let chain = ChainView {
                root: v[c as int].root,
                popups: v[c as int].popups.update(k as int, popup),
            };
            assert(self@ =~= v.update(c as int, chain));
            assert(linked(v[c as int]) && grabs_from_root(v[c as int]));
            assert(linked(chain)) by {
                assert forall|i: int| 0 < i < chain.popups.len() implies (
                #[trigger] chain.popups[i]).parent == chain.popups[i - 1].surface by {
                    assert(v[c as int].popups[i].parent == v[c as int].popups[i - 1].surface);
                }
            }
            assert(grabs_from_root(chain)) by {
                assert forall|i: int, j: int|
                    0 <= i < j < chain.popups.len() && (#[trigger] chain.popups[j]).grabbed implies (
                #[trigger] chain.popups[i]).grabbed by {
                    assert(v[c as int].popups[j].grabbed ==> v[c as int].popups[i].grabbed);
                }
            }
            lemma_update_wf(v, c as int, chain);
            assert(popups_distinct(chain.popups)) by {
                assert forall|i: int, j: int| 0 <= i < j < chain.popups.len() implies (
                #[trigger] chain.popups[i]).surface != (#[trigger] chain.popups[j]).surface by {
                    assert(v[c as int].popups[i].surface != v[c as int].popups[j].surface);
                }
            }
            lemma_update_distinct(v, c as int, chain);
        }
    }

    /// Marks the popup `surface` as destroyed. It stays in its chain until
    /// the next [`PopupManager::cleanup`].
    pub fn destroy(&mut self, surface: u64)
        requires
            old(self).wf(),
        ensures
            final(self).wf(),
            final(self)@ == (if has_popup(old(self)@, surface) {
                with_popup(
                    old(self)@,
                    surface,
                    Popup { alive: false, ..popup_of(old(self)@, surface) },
                )
            } else {
                old(self)@
            }),
    {
        match self.locate(surface) {
            Some((c, k)) => {
                let mut popup = self.chains[c].popups[k];
                popup.alive = false;
                self.put(c, k, popup);
            },
            None => {},
        }
    }

    /// Takes note of a commit of `surface`. A tracked popup counts as
    /// committed from now on, and is sent its first configure, with its
    /// placement, unless that was sent before.
    pub fn commit(&mut self, surface: u64) -> (actions: Vec<Action>)
        requires
            old(self).wf(),
        ensures
            final(self).wf(),
            final(self)@ == (if has_popup(old(self)@, surface) {
                with_popup(
                    old(self)@,
                    surface,
                    Popup {
                        committed: true,
                        configure_sent: true,
                        ..popup_of(old(self)@, surface)
                    },
                )
            } else {
                old(self)@
            }),
            actions@ == (if has_popup(old(self)@, surface) && !popup_of(
                old(self)@,
                surface,
            ).configure_sent {
                seq![
                    Action::ConfigurePopup {
                        surface,
                        geometry: popup_of(old(self)@, surface).geometry,
                    },
                ]
            } else {
                Seq::empty()
            }),
    {
        let mut actions: Vec<Action> = Vec::new();
        match self.locate(surface) {
            Some((c, k)) => {
                let mut popup = self.chains[c].popups[k];
                proof {
                    lemma_holder(self@, surface);
                }
                if !popup.configure_sent {
                    actions.push(Action::ConfigurePopup { surface, geometry: popup.geometry });
                }
                popup.committed = true;
                popup.configure_sent = true;
                self.put(c, k, popup);
            },
            None => {},
        }
        actions
    }

    /// Drops what has lost its footing: a chain whose root is not a live
    /// window of the scene goes altogether, and every other chain is cut at
    /// its first popup whose surface is gone. Answers with the requests that
    /// dismiss what was cut off.
    pub fn cleanup(&mut self, space: &Space) -> (actions: Vec<Action>)
        requires
            old(self).wf(),
            space.wf(),
        ensures
            final(self).wf(),
            final(self)@ == cleanup_result(old(self)@, space@),
            actions@ == cleanup_actions(old(self)@, space@),
            all_rooted(final(self)@, space@),
    {
        let mut actions: Vec<Action> = Vec::new();
        let mut i: usize = 0;
        let ghost v = self@;
        proof {
            assert(self@.subrange(0, self@.len() as int) =~= self@);
            assert(self@.subrange(0, 0) + cleanup_result(v, space@) =~= cleanup_result(v, space@));
            assert(actions@ + cleanup_actions(v, space@) =~= cleanup_actions(v, space@));
        }
        while i < self.chains.len()
            invariant
                i <= self.chains@.len(),
                space.wf(),
                cleanup_result(v, space@) == self@.subrange(0, i as int) + cleanup_result(
                    self@.subrange(i as int, self@.len() as int),
                    space@,
                ),
                cleanup_actions(v, space@) == actions@ + cleanup_actions(
                    self@.subrange(i as int, self@.len() as int),
                    space@,
                ),
            decreases self.chains@.len() - i,
        {
            let ghost before = self@;
            let ghost tail = before.subrange(i as int, before.len() as int);
            let ghost done = actions@;
            assert(tail[0] == before[i as int]);
            assert(tail.drop_first() =~= before.subrange(i + 1, before.len() as int));
            let keep: usize = if space.alive(self.chains[i].root) {
                self.chains[i].first_dead()
            } else {
                0
            };
            proof {
                lemma_first_dead(before[i as int].popups);
            }
            self.chains[i].dismiss_from(keep, &mut actions);
            assert(done + (dismissals(tail[0].popups.skip(keep as int)) + cleanup_actions(
                tail.drop_first(),
                space@,
            )) =~= actions@ + cleanup_actions(tail.drop_first(), space@));
            if keep == 0 {
                self.chains.remove(i);
                assert(self@.subrange(0, i as int) =~= before.subrange(0, i as int));
                assert(self@.subrange(i as int, self@.len() as int) =~= tail.drop_first());
            } else {
                self.chains[i].popups.truncate(keep);
                let ghost head = ChainView {
                    root: before[i as int].root,
                    popups: before[i as int].popups.take(keep as int),
                };
                assert(self@[i as int] == head);
                assert(self@.subrange(0, i + 1) =~= before.subrange(0, i as int) + seq![head]);
                assert(self@.subrange(i + 1, self@.len() as int) =~= tail.drop_first());
                assert(before.subrange(0, i as int) + (seq![head] + cleanup_result(
                    tail.drop_first(),
                    space@,
                )) =~= self@.subrange(0, i + 1) + cleanup_result(tail.drop_first(), space@));
                i += 1;
            }
        }
        proof {
            assert(self@.subrange(i as int, self@.len() as int).len() == 0);
            assert(self@.subrange(0, i as int) =~= self@);
            assert(self@ + Seq::<ChainView>::empty() =~= self@);
            assert(actions@ + Seq::<Action>::empty() =~= actions@);
            lemma_cleanup_result(v, space@);
        }
        actions
    }
}

} // verus!
