//! The scene: which windows are on screen, where, and in what order.
//!
//! A [`Space`] keeps its windows bottom to top. Managed windows form the lower
//! layer; override-redirect windows of the legacy protocol form the upper
//! layer, stay above every managed window and are never activated. At most
//! one window is activated at any time.
use crate::geometry::{FixedPoint, Point, Rectangle};
use crate::state::elements::WindowElement;
use vstd::prelude::*;

verus! {

/// A mapped window and the position of its geometry in the scene.
#[derive(Clone, Debug)]
pub struct SpaceEntry {
    pub element: WindowElement,
    pub location: Point,
}

/// A screen and the part of the scene that it shows.
#[derive(Clone, Copy, PartialEq, Eq, Structural, Debug)]
pub struct Output {
    pub id: u64,
    pub geometry: Rectangle,
}

/// The windows of a scene, bottom to top, and its screens.
#[derive(Debug)]
pub struct Space {
    entries: Vec<SpaceEntry>,
    outputs: Vec<Output>,
}

/// Whether a window with identity `id` is among `s`.
pub open spec fn mapped(s: Seq<SpaceEntry>, id: u64) -> bool {
    exists|i: int| 0 <= i < s.len() && (#[trigger] s[i]).element.surface == id
}

/// Where the window with identity `id` stands in `s` (meaningful where it is
/// mapped).
pub open spec fn index_of(s: Seq<SpaceEntry>, id: u64) -> int {
    choose|i: int| 0 <= i < s.len() && (#[trigger] s[i]).element.surface == id
}

/// No two entries share an identity.
pub open spec fn distinct(s: Seq<SpaceEntry>) -> bool {
    forall|i: int, j: int|
        0 <= i < j < s.len() ==> (#[trigger] s[i]).element.surface != (
        #[trigger] s[j]).element.surface
}

/// Nothing managed stands above an override-redirect window.
pub open spec fn layered(s: Seq<SpaceEntry>) -> bool {
    forall|i: int, j: int|
        0 <= i < j < s.len() && (#[trigger] s[i]).element.is_override_redirect() ==> (
        #[trigger] s[j]).element.is_override_redirect()
}

/// At most one entry is activated.
pub open spec fn exclusive(s: Seq<SpaceEntry>) -> bool {
    forall|i: int, j: int|
        0 <= i < s.len() && 0 <= j < s.len() && (#[trigger] s[i]).element.activated && (
        #[trigger] s[j]).element.activated ==> i == j
}

/// No override-redirect window is activated.
pub open spec fn overrides_inactive(s: Seq<SpaceEntry>) -> bool {
    forall|i: int|
        0 <= i < s.len() && (#[trigger] s[i]).element.is_override_redirect()
            ==> !s[i].element.activated
}

/// No entry is activated.
pub open spec fn none_activated(s: Seq<SpaceEntry>) -> bool {
    forall|i: int| 0 <= i < s.len() ==> !(#[trigger] s[i]).element.activated
}

/// What holds of the windows of every scene.
pub open spec fn stack_wf(s: Seq<SpaceEntry>) -> bool {
    distinct(s) && layered(s) && exclusive(s) && overrides_inactive(s)
}

/// Whether `k` parts the managed windows (below) from the override-redirect
/// windows (from `k` on).
pub open spec fn is_boundary(s: Seq<SpaceEntry>, k: int) -> bool {
    &&& 0 <= k <= s.len()
    &&& forall|i: int| 0 <= i < k ==> !(#[trigger] s[i]).element.is_override_redirect()
    &&& forall|i: int| k <= i < s.len() ==> (#[trigger] s[i]).element.is_override_redirect()
}

/// Number of managed windows of a layered stack, which is also the index
/// just above the topmost of them.
pub open spec fn boundary(s: Seq<SpaceEntry>) -> int {
    choose|k: int| is_boundary(s, k)
}

/// The entry `e` with its activation set to `activated`.
pub open spec fn with_activation(e: SpaceEntry, activated: bool) -> SpaceEntry {
    SpaceEntry { element: WindowElement { activated, ..e.element }, location: e.location }
}

/// The stack `s` with every activation cleared.
pub open spec fn deactivated(s: Seq<SpaceEntry>) -> Seq<SpaceEntry> {
    Seq::new(s.len(), |i: int| with_activation(s[i], false))
}

/// The stack `s` with `e` added on top of its layer.
pub open spec fn placed(s: Seq<SpaceEntry>, e: SpaceEntry) -> Seq<SpaceEntry> {
    if e.element.is_override_redirect() {
        s.push(e)
    } else {
        s.insert(boundary(s), e)
    }
}

/// The stack that a live `element` is put on when it is mapped: the old
/// stack without the window's old entry, and with every activation cleared
/// if the window is to be activated.
pub open spec fn map_base(s: Seq<SpaceEntry>, element: WindowElement, activate: bool) -> Seq<
    SpaceEntry,
> {
    let rest = if mapped(s, element.surface) {
        s.remove(index_of(s, element.surface))
    } else {
        s
    };
    if activate && !element.is_override_redirect() {
        deactivated(rest)
    } else {
        rest
    }
}

/// The entry of a live `element` that is mapped at `location`: it has the
/// attributes of `element`, but for its activation. A managed window is
/// activated if `activate` asks for it or if it was activated in the stack.
pub open spec fn map_entry(
    s: Seq<SpaceEntry>,
    element: WindowElement,
    location: Point,
    activate: bool,
) -> SpaceEntry {
    let prior = mapped(s, element.surface) && s[index_of(s, element.surface)].element.activated;
    SpaceEntry {
        element: WindowElement {
            activated: !element.is_override_redirect() && (activate || prior),
            ..element
        },
        location,
    }
}

/// The stack after `element` was mapped at `location`.
///
/// A destroyed window changes nothing. Otherwise the window leaves its old
/// place, if it had one, and is put on top of its layer with the attributes
/// of `element`. With `activate`, a managed window becomes the only activated
/// one; without, it keeps the activation it had in the stack.
pub open spec fn map_result(
    s: Seq<SpaceEntry>,
    element: WindowElement,
    location: Point,
    activate: bool,
) -> Seq<SpaceEntry> {
    if !element.alive {
        s
    } else {
        placed(map_base(s, element, activate), map_entry(s, element, location, activate))
    }
}

/// The stack after the window `id` was raised.
///
/// Nothing changes unless the window is mapped and alive. Otherwise it moves
/// to the top of its layer; with `activate`, a managed window becomes the
/// only activated one.
pub open spec fn raise_result(s: Seq<SpaceEntry>, id: u64, activate: bool) -> Seq<SpaceEntry> {
    let i = index_of(s, id);
    if mapped(s, id) && s[i].element.alive {
        if activate && !s[i].element.is_override_redirect() {
            placed(deactivated(s.remove(i)), with_activation(s[i], true))
        } else {
            placed(s.remove(i), s[i])
        }
    } else {
        s
    }
}

/// The stack after the window `id` was unmapped.
pub open spec fn unmap_result(s: Seq<SpaceEntry>, id: u64) -> Seq<SpaceEntry> {
    if mapped(s, id) {
        s.remove(index_of(s, id))
    } else {
        s
    }
}

/// The stack after the window `id` was moved to `location`: only the position
/// of that window changes, and only if it is mapped and alive.
pub open spec fn relocate_result(s: Seq<SpaceEntry>, id: u64, location: Point) -> Seq<
    SpaceEntry,
> {
    let i = index_of(s, id);
    if mapped(s, id) && s[i].element.alive {
        s.update(i, SpaceEntry { element: s[i].element, location })
    } else {
        s
    }
}

/// The identities of the stack, bottom to top.
pub open spec fn order(s: Seq<SpaceEntry>) -> Seq<u64> {
    Seq::new(s.len(), |i: int| s[i].element.surface)
}

/// In a stack without duplicates, the entry with a given identity determines
/// its index.
pub proof fn lemma_index_of(s: Seq<SpaceEntry>, id: u64, i: int)
    requires
        distinct(s),
        0 <= i < s.len(),
        s[i].element.surface == id,
    ensures
        mapped(s, id),
        index_of(s, id) == i,
{
    let j = index_of(s, id);
    assert(0 <= j < s.len() && s[j].element.surface == id);
    if j < i {
        assert(s[j].element.surface != s[i].element.surface);
    }
    if i < j {
        assert(s[i].element.surface != s[j].element.surface);
    }
}

/// A layered stack has exactly one boundary.
pub proof fn lemma_boundary(s: Seq<SpaceEntry>, k: int)
    requires
        is_boundary(s, k),
    ensures
        boundary(s) == k,
{
    let b = boundary(s);
    assert(is_boundary(s, b));
    if b < k {
        assert(s[b].element.is_override_redirect());
    }
    if k < b {
        assert(s[k].element.is_override_redirect());
    }
}

/// Taking an entry out keeps a stack well-formed.
pub proof fn lemma_remove_wf(s: Seq<SpaceEntry>, i: int)
    requires
        stack_wf(s),
        0 <= i < s.len(),
    ensures
        stack_wf(s.remove(i)),
        !mapped(s.remove(i), s[i].element.surface),
        s[i].element.activated ==> none_activated(s.remove(i)),
        forall|id: u64| id != s[i].element.surface ==> (mapped(s.remove(i), id) <==> mapped(s, id)),
{
    let r = s.remove(i);
    assert forall|a: int| 0 <= a < r.len() implies #[trigger] r[a] == s[if a < i {
        a
    } else {
        a + 1
    }] by {}
    assert(distinct(r)) by {
        assert forall|a: int, b: int| 0 <= a < b < r.len() implies (#[trigger] r[a]).element.surface
            != (#[trigger] r[b]).element.surface by {
            let a2 = if a < i { a } else { a + 1 };
            let b2 = if b < i { b } else { b + 1 };
            assert(s[a2].element.surface != s[b2].element.surface);
        }
    }
    assert(layered(r)) by {
        assert forall|a: int, b: int|
            0 <= a < b < r.len() && (#[trigger] r[a]).element.is_override_redirect() implies (
        #[trigger] r[b]).element.is_override_redirect() by {
            let a2 = if a < i { a } else { a + 1 };
            let b2 = if b < i { b } else { b + 1 };
            assert(s[a2].element.is_override_redirect() ==> s[b2].element.is_override_redirect());
        }
    }
    assert(exclusive(r)) by {
        assert forall|a: int, b: int|
            0 <= a < r.len() && 0 <= b < r.len() && (#[trigger] r[a]).element.activated && (
            #[trigger] r[b]).element.activated implies a == b by {
            let a2 = if a < i { a } else { a + 1 };
            let b2 = if b < i { b } else { b + 1 };
            assert(s[a2].element.activated && s[b2].element.activated ==> a2 == b2);
        }
    }
    assert(overrides_inactive(r)) by {
        assert forall|a: int|
            0 <= a < r.len() && (#[trigger] r[a]).element.is_override_redirect()
                implies !r[a].element.activated by {
            let a2 = if a < i { a } else { a + 1 };
            assert(s[a2].element.is_override_redirect() ==> !s[a2].element.activated);
        }
    }
    assert(!mapped(r, s[i].element.surface)) by {
        assert forall|a: int| 0 <= a < r.len() implies (#[trigger] r[a]).element.surface
            != s[i].element.surface by {
            let a2 = if a < i { a } else { a + 1 };
            if a2 < i {
                assert(s[a2].element.surface != s[i].element.surface);
            } else {
                assert(s[i].element.surface != s[a2].element.surface);
            }
        }
    }
    if s[i].element.activated {
        assert forall|a: int| 0 <= a < r.len() implies !(#[trigger] r[a]).element.activated by {
            let a2 = if a < i { a } else { a + 1 };
            assert(s[a2].element.activated && s[i].element.activated ==> a2 == i);
        }
    }
    assert forall|id: u64| id != s[i].element.surface implies (mapped(r, id) <==> mapped(
        s,
        id,
    )) by {
        if mapped(r, id) {
            let a = index_of(r, id);
            let a2 = if a < i { a } else { a + 1 };
            assert(s[a2].element.surface == id);
        }
        if mapped(s, id) {
            let a = index_of(s, id);
            let a2 = if a < i { a } else { a - 1 };
            assert(r[a2].element.surface == id);
        }
    }
}

/// Clearing every activation keeps a stack well-formed.
pub proof fn lemma_deactivated_wf(s: Seq<SpaceEntry>)
    requires
        distinct(s),
        layered(s),
    ensures
        stack_wf(deactivated(s)),
        none_activated(deactivated(s)),
        order(deactivated(s)) == order(s),
        forall|id: u64| mapped(deactivated(s), id) <==> mapped(s, id),
        forall|k: int| is_boundary(s, k) ==> is_boundary(deactivated(s), k),
{
    let d = deactivated(s);
    assert(order(d) =~= order(s));
    assert forall|id: u64| mapped(d, id) <==> mapped(s, id) by {
        if mapped(d, id) {
            let a = index_of(d, id);
            assert(s[a].element.surface == id);
        }
        if mapped(s, id) {
            let a = index_of(s, id);
            assert(d[a].element.surface == id);
        }
    }
    assert(layered(d)) by {
        assert forall|a: int, b: int|
            0 <= a < b < d.len() && (#[trigger] d[a]).element.is_override_redirect() implies (
        #[trigger] d[b]).element.is_override_redirect() by {
            assert(s[a].element.is_override_redirect() ==> s[b].element.is_override_redirect());
        }
    }
    assert(distinct(d)) by {
        assert forall|a: int, b: int| 0 <= a < b < d.len() implies (#[trigger] d[a]).element.surface
            != (#[trigger] d[b]).element.surface by {
            assert(s[a].element.surface != s[b].element.surface);
        }
    }
    assert forall|k: int| is_boundary(s, k) implies is_boundary(d, k) by {
        assert forall|i: int| 0 <= i < k implies !(#[trigger] d[i]).element.is_override_redirect() by {
            assert(!s[i].element.is_override_redirect());
        }
        assert forall|i: int| k <= i < d.len() implies (#[trigger] d[i]).element.is_override_redirect() by {
            assert(s[i].element.is_override_redirect());
        }
    }
}

/// Putting a new entry on top of its layer keeps a stack well-formed.
pub proof fn lemma_placed_wf(s: Seq<SpaceEntry>, e: SpaceEntry, k: int)
    requires
        stack_wf(s),
        is_boundary(s, k),
        !mapped(s, e.element.surface),
        e.element.activated ==> none_activated(s),
        e.element.is_override_redirect() ==> !e.element.activated,
    ensures
        stack_wf(placed(s, e)),
        placed(s, e).len() == s.len() + 1,
        e.element.is_override_redirect() ==> placed(s, e) == s.push(e),
        !e.element.is_override_redirect() ==> placed(s, e) == s.insert(k, e),
        forall|id: u64|
            mapped(placed(s, e), id) <==> (id == e.element.surface || mapped(s, id)),
{
    lemma_boundary(s, k);
    let p = placed(s, e);
    let at = if e.element.is_override_redirect() { s.len() as int } else { k };
    assert(p =~= s.insert(at, e));
    assert forall|a: int| 0 <= a < p.len() implies #[trigger] p[a] == (if a < at {
        s[a]
    } else if a == at {
        e
    } else {
        s[a - 1]
    }) by {}
    assert forall|a: int| 0 <= a < s.len() implies (#[trigger] s[a]).element.surface
        != e.element.surface by {}
    assert(distinct(p)) by {
        assert forall|a: int, b: int| 0 <= a < b < p.len() implies (#[trigger] p[a]).element.surface
            != (#[trigger] p[b]).element.surface by {
            let a2 = if a < at { a } else { a - 1 };
            let b2 = if b < at { b } else { b - 1 };
            if a != at && b != at {
                assert(s[a2].element.surface != s[b2].element.surface);
            } else if a == at {
                assert(s[b2].element.surface != e.element.surface);
            } else {
                assert(s[a2].element.surface != e.element.surface);
            }
        }
    }
    assert(layered(p)) by {
        assert forall|a: int, b: int|
            0 <= a < b < p.len() && (#[trigger] p[a]).element.is_override_redirect() implies (
        #[trigger] p[b]).element.is_override_redirect() by {
            let a2 = if a < at { a } else { a - 1 };
            let b2 = if b < at { b } else { b - 1 };
            if a != at && b != at {
                assert(s[a2].element.is_override_redirect() ==> s[b2].element.is_override_redirect());
            } else if a == at {
                assert(s[b2].element.is_override_redirect());
            } else {
                assert(!s[a2].element.is_override_redirect() || e.element.is_override_redirect());
            }
        }
    }
    assert(exclusive(p)) by {
        assert forall|a: int, b: int|
            0 <= a < p.len() && 0 <= b < p.len() && (#[trigger] p[a]).element.activated && (
            #[trigger] p[b]).element.activated implies a == b by {
            let a2 = if a < at { a } else { a - 1 };
            let b2 = if b < at { b } else { b - 1 };
            if a != at && b != at {
                assert(s[a2].element.activated && s[b2].element.activated ==> a2 == b2);
            } else if a == at && b != at {
                assert(!s[b2].element.activated);
            } else if b == at && a != at {
                assert(!s[a2].element.activated);
            }
        }
    }
    assert(overrides_inactive(p)) by {
        assert forall|a: int|
            0 <= a < p.len() && (#[trigger] p[a]).element.is_override_redirect()
                implies !p[a].element.activated by {
            let a2 = if a < at { a } else { a - 1 };
            if a != at {
                assert(s[a2].element.is_override_redirect() ==> !s[a2].element.activated);
            }
        }
    }
    assert forall|id: u64| mapped(p, id) <==> (id == e.element.surface || mapped(s, id)) by {
        if mapped(p, id) {
            let a = index_of(p, id);
            if a != at {
                let a2 = if a < at { a } else { a - 1 };
                assert(s[a2].element.surface == id);
            }
        }
        if id == e.element.surface {
            assert(p[at].element.surface == id);
        }
        if mapped(s, id) {
            let a = index_of(s, id);
            let a2 = if a < at { a } else { a + 1 };
            assert(p[a2].element.surface == id);
        }
    }
}

/// A stack stays well-formed when its entries keep their identity, layer and
/// activation.
pub proof fn lemma_same_shape_wf(s: Seq<SpaceEntry>, r: Seq<SpaceEntry>)
    requires
        stack_wf(s),
        r.len() == s.len(),
        forall|a: int|
            0 <= a < s.len() ==> (#[trigger] r[a]).element.surface == s[a].element.surface
                && r[a].element.is_override_redirect() == s[a].element.is_override_redirect()
                && r[a].element.activated == s[a].element.activated,
    ensures
        stack_wf(r),
        order(r) == order(s),
        forall|id: u64| mapped(r, id) <==> mapped(s, id),
        forall|id: u64| mapped(s, id) ==> index_of(r, id) == index_of(s, id),
{
    assert(order(r) =~= order(s));
    assert(distinct(r)) by {
        assert forall|a: int, b: int| 0 <= a < b < r.len() implies (#[trigger] r[a]).element.surface
            != (#[trigger] r[b]).element.surface by {
            assert(s[a].element.surface != s[b].element.surface);
        }
    }
    assert(layered(r)) by {
        assert forall|a: int, b: int|
            0 <= a < b < r.len() && (#[trigger] r[a]).element.is_override_redirect() implies (
        #[trigger] r[b]).element.is_override_redirect() by {
            assert(s[a].element.is_override_redirect() ==> s[b].element.is_override_redirect());
        }
    }
    assert(exclusive(r)) by {
        assert forall|a: int, b: int|
            0 <= a < r.len() && 0 <= b < r.len() && (#[trigger] r[a]).element.activated && (
            #[trigger] r[b]).element.activated implies a == b by {
            assert(s[a].element.activated && s[b].element.activated ==> a == b);
        }
    }
    assert(overrides_inactive(r)) by {
        assert forall|a: int|
            0 <= a < r.len() && (#[trigger] r[a]).element.is_override_redirect()
                implies !r[a].element.activated by {
            assert(s[a].element.is_override_redirect() ==> !s[a].element.activated);
        }
    }
    assert forall|id: u64| mapped(r, id) <==> mapped(s, id) by {
        if mapped(r, id) {
            let a = index_of(r, id);
            assert(s[a].element.surface == id);
        }
        if mapped(s, id) {
            let a = index_of(s, id);
            assert(r[a].element.surface == id);
        }
    }
    assert forall|id: u64| mapped(s, id) implies index_of(r, id) == index_of(s, id) by {
        let a = index_of(s, id);
        assert(r[a].element.surface == id);
        lemma_index_of(r, id, a);
    }
}

/// Where the origin of the window's main surface stands in the scene.
pub open spec fn render_location(e: SpaceEntry) -> Point {
    e.location.minus(e.element.geometry.loc)
}

/// The window's bounding box in the scene.
pub open spec fn bbox_in_space(e: SpaceEntry) -> Rectangle {
    e.element.bbox.shifted(render_location(e))
}

/// The window's geometry in the scene.
pub open spec fn geometry_in_space(e: SpaceEntry) -> Rectangle {
    Rectangle { loc: e.location, size: e.element.geometry.size }
}

/// The scene position `p` relative to the origin of the window's main surface.
pub open spec fn local_point(e: SpaceEntry, p: FixedPoint) -> FixedPoint {
    p.minus(FixedPoint::of_point(render_location(e)))
}

/// Whether the window takes input at the scene position `p`: it is alive and
/// ready for input, its bounding box holds `p`, and a surface of its tree
/// accepts input there.
pub open spec fn accepts(e: SpaceEntry, p: FixedPoint) -> bool {
    e.element.alive && e.element.mapped && bbox_in_space(e).contains_fixed(p)
        && e.element.in_input_region(local_point(e, p))
}

/// Index of the topmost entry that takes input at `p`, or -1.
pub open spec fn top_hit(s: Seq<SpaceEntry>, p: FixedPoint) -> int
    decreases s.len(),
{
    if s.len() == 0 {
        -1
    } else if accepts(s.last(), p) {
        s.len() - 1
    } else {
        top_hit(s.drop_last(), p)
    }
}

/// The window that takes input at `p`, with `p` relative to the origin of the
/// window's main surface.
pub open spec fn element_under_result(s: Seq<SpaceEntry>, p: FixedPoint) -> Option<
    (u64, FixedPoint),
> {
    let i = top_hit(s, p);
    if i >= 0 {
        Some((s[i].element.surface, local_point(s[i], p)))
    } else {
        None
    }
}

/// The stack without its destroyed windows.
pub open spec fn alive_only(s: Seq<SpaceEntry>) -> Seq<SpaceEntry>
    decreases s.len(),
{
    if s.len() == 0 {
        s
    } else if s[0].element.alive {
        seq![s[0]] + alive_only(s.drop_first())
    } else {
        alive_only(s.drop_first())
    }
}

/// The stack in which the window `id`, if mapped, is marked as destroyed.
pub open spec fn destroy_result(s: Seq<SpaceEntry>, id: u64) -> Seq<SpaceEntry> {
    let i = index_of(s, id);
    if mapped(s, id) {
        s.update(
            i,
            SpaceEntry {
                element: WindowElement { alive: false, ..s[i].element },
                location: s[i].location,
            },
        )
    } else {
        s
    }
}

/// The stack in which the window `id`, if it is there, is ready for input or
/// not, as `ready` says.
pub open spec fn ready_result(s: Seq<SpaceEntry>, id: u64, ready: bool) -> Seq<SpaceEntry> {
    let i = index_of(s, id);
    if mapped(s, id) {
        s.update(
            i,
            SpaceEntry {
                element: WindowElement { mapped: ready, ..s[i].element },
                location: s[i].location,
            },
        )
    } else {
        s
    }
}

/// The stack in which the window `element.surface`, if mapped, has taken the
/// committed attributes of `element`: everything but its kind, its activation
/// and its readiness for input, which stay as they are, like its position and
/// its place.
pub open spec fn update_result(s: Seq<SpaceEntry>, element: WindowElement) -> Seq<SpaceEntry> {
    let i = index_of(s, element.surface);
    if mapped(s, element.surface) {
        s.update(
            i,
            SpaceEntry {
                element: WindowElement {
                    kind: s[i].element.kind,
                    activated: s[i].element.activated,
                    mapped: s[i].element.mapped,
                    ..element
                },
                location: s[i].location,
            },
        )
    } else {
        s
    }
}

/// The window that is activated, if one is.
pub open spec fn active_of(s: Seq<SpaceEntry>) -> Option<u64> {
    if exists|i: int| 0 <= i < s.len() && (#[trigger] s[i]).element.activated {
        Some(s[choose|i: int| 0 <= i < s.len() && (#[trigger] s[i]).element.activated].element.surface)
    } else {
        None
    }
}

/// Whether the window `id` is mapped with nothing above it but
/// override-redirect windows of which it is not one: it is the top of its
/// layer.
pub open spec fn on_top(s: Seq<SpaceEntry>, id: u64) -> bool {
    mapped(s, id) && forall|j: int|
        index_of(s, id) < j < s.len() ==> (#[trigger] s[j]).element.is_override_redirect()
            && !s[index_of(s, id)].element.is_override_redirect()
}

/// Whether some entry of the stack is an override-redirect window.
pub open spec fn has_override(s: Seq<SpaceEntry>) -> bool {
    exists|i: int| 0 <= i < s.len() && (#[trigger] s[i]).element.is_override_redirect()
}

/// Whether a screen with identity `id` is among `o`.
pub open spec fn has_output(o: Seq<Output>, id: u64) -> bool {
    exists|i: int| 0 <= i < o.len() && (#[trigger] o[i]).id == id
}

/// Where the screen with identity `id` stands in `o` (meaningful where it is
/// there).
pub open spec fn output_index(o: Seq<Output>, id: u64) -> int {
    choose|i: int| 0 <= i < o.len() && (#[trigger] o[i]).id == id
}

/// The identities of the screens that overlap `bbox`, in mapping order.
pub open spec fn overlapping(o: Seq<Output>, bbox: Rectangle) -> Seq<u64>
    decreases o.len(),
{
    if o.len() == 0 {
        Seq::empty()
    } else if o.last().geometry.overlaps(bbox) {
        overlapping(o.drop_last(), bbox).push(o.last().id)
    } else {
        overlapping(o.drop_last(), bbox)
    }
}

/// The smallest rectangle around the screens that overlap `bbox`, if any
/// does.
pub open spec fn output_union(o: Seq<Output>, bbox: Rectangle) -> Option<Rectangle>
    decreases o.len(),
{
    if o.len() == 0 {
        None
    } else if o.last().geometry.overlaps(bbox) {
        match output_union(o.drop_last(), bbox) {
            Some(u) => Some(u.merged(o.last().geometry)),
            None => Some(o.last().geometry),
        }
    } else {
        output_union(o.drop_last(), bbox)
    }
}

/// `top_hit` names the topmost entry that takes input at `p`: that entry
/// accepts `p` and no entry above it does.
pub proof fn lemma_top_hit(s: Seq<SpaceEntry>, p: FixedPoint)
    ensures
        -1 <= top_hit(s, p) < s.len(),
        top_hit(s, p) >= 0 ==> accepts(s[top_hit(s, p)], p),
        forall|j: int| top_hit(s, p) < j < s.len() ==> !accepts(#[trigger] s[j], p),
    decreases s.len(),
{
    if s.len() > 0 && !accepts(s.last(), p) {
        let rest = s.drop_last();
        lemma_top_hit(rest, p);
        assert forall|j: int| top_hit(s, p) < j < s.len() implies !accepts(#[trigger] s[j], p) by {
            if j < s.len() - 1 {
                assert(s[j] == rest[j]);
            }
        }
    }
}

/// In a stack without duplicates, the screen with a given identity
/// determines its index.
pub proof fn lemma_output_index(o: Seq<Output>, id: u64, i: int)
    requires
        outputs_wf(o),
        0 <= i < o.len(),
        o[i].id == id,
    ensures
        has_output(o, id),
        output_index(o, id) == i,
{
    let j = output_index(o, id);
    assert(0 <= j < o.len() && o[j].id == id);
    if j < i {
        assert(o[j].id != o[i].id);
    }
    if i < j {
        assert(o[i].id != o[j].id);
    }
}

/// A new entry that was put on top of its layer stands there: only
/// override-redirect windows are above a managed one, and nothing is above an
/// override-redirect one.
pub proof fn lemma_placed_on_top(s: Seq<SpaceEntry>, e: SpaceEntry, k: int)
    requires
        stack_wf(s),
        is_boundary(s, k),
        !mapped(s, e.element.surface),
        e.element.activated ==> none_activated(s),
        e.element.is_override_redirect() ==> !e.element.activated,
    ensures
        on_top(placed(s, e), e.element.surface),
        placed(s, e)[index_of(placed(s, e), e.element.surface)] == e,
        e.element.is_override_redirect() || k == s.len() ==> placed(s, e).last() == e,
        forall|j: int|
            0 <= j < placed(s, e).len() && j != index_of(placed(s, e), e.element.surface) ==> (
            #[trigger] placed(s, e)[j]).element.activated == s[if j < index_of(
                placed(s, e),
                e.element.surface,
            ) {
                j
            } else {
                j - 1
            }].element.activated,
{
    lemma_placed_wf(s, e, k);
    let p = placed(s, e);
    let at = if e.element.is_override_redirect() { s.len() as int } else { k };
    assert(p =~= s.insert(at, e));
    assert(p[at] == e);
    lemma_index_of(p, e.element.surface, at);
    assert forall|j: int| at < j < p.len() implies (#[trigger] p[j]).element.is_override_redirect()
        && !p[at].element.is_override_redirect() by {
        assert(p[j] == s[j - 1]);
    }
    assert forall|j: int| 0 <= j < p.len() && j != at implies (#[trigger] p[j]).element.activated
        == s[if j < at { j } else { j - 1 }].element.activated by {}
}

/// What holds of the stack that a window is put on when it is mapped.
pub proof fn lemma_map_base(
    s: Seq<SpaceEntry>,
    element: WindowElement,
    location: Point,
    activate: bool,
)
    requires
        stack_wf(s),
    ensures
        stack_wf(map_base(s, element, activate)),
        !mapped(map_base(s, element, activate), element.surface),
        map_entry(s, element, location, activate).element.activated ==> none_activated(
            map_base(s, element, activate),
        ),
        forall|id: u64|
            mapped(map_base(s, element, activate), id) <==> (id != element.surface && mapped(
                s,
                id,
            )),
        !has_override(s) ==> !has_override(map_base(s, element, activate)),
{
    let id = element.surface;
    let was = mapped(s, id);
    let i = index_of(s, id);
    let rest = if was { s.remove(i) } else { s };
    if was {
        lemma_remove_wf(s, i);
    }
    lemma_deactivated_wf(rest);
    let base = map_base(s, element, activate);
    if !has_override(s) && has_override(base) {
        let j = choose|j: int| 0 <= j < base.len() && (#[trigger] base[j]).element.is_override_redirect();
        assert(rest[j].element.is_override_redirect());
        if was {
            assert(s[if j < i { j } else { j + 1 }].element.is_override_redirect());
        } else {
            assert(s[j].element.is_override_redirect());
        }
    }
}

/// Mapping a live window puts it on top of its layer and leaves the stack
/// well-formed, so that at most one window is activated afterwards. With
/// `activate`, a managed window is that window. The mapped window is the
/// topmost of all if it is an override-redirect window or if there is none.
pub proof fn lemma_map_result(
    s: Seq<SpaceEntry>,
    element: WindowElement,
    location: Point,
    activate: bool,
)
    requires
        stack_wf(s),
        element.alive,
    ensures
        stack_wf(map_result(s, element, location, activate)),
        exclusive(map_result(s, element, location, activate)),
        on_top(map_result(s, element, location, activate), element.surface),
        element.is_override_redirect() || !has_override(s) ==> map_result(
            s,
            element,
            location,
            activate,
        ).last().element.surface == element.surface,
        forall|id: u64|
            mapped(map_result(s, element, location, activate), id) <==> (id == element.surface
                || mapped(s, id)),
        activate && !element.is_override_redirect() ==> forall|j: int|
            0 <= j < map_result(s, element, location, activate).len() ==> ((#[trigger] map_result(
                s,
                element,
                location,
                activate,
            )[j]).element.activated <==> j == index_of(
                map_result(s, element, location, activate),
                element.surface,
            )),
{
    let base = map_base(s, element, activate);
    let e = map_entry(s, element, location, activate);
    lemma_map_base(s, element, location, activate);
    lemma_layered_has_boundary(base);
    let k = boundary(base);
    lemma_placed_wf(base, e, k);
    lemma_placed_on_top(base, e, k);
    let r = placed(base, e);
    if !has_override(s) && !element.is_override_redirect() {
        assert(k == base.len()) by {
            if k < base.len() {
                assert(base[k].element.is_override_redirect());
            }
        }
    }
    if activate && !element.is_override_redirect() {
        let at = index_of(r, element.surface);
        assert forall|j: int| 0 <= j < r.len() implies ((#[trigger] r[j]).element.activated <==> j
            == at) by {
            if j != at {
                assert(!base[if j < at { j } else { j - 1 }].element.activated);
            }
        }
    }
}

/// Raising a mapped, live window puts it on top of its layer and leaves the
/// stack well-formed, so that at most one window is activated afterwards. The
/// same windows are mapped as before.
pub proof fn lemma_raise_result(s: Seq<SpaceEntry>, id: u64, activate: bool)
    requires
        stack_wf(s),
    ensures
        stack_wf(raise_result(s, id, activate)),
        exclusive(raise_result(s, id, activate)),
        mapped(s, id) && s[index_of(s, id)].element.alive ==> on_top(
            raise_result(s, id, activate),
            id,
        ),
        forall|other: u64| mapped(raise_result(s, id, activate), other) <==> mapped(s, other),
        raise_result(s, id, activate).len() == s.len(),
{
    let i = index_of(s, id);
    if mapped(s, id) && s[i].element.alive {
        lemma_remove_wf(s, i);
        let rest = s.remove(i);
        lemma_deactivated_wf(rest);
        let act = activate && !s[i].element.is_override_redirect();
        let base = if act { deactivated(rest) } else { rest };
        let e = if act { with_activation(s[i], true) } else { s[i] };
        lemma_layered_has_boundary(base);
        let k = boundary(base);
        lemma_placed_wf(base, e, k);
        let r = placed(base, e);
        assert(r == raise_result(s, id, activate));
        let at = if e.element.is_override_redirect() { base.len() as int } else { k };
        assert(r[at] == e);
        lemma_index_of(r, id, at);
    }
}

/// Every layered stack has a boundary between its two layers.
pub proof fn lemma_layered_has_boundary(s: Seq<SpaceEntry>)
    requires
        layered(s),
    ensures
        is_boundary(s, boundary(s)),
    decreases s.len(),
{
    if s.len() == 0 {
        assert(is_boundary(s, 0));
    } else if s.last().element.is_override_redirect() {
        let rest = s.drop_last();
        assert forall|a: int, b: int|
            0 <= a < b < rest.len() && (#[trigger] rest[a]).element.is_override_redirect() implies (
        #[trigger] rest[b]).element.is_override_redirect() by {
            assert(s[a].element.is_override_redirect() ==> s[b].element.is_override_redirect());
        }
        lemma_layered_has_boundary(rest);
        let k = boundary(rest);
        assert(is_boundary(s, k)) by {
            assert forall|i: int| 0 <= i < k implies !(#[trigger] s[i]).element.is_override_redirect() by {
                assert(s[i] == rest[i]);
            }
            assert forall|i: int| k <= i < s.len() implies (#[trigger] s[i]).element.is_override_redirect() by {
                if i < rest.len() {
                    assert(s[i] == rest[i]);
                }
            }
        }
    } else {
        assert(is_boundary(s, s.len() as int)) by {
            assert forall|i: int| 0 <= i < s.len() implies !(#[trigger] s[i]).element.is_override_redirect() by {
                if i < s.len() - 1 {
                    assert(s[i].element.is_override_redirect() ==> s[s.len() - 1].element.is_override_redirect());
                }
            }
        }
    }
}

/// Dropping the destroyed windows leaves only live ones, in their old order.
pub proof fn lemma_alive_only(s: Seq<SpaceEntry>)
    ensures
        alive_only(s).len() <= s.len(),
        forall|i: int| 0 <= i < alive_only(s).len() ==> (#[trigger] alive_only(s)[i]).element.alive,
        (forall|i: int| 0 <= i < s.len() ==> (#[trigger] s[i]).element.alive) ==> alive_only(s) == s,
    decreases s.len(),
{
    if s.len() > 0 {
        let rest = s.drop_first();
        lemma_alive_only(rest);
        if forall|i: int| 0 <= i < s.len() ==> (#[trigger] s[i]).element.alive {
            assert forall|i: int| 0 <= i < rest.len() implies (#[trigger] rest[i]).element.alive by {
                assert(rest[i] == s[i + 1]);
            }
            assert(seq![s[0]] + rest =~= s);
        }
    }
}

/// Dropping the destroyed windows leaves exactly the live windows mapped.
pub proof fn lemma_alive_only_mapped(s: Seq<SpaceEntry>, id: u64)
    requires
        distinct(s),
    ensures
        mapped(alive_only(s), id) <==> (mapped(s, id) && s[index_of(s, id)].element.alive),
    decreases s.len(),
{
    if s.len() > 0 {
        let rest = s.drop_first();
        let r = alive_only(s);
        let rr = alive_only(rest);
        assert(distinct(rest)) by {
            assert forall|a: int, b: int| 0 <= a < b < rest.len() implies (
            #[trigger] rest[a]).element.surface != (#[trigger] rest[b]).element.surface by {
                assert(s[a + 1].element.surface != s[b + 1].element.surface);
            }
        }
        lemma_alive_only_mapped(rest, id);
        let shift = if s[0].element.alive { 1int } else { 0int };
        if s[0].element.alive {
            assert(r =~= seq![s[0]] + rr);
        } else {
            assert(r == rr);
        }
        if mapped(r, id) {
            let j = index_of(r, id);
            if j < shift {
                lemma_index_of(s, id, 0);
            } else {
                assert(rr[j - shift].element.surface == id);
                let e = index_of(rest, id);
                assert(mapped(rest, id) && rest[e].element.alive);
                assert(s[e + 1] == rest[e]);
                lemma_index_of(s, id, e + 1);
            }
        }
        if mapped(s, id) && s[index_of(s, id)].element.alive {
            let i = index_of(s, id);
            if i == 0 {
                assert(r[0].element.surface == id);
            } else {
                assert(rest[i - 1] == s[i]);
                lemma_index_of(rest, id, i - 1);
                assert(mapped(rr, id));
                let e = index_of(rr, id);
                assert(r[e + shift] == rr[e]);
            }
        }
    } else {
        assert(!mapped(s, id));
    }
}

impl SpaceEntry {
    /// Where the origin of the window's main surface stands in the scene.
    pub fn render_location(&self) -> (p: Point)
        ensures
            p == render_location(*self),
    {
        self.location.sub(self.element.geometry.loc)
    }

    /// The window's bounding box in the scene.
    pub fn bbox(&self) -> (r: Rectangle)
        ensures
            r == bbox_in_space(*self),
    {
        self.element.bbox.shift(self.render_location())
    }

    /// The window's geometry in the scene.
    pub fn geometry(&self) -> (r: Rectangle)
        ensures
            r == geometry_in_space(*self),
    {
        Rectangle { loc: self.location, size: self.element.geometry.size }
    }

    /// The scene position `p` relative to the origin of the window's main
    /// surface.
    pub fn local_point(&self, p: FixedPoint) -> (r: FixedPoint)
        ensures
            r == local_point(*self, p),
    {
        p.sub(FixedPoint::from_point(self.render_location()))
    }

    /// Whether the window takes input at the scene position `p`.
    pub fn accepts(&self, p: FixedPoint) -> (b: bool)
        ensures
            b == accepts(*self, p),
    {
        if !self.element.alive || !self.element.mapped {
            return false;
        }
        if !self.bbox().contains_fixed_point(p) {
            return false;
        }
        self.element.surface_under(self.local_point(p)).is_some()
    }
}

impl Space {
    /// The windows of the scene, bottom to top.
    pub closed spec fn view(&self) -> Seq<SpaceEntry> {
        self.entries@
    }

    /// The screens of the scene, in the order in which they were mapped.
    pub closed spec fn screens(&self) -> Seq<Output> {
        self.outputs@
    }

    /// What holds of every scene: see [`stack_wf`] and [`outputs_wf`].
    pub open spec fn wf(&self) -> bool {
        stack_wf(self@) && outputs_wf(self.screens())
    }

    /// An empty scene.
    pub fn new() -> (s: Space)
        ensures
            s.wf(),
            s@ == Seq::<SpaceEntry>::empty(),
            s.screens() == Seq::<Output>::empty(),
    {
        Space { entries: Vec::new(), outputs: Vec::new() }
    }

    /// Number of mapped windows.
    pub fn len(&self) -> (n: usize)
        ensures
            n == self@.len(),
    {
        self.entries.len()
    }

    /// The `i`-th window from the bottom.
    pub fn entry(&self, i: usize) -> (e: &SpaceEntry)
        requires
            i < self@.len(),
        ensures
            *e == self@[i as int],
    {
        &self.entries[i]
    }

    /// Index of the window `id`, if it is mapped.
    pub fn position(&self, id: u64) -> (r: Option<usize>)
        requires
            self.wf(),
        ensures
            r.is_some() == mapped(self@, id),
            r.is_some() ==> r.unwrap() == index_of(self@, id) && r.unwrap() < self@.len()
                && self@[r.unwrap() as int].element.surface == id,
    {
        let mut i: usize = 0;
        while i < self.entries.len()
            invariant
                i <= self.entries@.len(),
                distinct(self.entries@),
                forall|j: int| 0 <= j < i ==> (#[trigger] self.entries@[j]).element.surface != id,
            decreases self.entries@.len() - i,
        {
            if self.entries[i].element.surface == id {
                proof {
                    lemma_index_of(self.entries@, id, i as int);
                }
                return Some(i);
            }
            i += 1;
        }
        None
    }

    /// Number of managed windows: the index just above the topmost of them.
    fn managed_len(&self) -> (k: usize)
        requires
            layered(self.entries@),
        ensures
            is_boundary(self.entries@, k as int),
            k == boundary(self.entries@),
    {
        let mut i: usize = 0;
        while i < self.entries.len() && !self.entries[i].element.override_redirect()
            invariant
                i <= self.entries@.len(),
                forall|j: int|
                    0 <= j < i ==> !(#[trigger] self.entries@[j]).element.is_override_redirect(),
            decreases self.entries@.len() - i,
        {
            i += 1;
        }
        proof {
            assert forall|j: int| i <= j < self.entries@.len() implies (
            #[trigger] self.entries@[j]).element.is_override_redirect() by {
                if j > i {
                    assert(self.entries@[i as int].element.is_override_redirect());
                }
            }
            lemma_boundary(self.entries@, i as int);
        }
        i
    }

    /// Clears the activation of every window.
    pub fn deactivate_all(&mut self)
        requires
            old(self).wf(),
        ensures
            final(self).wf(),
            final(self)@ == deactivated(old(self)@),
            final(self).screens() == old(self).screens(),
    {
        let mut i: usize = 0;
        while i < self.entries.len()
            invariant
                self.entries@.len() == old(self).entries@.len(),
                self.outputs == old(self).outputs,
                i <= self.entries@.len(),
                forall|j: int|
                    0 <= j < i ==> self.entries@[j] == with_activation(old(self).entries@[j], false),
                forall|j: int| i <= j < self.entries@.len() ==> self.entries@[j] == old(
                    self,
                ).entries@[j],
            decreases self.entries@.len() - i,
        {
            self.entries[i].element.activated = false;
            i += 1;
        }
        proof {
            assert(self.entries@ =~= deactivated(old(self).entries@));
            lemma_deactivated_wf(old(self).entries@);
        }
    }

    /// Puts `entry` on top of its layer.
    fn place(&mut self, entry: SpaceEntry)
        requires
            stack_wf(old(self).entries@),
            !mapped(old(self).entries@, entry.element.surface),
            entry.element.activated ==> none_activated(old(self).entries@),
            entry.element.is_override_redirect() ==> !entry.element.activated,
        ensures
            final(self).entries@ == placed(old(self).entries@, entry),
            stack_wf(final(self).entries@),
            final(self).outputs == old(self).outputs,
            forall|id: u64|
                mapped(final(self).entries@, id) <==> (id == entry.element.surface || mapped(
                    old(self).entries@,
                    id,
                )),
    {
        let k = self.managed_len();
        proof {
            lemma_placed_wf(self.entries@, entry, k as int);
        }
        if entry.element.override_redirect() {
            self.entries.push(entry);
        } else {
            self.entries.insert(k, entry);
        }
    }

    /// Maps `element` at `location` and puts it on top of its layer; a window
    /// that is already mapped is moved there and takes the attributes of
    /// `element`. With `activate`, a managed window becomes the only
    /// activated one. A destroyed window is ignored.
    pub fn map_element(&mut self, element: WindowElement, location: Point, activate: bool)
        requires
            old(self).wf(),
        ensures
            final(self).wf(),
            final(self)@ == map_result(old(self)@, element, location, activate),
            final(self).screens() == old(self).screens(),
    {
        if !element.alive {
            return ;
        }
        let mut element = element;
        let managed = !element.override_redirect();
        let mut prior = false;
        match self.position(element.surface) {
            Some(i) => {
                proof {
                    lemma_remove_wf(self.entries@, i as int);
                }
                let previous = self.entries.remove(i);
                prior = previous.element.activated;
            },
            None => {},
        }
        if activate && managed {
            proof {
                lemma_deactivated_wf(self.entries@);
            }
            self.deactivate_all();
        }
        element.activated = managed && (activate || prior);
        self.place(SpaceEntry { element, location });
    }

    /// Moves the window `id` to the top of its layer; with `activate`, a
    /// managed window becomes the only activated one. Nothing happens unless
    /// the window is mapped and alive.
    pub fn raise_element(&mut self, id: u64, activate: bool)
        requires
            old(self).wf(),
        ensures
            final(self).wf(),
            final(self)@ == raise_result(old(self)@, id, activate),
            final(self).screens() == old(self).screens(),
    {
        match self.position(id) {
            Some(i) => {
                if !self.entries[i].element.alive {
                    return ;
                }
                proof {
                    lemma_remove_wf(self.entries@, i as int);
                }
                let mut entry = self.entries.remove(i);
                if activate && !entry.element.override_redirect() {
                    proof {
                        lemma_deactivated_wf(self.entries@);
                    }
                    self.deactivate_all();
                    entry.element.activated = true;
                }
                self.place(entry);
            },
            None => {},
        }
    }

    /// Takes the window `id` out of the scene, if it is there.
    pub fn unmap_elem(&mut self, id: u64)
        requires
            old(self).wf(),
        ensures
            final(self).wf(),
            final(self)@ == unmap_result(old(self)@, id),
            final(self).screens() == old(self).screens(),
            !mapped(final(self)@, id),
    {
        match self.position(id) {
            Some(i) => {
                proof {
                    lemma_remove_wf(self.entries@, i as int);
                }
                self.entries.remove(i);
            },
            None => {},
        }
    }

    /// Takes the window `id` out of the scene and hands its entry over, if it
    /// is there.
    pub fn take(&mut self, id: u64) -> (r: Option<SpaceEntry>)
        requires
            old(self).wf(),
        ensures
            final(self).wf(),
            final(self)@ == unmap_result(old(self)@, id),
            final(self).screens() == old(self).screens(),
            r == (if mapped(old(self)@, id) {
                Some(old(self)@[index_of(old(self)@, id)])
            } else {
                None
            }),
            !mapped(final(self)@, id),
    {
        match self.position(id) {
            Some(i) => {
                proof {
                    lemma_remove_wf(self.entries@, i as int);
                }
                Some(self.entries.remove(i))
            },
            None => None,
        }
    }

    /// Moves the window `id` to `location` without touching the stacking
    /// order or any activation. Nothing happens unless the window is mapped
    /// and alive.
    pub fn relocate(&mut self, id: u64, location: Point)
        requires
            old(self).wf(),
        ensures
            final(self).wf(),
            final(self)@ == relocate_result(old(self)@, id, location),
            final(self).screens() == old(self).screens(),
            order(final(self)@) == order(old(self)@),
    {
        match self.position(id) {
            Some(i) => {
                if self.entries[i].element.alive {
                    self.entries[i].location = location;
                    proof {
                        let s = old(self).entries@;
                        assert(self.entries@ =~= s.update(
                            i as int,
                            SpaceEntry { element: s[i as int].element, location },
                        ));
                        lemma_same_shape_wf(s, self.entries@);
                    }
                }
            },
            None => {},
        }
    }

    /// The window that is activated, if one is.
    pub fn activated(&self) -> (r: Option<u64>)
        requires
            self.wf(),
        ensures
            r == active_of(self@),
            r.is_some() ==> mapped(self@, r.unwrap()) && self@[index_of(
                self@,
                r.unwrap(),
            )].element.activated,
    {
        let mut i: usize = 0;
        while i < self.entries.len()
            invariant
                i <= self.entries@.len(),
                stack_wf(self.entries@),
                forall|j: int| 0 <= j < i ==> !(#[trigger] self.entries@[j]).element.activated,
            decreases self.entries@.len() - i,
        {
            if self.entries[i].element.activated {
                proof {
                    let s = self.entries@;
                    let j = choose|j: int| 0 <= j < s.len() && (#[trigger] s[j]).element.activated;
                    assert(s[i as int].element.activated && s[j].element.activated ==> i == j);
                    lemma_index_of(s, s[i as int].element.surface, i as int);
                }
                return Some(self.entries[i].element.surface);
            }
            i += 1;
        }
        None
    }

    /// The topmost window that takes input at the scene position `p`, with
    /// `p` relative to the origin of the window's main surface.
    pub fn element_under(&self, p: FixedPoint) -> (r: Option<(u64, FixedPoint)>)
        ensures
            r == element_under_result(self@, p),
            r.is_some() ==> mapped(self@, r.unwrap().0),
    {
        let mut i: usize = self.entries.len();
        assert(self.entries@.subrange(0, i as int) =~= self.entries@);
        while i > 0
            invariant
                i <= self.entries@.len(),
                top_hit(self.entries@, p) == top_hit(self.entries@.subrange(0, i as int), p),
            decreases i,
        {
            let ghost front = self.entries@.subrange(0, i as int);
            i -= 1;
            assert(front.last() == self.entries@[i as int]);
            assert(front.drop_last() =~= self.entries@.subrange(0, i as int));
            if self.entries[i].accepts(p) {
                return Some((self.entries[i].element.surface, self.entries[i].local_point(p)));
            }
        }
        None
    }

    /// The record of the window `id`, if it is mapped.
    pub fn element(&self, id: u64) -> (r: Option<&SpaceEntry>)
        requires
            self.wf(),
        ensures
            r.is_some() == mapped(self@, id),
            r.is_some() ==> *r.unwrap() == self@[index_of(self@, id)],
    {
        match self.position(id) {
            Some(i) => Some(&self.entries[i]),
            None => None,
        }
    }

    /// Whether the window `id` is mapped and alive.
    pub fn alive(&self, id: u64) -> (b: bool)
        requires
            self.wf(),
        ensures
            b == (mapped(self@, id) && self@[index_of(self@, id)].element.alive),
    {
        match self.position(id) {
            Some(i) => self.entries[i].element.alive,
            None => false,
        }
    }

    /// Where the geometry of the window `id` stands in the scene.
    pub fn element_location(&self, id: u64) -> (r: Option<Point>)
        requires
            self.wf(),
        ensures
            r == (if mapped(self@, id) {
                Some(self@[index_of(self@, id)].location)
            } else {
                None
            }),
    {
        match self.position(id) {
            Some(i) => Some(self.entries[i].location),
            None => None,
        }
    }

    /// The geometry of the window `id` in the scene.
    pub fn element_geometry(&self, id: u64) -> (r: Option<Rectangle>)
        requires
            self.wf(),
        ensures
            r == (if mapped(self@, id) {
                Some(geometry_in_space(self@[index_of(self@, id)]))
            } else {
                None
            }),
    {
        match self.position(id) {
            Some(i) => Some(self.entries[i].geometry()),
            None => None,
        }
    }

    /// The bounding box of the window `id` in the scene.
    pub fn element_bbox(&self, id: u64) -> (r: Option<Rectangle>)
        requires
            self.wf(),
        ensures
            r == (if mapped(self@, id) {
                Some(bbox_in_space(self@[index_of(self@, id)]))
            } else {
                None
            }),
    {
        match self.position(id) {
            Some(i) => Some(self.entries[i].bbox()),
            None => None,
        }
    }

    /// Marks the window `id` as destroyed. It stays in the stack until the
    /// next [`Space::refresh`], but takes no more input and no operation
    /// moves it.
    pub fn destroy(&mut self, id: u64)
        requires
            old(self).wf(),
        ensures
            final(self).wf(),
            final(self)@ == destroy_result(old(self)@, id),
            final(self).screens() == old(self).screens(),
    {
        match self.position(id) {
            Some(i) => {
                self.entries[i].element.alive = false;
                proof {
                    let s = old(self).entries@;
                    assert(self.entries@ =~= destroy_result(s, id));
                    lemma_same_shape_wf(s, self.entries@);
                }
            },
            None => {},
        }
    }

    /// Says whether the window `id` is ready for input.
    pub fn set_mapped(&mut self, id: u64, ready: bool)
        requires
            old(self).wf(),
        ensures
            final(self).wf(),
            final(self)@ == ready_result(old(self)@, id, ready),
            final(self).screens() == old(self).screens(),
    {
        match self.position(id) {
            Some(i) => {
                self.entries[i].element.mapped = ready;
                proof {
                    let s = old(self).entries@;
                    assert(self.entries@ =~= ready_result(s, id, ready));
                    lemma_same_shape_wf(s, self.entries@);
                }
            },
            None => {},
        }
    }

    /// Records what the window `element.surface` committed: it takes the
    /// attributes of `element` but keeps its kind, its activation, its
    /// readiness for input, its position and its place in the stack.
    pub fn update_element(&mut self, element: WindowElement)
        requires
            old(self).wf(),
        ensures
            final(self).wf(),
            final(self)@ == update_result(old(self)@, element),
            final(self).screens() == old(self).screens(),
    {
        match self.position(element.surface) {
            Some(i) => {
                let mut element = element;
                element.kind = self.entries[i].element.kind;
                element.activated = self.entries[i].element.activated;
                element.mapped = self.entries[i].element.mapped;
                self.entries[i].element = element;
                proof {
                    let s = old(self).entries@;
                    assert(self.entries@ =~= update_result(s, element));
                    lemma_same_shape_wf(s, self.entries@);
                }
            },
            None => {},
        }
    }

    /// Drops the destroyed windows from the scene.
    pub fn refresh(&mut self)
        requires
            old(self).wf(),
        ensures
            final(self).wf(),
            final(self)@ == alive_only(old(self)@),
            final(self).screens() == old(self).screens(),
            forall|i: int| 0 <= i < final(self)@.len() ==> (#[trigger] final(self)@[i]).element.alive,
    {
        let mut i: usize = 0;
        assert(self.entries@.subrange(0, 0) + alive_only(
            self.entries@.subrange(0, self.entries@.len() as int),
        ) =~= alive_only(self.entries@)) by {
            assert(self.entries@.subrange(0, self.entries@.len() as int) =~= self.entries@);
        }
        while i < self.entries.len()
            invariant
                i <= self.entries@.len(),
                self.outputs == old(self).outputs,
                stack_wf(self.entries@),
                forall|j: int| 0 <= j < i ==> (#[trigger] self.entries@[j]).element.alive,
                alive_only(old(self).entries@) == self.entries@.subrange(0, i as int) + alive_only(
                    self.entries@.subrange(i as int, self.entries@.len() as int),
                ),
            decreases self.entries@.len() - i,
        {
            let ghost before = self.entries@;
            let ghost tail = before.subrange(i as int, before.len() as int);
            assert(tail[0] == before[i as int]);
            assert(tail.drop_first() =~= before.subrange(i + 1, before.len() as int));
            if self.entries[i].element.alive {
                assert(before.subrange(0, i + 1) =~= before.subrange(0, i as int) + seq![
                    before[i as int],
                ]);
                assert(before.subrange(0, i as int) + (seq![before[i as int]] + alive_only(
                    tail.drop_first(),
                )) =~= before.subrange(0, i + 1) + alive_only(tail.drop_first()));
                i += 1;
            } else {
                proof {
                    lemma_remove_wf(before, i as int);
                }
                self.entries.remove(i);
                assert(self.entries@.subrange(0, i as int) =~= before.subrange(0, i as int));
                assert(self.entries@.subrange(i as int, self.entries@.len() as int)
                    =~= tail.drop_first());
            }
        }
        assert(self.entries@.subrange(i as int, self.entries@.len() as int).len() == 0);
        assert(self.entries@.subrange(0, i as int) =~= self.entries@);
        assert(self.entries@ + Seq::<SpaceEntry>::empty() =~= self.entries@);
    }

    /// Index of the screen `id`, if it is mapped.
    fn output_position(&self, id: u64) -> (r: Option<usize>)
        requires
            outputs_wf(self.outputs@),
        ensures
            r.is_some() == has_output(self.outputs@, id),
            r.is_some() ==> r.unwrap() == output_index(self.outputs@, id) && r.unwrap()
                < self.outputs@.len() && self.outputs@[r.unwrap() as int].id == id,
    {
        let mut i: usize = 0;
        while i < self.outputs.len()
            invariant
                i <= self.outputs@.len(),
                outputs_wf(self.outputs@),
                forall|j: int| 0 <= j < i ==> (#[trigger] self.outputs@[j]).id != id,
            decreases self.outputs@.len() - i,
        {
            if self.outputs[i].id == id {
                proof {
                    lemma_output_index(self.outputs@, id, i as int);
                }
                return Some(i);
            }
            i += 1;
        }
        None
    }

    /// Maps the screen `id` with the given geometry; a screen that is
    /// already mapped takes the new geometry and keeps its place.
    pub fn map_output(&mut self, id: u64, geometry: Rectangle)
        requires
            old(self).wf(),
        ensures
            final(self).wf(),
            final(self)@ == old(self)@,
            final(self).screens() == (if has_output(old(self).screens(), id) {
                old(self).screens().update(
                    output_index(old(self).screens(), id),
                    Output { id, geometry },
                )
            } else {
                old(self).screens().push(Output { id, geometry })
            }),
            has_output(final(self).screens(), id),
    {
        match self.output_position(id) {
            Some(i) => {
                self.outputs.set(i, Output { id, geometry });
                proof {
                    lemma_output_index(self.outputs@, id, i as int);
                }
            },
            None => {
                self.outputs.push(Output { id, geometry });
                proof {
                    lemma_output_index(self.outputs@, id, self.outputs@.len() - 1);
                }
            },
        }
    }

    /// Takes the screen `id` out of the scene, if it is there.
    pub fn unmap_output(&mut self, id: u64)
        requires
            old(self).wf(),
        ensures
            final(self).wf(),
            final(self)@ == old(self)@,
            final(self).screens() == (if has_output(old(self).screens(), id) {
                old(self).screens().remove(output_index(old(self).screens(), id))
            } else {
                old(self).screens()
            }),
    {
        match self.output_position(id) {
            Some(i) => {
                self.outputs.remove(i);
            },
            None => {},
        }
    }

    /// Number of mapped screens.
    pub fn output_count(&self) -> (n: usize)
        ensures
            n == self.screens().len(),
    {
        self.outputs.len()
    }

    /// The `i`-th screen in mapping order.
    pub fn output(&self, i: usize) -> (o: Output)
        requires
            i < self.screens().len(),
        ensures
            o == self.screens()[i as int],
    {
        self.outputs[i]
    }

    /// The part of the scene that the screen `id` shows.
    pub fn output_geometry(&self, id: u64) -> (r: Option<Rectangle>)
        requires
            self.wf(),
        ensures
            r == (if has_output(self.screens(), id) {
                Some(self.screens()[output_index(self.screens(), id)].geometry)
            } else {
                None
            }),
    {
        match self.output_position(id) {
            Some(i) => Some(self.outputs[i].geometry),
            None => None,
        }
    }

    /// The screens that the bounding box of the window `id` overlaps, in
    /// mapping order; none for a window that is not mapped.
    pub fn outputs_for_element(&self, id: u64) -> (r: Vec<u64>)
        requires
            self.wf(),
        ensures
            r@ == (if mapped(self@, id) {
                overlapping(self.screens(), bbox_in_space(self@[index_of(self@, id)]))
            } else {
                Seq::empty()
            }),
    {
        let mut found: Vec<u64> = Vec::new();
        match self.position(id) {
            Some(at) => {
                let bbox = self.entries[at].bbox();
                let mut i: usize = 0;
                assert(self.outputs@.subrange(0, 0) =~= Seq::<Output>::empty());
                while i < self.outputs.len()
                    invariant
                        i <= self.outputs@.len(),
                        found@ == overlapping(self.outputs@.subrange(0, i as int), bbox),
                    decreases self.outputs@.len() - i,
                {
                    let ghost upto = self.outputs@.subrange(0, i + 1);
                    assert(upto.last() == self.outputs@[i as int]);
                    assert(upto.drop_last() =~= self.outputs@.subrange(0, i as int));
                    if self.outputs[i].geometry.overlaps_with(&bbox) {
                        found.push(self.outputs[i].id);
                    }
                    i += 1;
                }
                assert(self.outputs@.subrange(0, i as int) =~= self.outputs@);
            },
            None => {},
        }
        found
    }

    /// The smallest rectangle around the screens that the bounding box of the
    /// window `id` overlaps, if the window is mapped and overlaps any.
    pub fn visible_region(&self, id: u64) -> (r: Option<Rectangle>)
        requires
            self.wf(),
        ensures
            r == (if mapped(self@, id) {
                output_union(self.screens(), bbox_in_space(self@[index_of(self@, id)]))
            } else {
                None
            }),
    {
        match self.position(id) {
            Some(at) => {
                let bbox = self.entries[at].bbox();
                let mut union: Option<Rectangle> = None;
                let mut i: usize = 0;
                assert(self.outputs@.subrange(0, 0) =~= Seq::<Output>::empty());
                while i < self.outputs.len()
                    invariant
                        i <= self.outputs@.len(),
                        union == output_union(self.outputs@.subrange(0, i as int), bbox),
                    decreases self.outputs@.len() - i,
                {
                    let ghost upto = self.outputs@.subrange(0, i + 1);
                    assert(upto.last() == self.outputs@[i as int]);
                    assert(upto.drop_last() =~= self.outputs@.subrange(0, i as int));
                    if self.outputs[i].geometry.overlaps_with(&bbox) {
                        union = match union {
                            Some(u) => Some(u.merge(&self.outputs[i].geometry)),
                            None => Some(self.outputs[i].geometry),
                        };
                    }
                    i += 1;
                }
                assert(self.outputs@.subrange(0, i as int) =~= self.outputs@);
                union
            },
            None => None,
        }
    }

    /// The smallest rectangle around the screens that the bounding box of the
    /// window `id` overlaps; the empty rectangle at the origin if there is
    /// none or the window is not mapped.
    pub fn output_geometry_union(&self, id: u64) -> (r: Rectangle)
        requires
            self.wf(),
        ensures
            r == (if mapped(self@, id) {
                match output_union(self.screens(), bbox_in_space(self@[index_of(self@, id)])) {
                    Some(u) => u,
                    None => Rectangle::zero_rect(),
                }
            } else {
                Rectangle::zero_rect()
            }),
    {
        match self.visible_region(id) {
            Some(u) => u,
            None => Rectangle::zero(),
        }
    }
}

/// No two screens share an identity.
pub open spec fn outputs_wf(o: Seq<Output>) -> bool {
    forall|i: int, j: int| 0 <= i < j < o.len() ==> (#[trigger] o[i]).id != (#[trigger] o[j]).id
}

} // verus!
