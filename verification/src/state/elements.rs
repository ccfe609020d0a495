//! Windows as the scene sees them: one record for a native toplevel and for a
//! window bridged from the legacy protocol alike.
use crate::geometry::{FixedPoint, Point, Rectangle, Size};
use vstd::prelude::*;

verus! {

/// The two kinds of window behind a [`WindowElement`].
#[derive(Clone, Copy, PartialEq, Eq, Structural, Debug)]
pub enum WindowKind {
    /// A toplevel of a native client.
    Wayland,
    /// A window of the legacy protocol. An override-redirect window places
    /// itself: it is stacked above every managed window and is never
    /// activated.
    X11 { override_redirect: bool },
}

/// A rectangle in which a surface of a window's surface tree accepts input.
/// A surface whose input region is no rectangle has several of them.
#[derive(Clone, Copy, PartialEq, Eq, Structural, Debug)]
pub struct SurfaceRegion {
    /// The surface that takes the input.
    pub surface: u64,
    /// Where the surface stands, relative to the origin of the window's main
    /// surface.
    pub origin: Point,
    /// Where it accepts input, relative to the origin of the window's main
    /// surface.
    pub region: Rectangle,
}

/// A window. It is identified by `surface`, the one protocol surface that
/// backs it.
#[derive(Clone, Debug)]
pub struct WindowElement {
    /// Identity of the window: its main surface.
    pub surface: u64,
    /// The client that owns the surface.
    pub client: u64,
    pub kind: WindowKind,
    /// The part of the main surface that counts as the window proper.
    pub geometry: Rectangle,
    /// Bounding box of the whole surface tree, relative to the origin of the
    /// main surface.
    pub bbox: Rectangle,
    /// The surfaces of the tree that accept input, topmost first.
    pub tree: Vec<SurfaceRegion>,
    pub activated: bool,
    /// Whether the window is ready for input: a native toplevel once a commit
    /// has acknowledged its first configure, a window of the legacy protocol
    /// once it was asked to be mapped.
    pub mapped: bool,
    /// Whether the backing surface still exists.
    pub alive: bool,
    /// Smallest size the client accepts; 0 leaves a dimension unbounded.
    pub min_size: Size,
    /// Largest size the client accepts; 0 leaves a dimension unbounded.
    pub max_size: Size,
}

/// Index of the first region of `tree` that holds `point`, or the length of
/// `tree` if none does.
pub open spec fn first_hit(tree: Seq<SurfaceRegion>, point: FixedPoint) -> int
    decreases tree.len(),
{
    if tree.len() == 0 {
        0
    } else if tree[0].region.contains_fixed(point) {
        0
    } else {
        1 + first_hit(tree.drop_first(), point)
    }
}

/// `first_hit` is the least index whose region holds the point.
pub proof fn lemma_first_hit(tree: Seq<SurfaceRegion>, point: FixedPoint)
    ensures
        0 <= first_hit(tree, point) <= tree.len(),
        first_hit(tree, point) < tree.len() ==> tree[first_hit(tree, point)].region.contains_fixed(
            point,
        ),
        forall|i: int|
            0 <= i < first_hit(tree, point) ==> !(#[trigger] tree[i]).region.contains_fixed(point),
    decreases tree.len(),
{
    if tree.len() > 0 && !tree[0].region.contains_fixed(point) {
        let rest = tree.drop_first();
        lemma_first_hit(rest, point);
        assert forall|i: int| 0 <= i < first_hit(tree, point) implies !(#[trigger] tree[i])
            .region.contains_fixed(point) by {
            if i > 0 {
                assert(tree[i] == rest[i - 1]);
            }
        }
    }
}

impl WindowElement {
    /// A live, inactive window of a native client whose only surface covers
    /// `size` from its origin. It is not ready for input yet.
    pub fn new_wayland_window(surface: u64, client: u64, size: Size) -> (w: WindowElement)
        ensures
            w.surface == surface,
            w.client == client,
            w.kind == WindowKind::Wayland,
            w.geometry == (Rectangle { loc: Point { x: 0, y: 0 }, size }),
            w.bbox == w.geometry,
            w.tree@ == seq![
                SurfaceRegion { surface, origin: Point { x: 0, y: 0 }, region: w.geometry },
            ],
            !w.activated,
            !w.mapped,
            w.alive,
            w.min_size == (Size { w: 0, h: 0 }),
            w.max_size == (Size { w: 0, h: 0 }),
    {
        let geometry = Rectangle { loc: Point { x: 0, y: 0 }, size };
        let mut tree: Vec<SurfaceRegion> = Vec::new();
        tree.push(SurfaceRegion { surface, origin: Point { x: 0, y: 0 }, region: geometry });
        WindowElement {
            surface,
            client,
            kind: WindowKind::Wayland,
            geometry,
            bbox: geometry,
            tree,
            activated: false,
            mapped: false,
            alive: true,
            min_size: Size { w: 0, h: 0 },
            max_size: Size { w: 0, h: 0 },
        }
    }

    /// A live, inactive window of the legacy protocol whose only surface
    /// covers `size` from its origin. It is not ready for input yet.
    pub fn new_x11_window(surface: u64, client: u64, size: Size, override_redirect: bool) -> (w:
        WindowElement)
        ensures
            w.surface == surface,
            w.client == client,
            w.kind == (WindowKind::X11 { override_redirect }),
            w.geometry == (Rectangle { loc: Point { x: 0, y: 0 }, size }),
            w.bbox == w.geometry,
            w.tree@ == seq![
                SurfaceRegion { surface, origin: Point { x: 0, y: 0 }, region: w.geometry },
            ],
            !w.activated,
            !w.mapped,
            w.alive,
            w.min_size == (Size { w: 0, h: 0 }),
            w.max_size == (Size { w: 0, h: 0 }),
    {
        let geometry = Rectangle { loc: Point { x: 0, y: 0 }, size };
        let mut tree: Vec<SurfaceRegion> = Vec::new();
        tree.push(SurfaceRegion { surface, origin: Point { x: 0, y: 0 }, region: geometry });
        WindowElement {
            surface,
            client,
            kind: WindowKind::X11 { override_redirect },
            geometry,
            bbox: geometry,
            tree,
            activated: false,
            mapped: false,
            alive: true,
            min_size: Size { w: 0, h: 0 },
            max_size: Size { w: 0, h: 0 },
        }
    }

    /// Whether the window places itself (see [`WindowKind::X11`]).
    pub open spec fn is_override_redirect(&self) -> bool {
        self.kind == (WindowKind::X11 { override_redirect: true })
    }

    /// Whether the window places itself.
    pub fn override_redirect(&self) -> (b: bool)
        ensures
            b == self.is_override_redirect(),
    {
        match self.kind {
            WindowKind::Wayland => false,
            WindowKind::X11 { override_redirect } => override_redirect,
        }
    }

    /// The topmost surface of the tree that accepts input at `point`, with
    /// the place where that surface stands; `point` and the place are
    /// relative to the origin of the main surface.
    pub open spec fn spec_surface_under(&self, point: FixedPoint) -> Option<(u64, Point)> {
        let i = first_hit(self.tree@, point);
        if i < self.tree@.len() {
            Some((self.tree@[i].surface, self.tree@[i].origin))
        } else {
            None
        }
    }

    /// Whether some surface of the tree accepts input at `point`.
    pub open spec fn in_input_region(&self, point: FixedPoint) -> bool {
        self.spec_surface_under(point).is_some()
    }

    /// The topmost surface of the tree that accepts input at `point`.
    pub fn surface_under(&self, point: FixedPoint) -> (r: Option<(u64, Point)>)
        ensures
            r == self.spec_surface_under(point),
    {
        let mut i: usize = 0;
        assert(self.tree@.subrange(0, self.tree@.len() as int) =~= self.tree@);
        while i < self.tree.len()
            invariant
                i <= self.tree@.len(),
                first_hit(self.tree@, point) == i + first_hit(
                    self.tree@.subrange(i as int, self.tree@.len() as int),
                    point,
                ),
            decreases self.tree@.len() - i,
        {
            let ghost rest = self.tree@.subrange(i as int, self.tree@.len() as int);
            assert(rest[0] == self.tree@[i as int]);
            if self.tree[i].region.contains_fixed_point(point) {
                return Some((self.tree[i].surface, self.tree[i].origin));
            }
            assert(rest.drop_first() == self.tree@.subrange(i + 1, self.tree@.len() as int));
            i += 1;
        }
        assert(self.tree@.subrange(i as int, self.tree@.len() as int).len() == 0);
        None
    }
}

} // verus!
