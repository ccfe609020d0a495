//! The bridge to the legacy window protocol: what its window manager reports
//! becomes operations on the scene.
use crate::geometry::{Point, Rectangle, Size};
use crate::popup::root_alive;
use crate::seat::{Action, GrabStartData, PointerGrab, Seat};
use crate::space::{
    active_of, geometry_in_space, index_of, map_result, mapped, unmap_result, SpaceEntry,
};
use crate::state::elements::{WindowElement, WindowKind};
use crate::state::input::{activation_changes, activation_configures};
use crate::state::xdg_shell::move_grab::MovePointerGrab;
use crate::state::xdg_shell::resize_grab::{ResizeEdge, ResizePointerGrab, ResizeSurfaceState};
use crate::state::xdg_shell::{being_resized, state_of, SurfaceState};
use crate::state::{grab_actions, grabbed_seat, serial_after, ThingState};
use std::collections::HashMap;
use vstd::prelude::*;

verus! {

broadcast use vstd::std_specs::hash::group_hash_axioms;

/// The windows of the legacy protocol that exist but are not on screen, by
/// their identity: each with its record and the position it asks for.
#[derive(Debug)]
pub struct X11Windows {
    table: HashMap<u64, SpaceEntry>,
}

impl X11Windows {
    /// The windows that wait to be mapped.
    pub closed spec fn view(&self) -> Map<u64, SpaceEntry> {
        self.table@
    }

    /// No windows.
    pub fn new() -> (t: X11Windows)
        ensures
            t@ == Map::<u64, SpaceEntry>::empty(),
    {
        X11Windows { table: HashMap::new() }
    }

    /// Whether the window waits to be mapped.
    pub fn contains(&self, window: u64) -> (b: bool)
        ensures
            b == self@.contains_key(window),
    {
        self.table.get(&window).is_some()
    }

    /// The record of the window.
    pub fn get(&self, window: u64) -> (r: Option<&SpaceEntry>)
        ensures
            r.is_some() == self@.contains_key(window),
            r.is_some() ==> *r.unwrap() == self@[window],
    {
        self.table.get(&window)
    }

    /// Records the window under the given identity.
    pub fn set(&mut self, window: u64, record: SpaceEntry)
        ensures
            final(self)@ == old(self)@.insert(window, record),
    {
        self.table.insert(window, record);
    }

    /// Forgets the window and hands its record over.
    pub fn take(&mut self, window: u64) -> (r: Option<SpaceEntry>)
        ensures
            final(self)@ == old(self)@.remove(window),
            r == (if old(self)@.contains_key(window) {
                Some(old(self)@[window])
            } else {
                None
            }),
    {
        self.table.remove(&window)
    }
}

/// A dimension asked for by a legacy window, if it can be one: it has to fit
/// in `i32`.
pub open spec fn coerced(v: Option<u32>) -> Option<i32> {
    match v {
        Some(v) => if v <= i32::MAX {
            Some(v as i32)
        } else {
            None
        },
        None => None,
    }
}

/// The geometry that a configure request asks for: each field that is given
/// and valid replaces the one of `current`, the others stay.
pub open spec fn merged_geometry(
    current: Rectangle,
    x: Option<i32>,
    y: Option<i32>,
    w: Option<u32>,
    h: Option<u32>,
) -> Rectangle {
    Rectangle {
        loc: Point {
            x: match x {
                Some(x) => x,
                None => current.loc.x,
            },
            y: match y {
                Some(y) => y,
                None => current.loc.y,
            },
        },
        size: Size {
            w: match coerced(w) {
                Some(w) => w,
                None => current.size.w,
            },
            h: match coerced(h) {
                Some(h) => h,
                None => current.size.h,
            },
        },
    }
}

/// The geometry that a configure request asks for; see [`merged_geometry`].
pub fn merge_geometry(
    current: Rectangle,
    x: Option<i32>,
    y: Option<i32>,
    w: Option<u32>,
    h: Option<u32>,
) -> (r: Rectangle)
    ensures
        r == merged_geometry(current, x, y, w, h),
{
    let mut geometry = current;
    match x {
        Some(x) => {
            geometry.loc.x = x;
        },
        None => {},
    }
    match y {
        Some(y) => {
            geometry.loc.y = y;
        },
        None => {},
    }
    match w {
        Some(w) => {
            if w <= 2147483647 {
                geometry.size.w = w as i32;
            }
        },
        None => {},
    }
    match h {
        Some(h) => {
            if h <= 2147483647 {
                geometry.size.h = h as i32;
            }
        },
        None => {},
    }
    geometry
}

/// Whether `window` is mapped as a window of the legacy protocol.
pub open spec fn is_x11(s: Seq<SpaceEntry>, window: u64) -> bool {
    mapped(s, window) && s[index_of(s, window)].element.kind != WindowKind::Wayland
}

/// The geometry that the legacy window `window` has for the bridge: that of
/// its record if it waits to be mapped, else that of its window in the
/// scene.
pub open spec fn known_geometry(
    s: Seq<SpaceEntry>,
    w: Map<u64, SpaceEntry>,
    window: u64,
) -> Option<Rectangle> {
    if w.contains_key(window) {
        Some(geometry_in_space(w[window]))
    } else if is_x11(s, window) {
        Some(geometry_in_space(s[index_of(s, window)]))
    } else {
        None
    }
}

/// The record of a legacy window that asks for `geometry`.
pub open spec fn with_geometry(entry: SpaceEntry, geometry: Rectangle) -> SpaceEntry {
    SpaceEntry {
        element: WindowElement {
            geometry: Rectangle { loc: entry.element.geometry.loc, size: geometry.size },
            ..entry.element
        },
        location: geometry.loc,
    }
}

/// What a request to map the legacy window `window` leaves behind: a window
/// that waited to be mapped is in the scene, ready for input, at the
/// position it asked for and on top of its layer, and waits no longer. With
/// `activate`, a managed
/// window is the only activated one, and each window whose activation
/// changed is sent a configure that says so. A window that did not wait
/// changes nothing.
pub open spec fn map_window_post(
    pre: ThingState,
    post: ThingState,
    actions: Seq<Action>,
    window: u64,
    activate: bool,
) -> bool {
    let w = pre.x11_windows@;
    &&& post.space@ == (if w.contains_key(window) {
        map_result(
            pre.space@,
            WindowElement { mapped: true, ..w[window].element },
            w[window].location,
            activate,
        )
    } else {
        pre.space@
    })
    &&& post.space.screens() == pre.space.screens()
    &&& post.x11_windows@ == w.remove(window)
    &&& actions == activation_changes(
        active_of(pre.space@),
        active_of(post.space@),
        pre.surfaces@,
    )
    &&& post.popup_manager@ == pre.popup_manager@
    &&& post.surfaces@ == pre.surfaces@
    &&& post.seat == pre.seat
    &&& post.pressed@ == pre.pressed@
    &&& post.serial == pre.serial
}

/// The record of a window that has left the scene: it is neither activated
/// nor ready for input.
pub open spec fn withdrawn(entry: SpaceEntry) -> SpaceEntry {
    SpaceEntry {
        element: WindowElement { activated: false, mapped: false, ..entry.element },
        location: entry.location,
    }
}

/// What the end of a legacy window's time on screen leaves behind: the
/// window is out of the scene; if it was activated, it is sent a configure
/// that says it is not any more (and whether it is being resized). With
/// `keep`, its record waits to be mapped
/// again, neither activated nor ready for input; else nothing is left of the
/// window.
pub open spec fn unmapped_post(
    pre: ThingState,
    post: ThingState,
    actions: Seq<Action>,
    window: u64,
    keep: bool,
) -> bool {
    let s = pre.space@;
    let w = pre.x11_windows@;
    &&& post.space@ == (if is_x11(s, window) {
        unmap_result(s, window)
    } else {
        s
    })
    &&& post.space.screens() == pre.space.screens()
    &&& post.x11_windows@ == (if !keep {
        w.remove(window)
    } else if is_x11(s, window) {
        w.insert(window, withdrawn(s[index_of(s, window)]))
    } else {
        w
    })
    &&& actions == (if is_x11(s, window) && s[index_of(s, window)].element.activated {
        seq![
            Action::Configure {
                surface: window,
                size: None,
                resizing: being_resized(pre.surfaces@, window),
                activated: false,
            },
        ]
    } else {
        Seq::empty()
    })
    &&& post.popup_manager@ == pre.popup_manager@
    &&& post.surfaces@ == pre.surfaces@
    &&& post.seat == pre.seat
    &&& post.pressed@ == pre.pressed@
    &&& post.serial == pre.serial
}

/// What a configure request of the legacy window `window` leaves behind: the
/// window is sent a configure with the geometry that the request asks for
/// (see [`merged_geometry`]); the record of a window that waits to be
/// mapped takes that geometry. The scene stays as it is: where a mapped
/// window stands is for the server to decide. A window that the bridge does
/// not know is ignored.
pub open spec fn configure_request_post(
    pre: ThingState,
    post: ThingState,
    actions: Seq<Action>,
    window: u64,
    x: Option<i32>,
    y: Option<i32>,
    w: Option<u32>,
    h: Option<u32>,
) -> bool {
    let known = known_geometry(pre.space@, pre.x11_windows@, window);
    &&& post.space@ == pre.space@
    &&& post.space.screens() == pre.space.screens()
    &&& post.x11_windows@ == (if pre.x11_windows@.contains_key(window) {
        pre.x11_windows@.insert(
            window,
            with_geometry(
                pre.x11_windows@[window],
                merged_geometry(known.unwrap(), x, y, w, h),
            ),
        )
    } else {
        pre.x11_windows@
    })
    &&& actions == (match known {
        Some(current) => seq![
            Action::ConfigureX11 { window, geometry: merged_geometry(current, x, y, w, h) },
        ],
        None => Seq::empty(),
    })
    &&& post.popup_manager@ == pre.popup_manager@
    &&& post.surfaces@ == pre.surfaces@
    &&& post.seat == pre.seat
    &&& post.pressed@ == pre.pressed@
    &&& post.serial == pre.serial
}

/// The grab that a request of the legacy window `window` to be moved begins:
/// one for a live window of the scene, begun by `button` with the pointer
/// where it is and focused as it is.
pub open spec fn bridge_move(s: Seq<SpaceEntry>, seat: Seat, window: u64, button: u32) -> Option<
    MovePointerGrab,
> {
    if root_alive(s, window) {
        Some(
            MovePointerGrab {
                start_data: GrabStartData {
                    focus: seat.pointer_focus,
                    button,
                    location: seat.location,
                },
                window,
                initial_window_location: s[index_of(s, window)].location,
            },
        )
    } else {
        None
    }
}

/// The grab that a request of the legacy window `window` to be resized by
/// `edges` begins; see [`bridge_move`].
pub open spec fn bridge_resize(
    s: Seq<SpaceEntry>,
    seat: Seat,
    window: u64,
    button: u32,
    edges: ResizeEdge,
) -> Option<ResizePointerGrab> {
    if root_alive(s, window) {
        Some(
            ResizePointerGrab {
                start_data: GrabStartData {
                    focus: seat.pointer_focus,
                    button,
                    location: seat.location,
                },
                window,
                initial_rect: geometry_in_space(s[index_of(s, window)]),
                edges,
                last_window_size: s[index_of(s, window)].element.geometry.size,
            },
        )
    } else {
        None
    }
}

/// What a legacy window's request to be moved leaves behind: a serial is
/// handed out, and the grab that [`bridge_move`] names is installed with it.
pub open spec fn bridge_move_post(
    pre: ThingState,
    post: ThingState,
    actions: Seq<Action>,
    window: u64,
    button: u32,
) -> bool {
    let serial = serial_after(pre.serial);
    &&& post.serial == serial
    &&& post.space@ == pre.space@
    &&& post.space.screens() == pre.space.screens()
    &&& post.popup_manager@ == pre.popup_manager@
    &&& post.surfaces@ == pre.surfaces@
    &&& post.x11_windows@ == pre.x11_windows@
    &&& post.pressed@ == pre.pressed@
    &&& match bridge_move(pre.space@, pre.seat, window, button) {
        Some(grab) => post.seat == grabbed_seat(pre.seat, PointerGrab::Move(grab), serial)
            && actions == grab_actions(pre.seat.location, serial),
        None => post.seat == pre.seat && actions == Seq::<Action>::empty(),
    }
}

/// What a legacy window's request to be resized leaves behind: a serial is
/// handed out, the grab that [`bridge_resize`] names is installed with it,
/// and the surface of the window is being resized.
pub open spec fn bridge_resize_post(
    pre: ThingState,
    post: ThingState,
    actions: Seq<Action>,
    window: u64,
    button: u32,
    edges: ResizeEdge,
) -> bool {
    let serial = serial_after(pre.serial);
    &&& post.serial == serial
    &&& post.space@ == pre.space@
    &&& post.space.screens() == pre.space.screens()
    &&& post.popup_manager@ == pre.popup_manager@
    &&& post.x11_windows@ == pre.x11_windows@
    &&& post.pressed@ == pre.pressed@
    &&& match bridge_resize(pre.space@, pre.seat, window, button, edges) {
        Some(grab) => {
            &&& post.seat == grabbed_seat(pre.seat, PointerGrab::Resize(grab), serial)
            &&& post.surfaces@ == pre.surfaces@.insert(
                window,
                SurfaceState {
                    resize: ResizeSurfaceState::Resizing { edges, initial_rect: grab.initial_rect },
                    ..state_of(pre.surfaces@, window)
                },
            )
            &&& actions == grab_actions(pre.seat.location, serial)
        },
        None => post.seat == pre.seat && post.surfaces@ == pre.surfaces@ && actions == Seq::<
            Action,
        >::empty(),
    }
}

impl ThingState {
    /// Takes note of a new window of the legacy protocol, which asks to
    /// stand at `location`. The window is not mapped yet: its record waits
    /// for the request to map it.
    pub fn new_window(&mut self, window: WindowElement, location: Point)
        ensures
            final(self).x11_windows@ == old(self).x11_windows@.insert(
                window.surface,
                SpaceEntry { element: window, location },
            ),
            final(self).space == old(self).space,
            final(self).popup_manager == old(self).popup_manager,
            final(self).surfaces == old(self).surfaces,
            final(self).seat == old(self).seat,
            final(self).pressed == old(self).pressed,
            final(self).serial == old(self).serial,
    {
        let id = window.surface;
        self.x11_windows.set(id, SpaceEntry { element: window, location });
    }

    /// Takes note of a new override-redirect window, as of any other new
    /// window of the legacy protocol.
    pub fn new_override_redirect_window(&mut self, window: WindowElement, location: Point)
        ensures
            final(self).x11_windows@ == old(self).x11_windows@.insert(
                window.surface,
                SpaceEntry { element: window, location },
            ),
            final(self).space == old(self).space,
            final(self).popup_manager == old(self).popup_manager,
            final(self).surfaces == old(self).surfaces,
            final(self).seat == old(self).seat,
            final(self).pressed == old(self).pressed,
            final(self).serial == old(self).serial,
    {
        self.new_window(window, location)
    }

    /// Maps a window that waited for it.
    fn map_waiting(&mut self, window: u64, activate: bool) -> (actions: Vec<Action>)
        requires
            old(self).wf(),
        ensures
            final(self).wf(),
            map_window_post(*old(self), *final(self), actions@, window, activate),
    {
        let before = self.space.activated();
        match self.x11_windows.take(window) {
            Some(entry) => {
                let mut entry = entry;
                entry.element.mapped = true;
                self.space.map_element(entry.element, entry.location, activate);
            },
            None => {},
        }
        let after = self.space.activated();
        activation_configures(before, after, &self.surfaces)
    }

    /// Handles the request to map a managed window of the legacy protocol:
    /// the window enters the scene where it asked to stand, activated; see
    /// [`map_window_post`].
    pub fn map_window_request(&mut self, window: u64) -> (actions: Vec<Action>)
        requires
            old(self).wf(),
        ensures
            final(self).wf(),
            map_window_post(*old(self), *final(self), actions@, window, true),
    {
        self.map_waiting(window, true)
    }

    /// Takes note that an override-redirect window has mapped itself: the
    /// window enters the scene where it stands, above every managed window
    /// and without an activation; see [`map_window_post`].
    pub fn mapped_override_redirect_window(&mut self, window: u64) -> (actions: Vec<Action>)
        requires
            old(self).wf(),
        ensures
            final(self).wf(),
            map_window_post(*old(self), *final(self), actions@, window, false),
    {
        self.map_waiting(window, false)
    }

    /// Takes a window of the legacy protocol out of the scene.
    fn withdraw(&mut self, window: u64, keep: bool) -> (actions: Vec<Action>)
        requires
            old(self).wf(),
        ensures
            final(self).wf(),
            unmapped_post(*old(self), *final(self), actions@, window, keep),
    {
        let mut actions: Vec<Action> = Vec::new();
        let legacy = match self.space.element(window) {
            Some(entry) => match entry.element.kind {
                WindowKind::Wayland => false,
                WindowKind::X11 { .. } => true,
            },
            None => false,
        };
        if legacy {
            match self.space.take(window) {
                Some(entry) => {
                    let mut entry = entry;
                    if entry.element.activated {
                        actions.push(
                            Action::Configure {
                                surface: window,
                                size: None,
                                resizing: self.surfaces.is_resizing(window),
                                activated: false,
                            },
                        );
                    }
                    entry.element.activated = false;
                    entry.element.mapped = false;
                    if keep {
                        self.x11_windows.set(window, entry);
                    }
                },
                None => {},
            }
        }
        if !keep {
            self.x11_windows.take(window);
        }
        actions
    }

    /// Takes note that a window of the legacy protocol was unmapped: it
    /// leaves the scene and waits to be mapped again; see [`unmapped_post`].
    pub fn unmapped_window(&mut self, window: u64) -> (actions: Vec<Action>)
        requires
            old(self).wf(),
        ensures
            final(self).wf(),
            unmapped_post(*old(self), *final(self), actions@, window, true),
    {
        self.withdraw(window, true)
    }

    /// Takes note that a window of the legacy protocol was destroyed: it
    /// leaves the scene and the bridge forgets it; see [`unmapped_post`].
    pub fn destroyed_window(&mut self, window: u64) -> (actions: Vec<Action>)
        requires
            old(self).wf(),
        ensures
            final(self).wf(),
            unmapped_post(*old(self), *final(self), actions@, window, false),
    {
        self.withdraw(window, false)
    }

    /// Handles the request of a legacy window for a new geometry; see
    /// [`configure_request_post`].
    pub fn configure_request(
        &mut self,
        window: u64,
        x: Option<i32>,
        y: Option<i32>,
        w: Option<u32>,
        h: Option<u32>,
    ) -> (actions: Vec<Action>)
        requires
            old(self).wf(),
        ensures
            final(self).wf(),
            configure_request_post(*old(self), *final(self), actions@, window, x, y, w, h),
    {
        let mut actions: Vec<Action> = Vec::new();
        match self.x11_windows.take(window) {
            Some(entry) => {
                let mut entry = entry;
                let geometry = merge_geometry(entry.geometry(), x, y, w, h);
                entry.element.geometry.size = geometry.size;
                entry.location = geometry.loc;
                self.x11_windows.set(window, entry);
                actions.push(Action::ConfigureX11 { window, geometry });
                proof {
                    let before = old(self).x11_windows@;
                    assert(self.x11_windows@ =~= before.insert(
                        window,
                        with_geometry(before[window], geometry),
                    ));
                }
            },
            None => {
                proof {
                    assert(self.x11_windows@ =~= old(self).x11_windows@);
                }
                match self.space.element(window) {
                    Some(entry) => {
                        match entry.element.kind {
                            WindowKind::Wayland => {},
                            WindowKind::X11 { .. } => {
                                let geometry = merge_geometry(entry.geometry(), x, y, w, h);
                                actions.push(Action::ConfigureX11 { window, geometry });
                            },
                        }
                    },
                    None => {},
                }
            },
        }
        actions
    }
}

/// Handles the request of a legacy window to be moved with the pointer; see
/// [`bridge_move_post`].
pub fn move_request(state: &mut ThingState, window: u64, button: u32) -> (actions: Vec<Action>)
    requires
        old(state).wf(),
    ensures
        final(state).wf(),
        bridge_move_post(*old(state), *final(state), actions@, window, button),
{
    let serial = state.next_serial();
    let initial_window_location = match state.space.element(window) {
        Some(entry) => {
            if !entry.element.alive {
                return Vec::new();
            }
            entry.location
        },
        None => {
            return Vec::new();
        },
    };
    let start_data = GrabStartData {
        focus: state.seat.pointer_focus,
        button,
        location: state.seat.location,
    };
    let grab = MovePointerGrab { start_data, window, initial_window_location };
    state.set_grab(PointerGrab::Move(grab), serial)
}

/// Handles the request of a legacy window to be resized with the pointer;
/// see [`bridge_resize_post`].
pub fn resize_request(state: &mut ThingState, window: u64, button: u32, edges: ResizeEdge) -> (actions:
    Vec<Action>)
    requires
        old(state).wf(),
    ensures
        final(state).wf(),
        bridge_resize_post(*old(state), *final(state), actions@, window, button, edges),
{
    let serial = state.next_serial();
    let initial_rect = match state.space.element(window) {
        Some(entry) => {
            if !entry.element.alive {
                return Vec::new();
            }
            entry.geometry()
        },
        None => {
            return Vec::new();
        },
    };
    let start_data = GrabStartData {
        focus: state.seat.pointer_focus,
        button,
        location: state.seat.location,
    };
    let grab = ResizePointerGrab::start(
        start_data,
        window,
        initial_rect,
        edges,
        &mut state.surfaces,
    );
    state.set_grab(PointerGrab::Resize(grab), serial)
}

} // verus!
