//! The shell: what each surface has been told of its configuration, and the
//! requests of toplevels and popups.
use crate::geometry::{Point, Rectangle};
use crate::popup::{
    chain_index, dismissals, grab_outcome, has_chain, has_popup, holder, parent_offset, popup_of,
    resolve_root, root_alive, track_closes, track_outcome, track_result, with_popup, ChainView,
    Popup, PopupError,
};
use crate::seat::{Action, GrabStartData, KeyboardGrab, PointerGrab, PopupPointerGrab, Seat};
use crate::space::{
    active_of, bbox_in_space, index_of, map_result, mapped, output_union, Output, Space,
    SpaceEntry,
};
use crate::state::elements::{WindowElement, WindowKind};
use crate::state::input::{
    activation_changes, activation_configures, lemma_activation_changes, live_root,
};
use crate::state::xdg_shell::resize_grab::{ResizeEdge, ResizeSurfaceState};
use crate::state::{
    grab_actions, grabbed_seat, serial_after, surface_under_result, ThingState,
};
use std::collections::HashMap;
use vstd::prelude::*;

pub mod move_grab;
pub mod resize_grab;

verus! {

broadcast use vstd::std_specs::hash::group_hash_axioms;

/// What the shell keeps for one surface.
#[derive(Clone, Copy, PartialEq, Eq, Debug)]
pub struct SurfaceState {
    /// Whether the first configure was sent.
    pub configure_sent: bool,
    /// Where the surface stands in a resize.
    pub resize: ResizeSurfaceState,
}

/// The state of a surface that the shell has heard nothing of yet.
pub open spec fn fresh_state() -> SurfaceState {
    SurfaceState { configure_sent: false, resize: ResizeSurfaceState::Idle }
}

/// The state that `m` holds for `surface`; a surface without an entry is in
/// the fresh state.
pub open spec fn state_of(m: Map<u64, SurfaceState>, surface: u64) -> SurfaceState {
    if m.contains_key(surface) {
        m[surface]
    } else {
        fresh_state()
    }
}

/// Whether the table `m` counts `surface` as being resized.
pub open spec fn being_resized(m: Map<u64, SurfaceState>, surface: u64) -> bool {
    match state_of(m, surface).resize {
        ResizeSurfaceState::Resizing { .. } => true,
        _ => false,
    }
}

/// The side table of the shell: the state of each surface, by the surface's
/// identity.
#[derive(Debug)]
pub struct SurfaceStates {
    table: HashMap<u64, SurfaceState>,
}

impl SurfaceStates {
    /// The state of each surface that has an entry.
    pub closed spec fn view(&self) -> Map<u64, SurfaceState> {
        self.table@
    }

    /// An empty table.
    pub fn new() -> (t: SurfaceStates)
        ensures
            t@ == Map::<u64, SurfaceState>::empty(),
    {
        SurfaceStates { table: HashMap::new() }
    }

    /// The state of `surface`.
    pub fn get(&self, surface: u64) -> (s: SurfaceState)
        ensures
            s == state_of(self@, surface),
    {
        match self.table.get(&surface) {
            Some(s) => *s,
            None => SurfaceState { configure_sent: false, resize: ResizeSurfaceState::Idle },
        }
    }

    /// Whether `surface` is being resized.
    pub fn is_resizing(&self, surface: u64) -> (b: bool)
        ensures
            b == being_resized(self@, surface),
    {
        match self.get(surface).resize {
            ResizeSurfaceState::Resizing { .. } => true,
            _ => false,
        }
    }

    /// Whether the table has an entry for `surface`.
    pub fn contains(&self, surface: u64) -> (b: bool)
        ensures
            b == self@.contains_key(surface),
    {
        self.table.get(&surface).is_some()
    }

    /// Sets the state of `surface`.
    pub fn set(&mut self, surface: u64, state: SurfaceState)
        ensures
            final(self)@ == old(self)@.insert(surface, state),
    {
        self.table.insert(surface, state);
    }

    /// Gives `surface` an entry with the fresh state, unless it has one.
    pub fn associate(&mut self, surface: u64)
        ensures
            final(self)@ == (if old(self)@.contains_key(surface) {
                old(self)@
            } else {
                old(self)@.insert(surface, fresh_state())
            }),
            state_of(final(self)@, surface) == state_of(old(self)@, surface),
    {
        if !self.contains(surface) {
            self.set(surface, SurfaceState { configure_sent: false, resize: ResizeSurfaceState::Idle });
        }
    }

    /// Forgets `surface`.
    pub fn remove(&mut self, surface: u64)
        ensures
            final(self)@ == old(self)@.remove(surface),
    {
        self.table.remove(&surface);
    }
}

/// Whether a commit of `surface` is that of a mapped toplevel of a native
/// client, the only kind of window that is owed a first configure.
pub open spec fn is_toplevel(s: Seq<SpaceEntry>, surface: u64) -> bool {
    mapped(s, surface) && s[index_of(s, surface)].element.kind == WindowKind::Wayland
}

/// Whether a commit of `surface` has the first configure sent: it has for a
/// mapped toplevel that was not sent one yet.
pub open spec fn owes_configure(s: Seq<SpaceEntry>, m: Map<u64, SurfaceState>, surface: u64) -> bool {
    is_toplevel(s, surface) && !state_of(m, surface).configure_sent
}

/// The table after a commit of `surface`: a mapped toplevel has been sent
/// its first configure from now on.
pub open spec fn commit_states(s: Seq<SpaceEntry>, m: Map<u64, SurfaceState>, surface: u64) -> Map<
    u64,
    SurfaceState,
> {
    if owes_configure(s, m, surface) {
        m.insert(surface, SurfaceState { configure_sent: true, ..state_of(m, surface) })
    } else {
        m
    }
}

/// The table after `n` commits of `surface` in a row.
pub open spec fn after_commits(
    s: Seq<SpaceEntry>,
    m: Map<u64, SurfaceState>,
    surface: u64,
    n: nat,
) -> Map<u64, SurfaceState>
    decreases n,
{
    if n == 0 {
        m
    } else {
        commit_states(s, after_commits(s, m, surface, (n - 1) as nat), surface)
    }
}

/// How many of `n` commits of `surface` in a row have a first configure sent.
pub open spec fn configures_sent(
    s: Seq<SpaceEntry>,
    m: Map<u64, SurfaceState>,
    surface: u64,
    n: nat,
) -> nat
    decreases n,
{
    if n == 0 {
        0
    } else {
        configures_sent(s, m, surface, (n - 1) as nat) + (if owes_configure(
            s,
            after_commits(s, m, surface, (n - 1) as nat),
            surface,
        ) {
            1nat
        } else {
            0nat
        })
    }
}

/// However many commits of a surface arrive, at most one of them has the
/// first configure sent, and none if it had been sent before.
pub proof fn lemma_configure_once(s: Seq<SpaceEntry>, m: Map<u64, SurfaceState>, surface: u64, n: nat)
    ensures
        configures_sent(s, m, surface, n) <= 1,
        state_of(m, surface).configure_sent ==> configures_sent(s, m, surface, n) == 0,
        configures_sent(s, m, surface, n) == 1 ==> state_of(
            after_commits(s, m, surface, n),
            surface,
        ).configure_sent,
        state_of(m, surface).configure_sent ==> state_of(
            after_commits(s, m, surface, n),
            surface,
        ).configure_sent,
    decreases n,
{
    if n > 0 {
        lemma_configure_once(s, m, surface, (n - 1) as nat);
    }
}

/// What was the case when the grab with the given serial began, if that grab
/// owns the pointer and began on a surface of `client`.
pub open spec fn checked_grab(seat: Seat, client: u64, serial: u32) -> Option<GrabStartData> {
    if !seat.spec_has_grab(serial) {
        None
    } else {
        match seat.spec_grab_start_data() {
            Some(start_data) => match start_data.focus {
                Some(focus) => if focus.client == client {
                    Some(start_data)
                } else {
                    None
                },
                None => None,
            },
            None => None,
        }
    }
}

/// Checks that a request of `client` which names `serial` answers to the
/// grab that owns the pointer; see [`checked_grab`].
pub fn check_grab(seat: &Seat, client: u64, serial: u32) -> (r: Option<GrabStartData>)
    ensures
        r == checked_grab(*seat, client, serial),
{
    if !seat.has_grab(serial) {
        return None;
    }
    let start_data = match seat.grab_start_data() {
        Some(start_data) => start_data,
        None => {
            return None;
        },
    };
    match start_data.focus {
        Some(focus) => {
            if focus.client != client {
                return None;
            }
        },
        None => {
            return None;
        },
    }
    Some(start_data)
}

/// Whether a grab that was installed with `grab_serial` answers to a request
/// that names `serial`: the two are the same, or `serial` is the one handed
/// out directly after `grab_serial`.
pub open spec fn owns(grab_serial: u32, serial: u32) -> bool {
    grab_serial == serial || serial_after(grab_serial) == serial
}

/// Whether the seat lets a popup take a grab with `serial`: neither its
/// pointer nor its keyboard is owned by a grab that does not answer to the
/// serial.
pub open spec fn seat_accepts(seat: Seat, serial: u32) -> bool {
    (seat.grab.is_none() || owns(seat.grab.unwrap().serial, serial)) && (
    seat.keyboard_grab.is_none() || owns(seat.keyboard_grab.unwrap().serial, serial))
}

/// The live window under the chain of the popup `surface`, if the popup is
/// tracked and has one.
pub open spec fn grab_root(v: Seq<ChainView>, s: Seq<SpaceEntry>, surface: u64) -> Option<u64> {
    if has_popup(v, surface) && root_alive(s, v[holder(v, surface)].root) {
        Some(v[holder(v, surface)].root)
    } else {
        None
    }
}

/// The seat after the grabs of the chain above `root` were let go, over the
/// windows `s`: a pointer grab of that chain ends and the surface that is
/// under the pointer in the scene has its focus; a keyboard grab of that
/// chain ends and the root has the keyboard if it is still a live window,
/// else nothing has.
pub open spec fn dropped_seat(seat: Seat, s: Seq<SpaceEntry>, root: u64) -> Seat {
    let pointer = match seat.grab {
        Some(active) => match active.grab {
            PointerGrab::Popup(p) => p.root == root,
            _ => false,
        },
        None => false,
    };
    let keyboard = seat.keyboard_grab.is_some() && seat.keyboard_grab.unwrap().root == root;
    Seat {
        grab: if pointer {
            None
        } else {
            seat.grab
        },
        pointer_focus: if pointer {
            surface_under_result(s, seat.location)
        } else {
            seat.pointer_focus
        },
        keyboard_grab: if keyboard {
            None
        } else {
            seat.keyboard_grab
        },
        keyboard_focus: if keyboard {
            live_root(s, root)
        } else {
            seat.keyboard_focus
        },
        ..seat
    }
}

/// The requests that let go the grabs of the chain above `root`.
pub open spec fn dropped_actions(seat: Seat, s: Seq<SpaceEntry>, root: u64, serial: u32) -> Seq<
    Action,
> {
    let pointer = match seat.grab {
        Some(active) => match active.grab {
            PointerGrab::Popup(p) => p.root == root,
            _ => false,
        },
        None => false,
    };
    let keyboard = seat.keyboard_grab.is_some() && seat.keyboard_grab.unwrap().root == root;
    (if pointer {
        seq![
            Action::PointerMotion {
                focus: surface_under_result(s, seat.location),
                event: crate::seat::MotionEvent { location: seat.location, serial, time: 0 },
            },
        ]
    } else {
        Seq::empty()
    }) + (if keyboard {
        seq![Action::KeyboardFocus { surface: live_root(s, root), serial }]
    } else {
        Seq::empty()
    })
}

/// What a popup's request for a grab leaves behind.
///
/// Nothing happens unless the popup is tracked above a live window. If the
/// seat does not accept the serial, the request is turned down and the whole
/// chain is closed: its popups are dismissed, the topmost first, and the
/// grabs of the chain are let go. Else the popup is given its grab if
/// [`grab_outcome`] allows it: the keyboard goes to the popup and stays
/// there, and the pointer is owned by the chain.
pub open spec fn popup_grab_post(
    pre: ThingState,
    post: ThingState,
    actions: Seq<Action>,
    surface: u64,
    serial: u32,
) -> bool {
    let v = pre.popup_manager@;
    &&& post.space@ == pre.space@
    &&& post.space.screens() == pre.space.screens()
    &&& post.surfaces@ == pre.surfaces@
    &&& post.x11_windows@ == pre.x11_windows@
    &&& post.pressed@ == pre.pressed@
    &&& post.serial == pre.serial
    &&& match grab_root(v, pre.space@, surface) {
        None => post.popup_manager@ == v && post.seat == pre.seat && actions == Seq::<
            Action,
        >::empty(),
        Some(root) => if !seat_accepts(pre.seat, serial) {
            &&& post.popup_manager@ == v.remove(chain_index(v, root))
            &&& !has_chain(post.popup_manager@, root)
            &&& post.seat == dropped_seat(pre.seat, pre.space@, root)
            &&& actions == dismissals(v[chain_index(v, root)].popups) + dropped_actions(
                pre.seat,
                pre.space@,
                root,
                serial,
            )
        } else if grab_outcome(v, surface).is_ok() {
            &&& post.popup_manager@ == with_popup(
                v,
                surface,
                Popup { grabbed: true, ..popup_of(v, surface) },
            )
            &&& post.seat == grabbed_seat(
                Seat {
                    keyboard_focus: Some(surface),
                    keyboard_grab: Some(KeyboardGrab { serial, root }),
                    ..pre.seat
                },
                PointerGrab::Popup(PopupPointerGrab { root, client: popup_of(v, surface).client }),
                serial,
            )
            &&& actions == seq![Action::KeyboardFocus { surface: Some(surface), serial }]
                + grab_actions(pre.seat.location, serial)
        } else {
            post.popup_manager@ == v && post.seat == pre.seat && actions == Seq::<Action>::empty()
        },
    }
}

/// Where a new popup is placed: where it asks to be, moved as little as
/// possible so that it lies within the screens that show the window under
/// it, as far as its size allows. A popup without a live window under it, or
/// under a window that no screen shows, stays where it asks to be.
pub open spec fn unconstrained(
    v: Seq<ChainView>,
    s: Seq<SpaceEntry>,
    o: Seq<Output>,
    popup: Popup,
) -> Rectangle {
    match resolve_root(v, s, popup) {
        None => popup.geometry,
        Some(root) => {
            let entry = s[index_of(s, root)];
            match output_union(o, bbox_in_space(entry)) {
                None => popup.geometry,
                Some(target) => {
                    let base = entry.location.plus(parent_offset(v, popup));
                    Rectangle {
                        loc: popup.geometry.shifted(base).clamped_into(target).loc.minus(base),
                        size: popup.geometry.size,
                    }
                },
            }
        },
    }
}

impl ThingState {
    /// Where a new popup is placed; see [`unconstrained`].
    pub fn unconstrain_popup(&self, popup: &Popup) -> (r: Rectangle)
        requires
            self.wf(),
        ensures
            r == unconstrained(self.popup_manager@, self.space@, self.space.screens(), *popup),
    {
        let root = match self.popup_manager.resolve(&self.space, popup) {
            Some(root) => root,
            None => {
                return popup.geometry;
            },
        };
        let target = match self.space.visible_region(root) {
            Some(target) => target,
            None => {
                return popup.geometry;
            },
        };
        let location = match self.space.element_location(root) {
            Some(location) => location,
            None => {
                return popup.geometry;
            },
        };
        let base = location.add(self.popup_manager.offset_of_parent(popup));
        let placed = popup.geometry.shift(base).clamp_into(&target);
        Rectangle { loc: placed.loc.sub(base), size: popup.geometry.size }
    }

    /// Takes a new toplevel into the scene: it is mapped at the origin, on
    /// top and activated, and its surface gets its entry in the shell's
    /// table. Each window whose activation changed is sent a configure that
    /// says so.
    pub fn new_toplevel(&mut self, window: WindowElement) -> (actions: Vec<Action>)
        requires
            old(self).wf(),
        ensures
            final(self).wf(),
            final(self).space@ == map_result(
                old(self).space@,
                window,
                Point { x: 0, y: 0 },
                true,
            ),
            final(self).space.screens() == old(self).space.screens(),
            final(self).surfaces@ == (if old(self).surfaces@.contains_key(window.surface) {
                old(self).surfaces@
            } else {
                old(self).surfaces@.insert(window.surface, fresh_state())
            }),
            actions@ == activation_changes(
                active_of(old(self).space@),
                active_of(final(self).space@),
                old(self).surfaces@,
            ),
            final(self).popup_manager == old(self).popup_manager,
            final(self).x11_windows == old(self).x11_windows,
            final(self).seat == old(self).seat,
            final(self).pressed == old(self).pressed,
            final(self).serial == old(self).serial,
    {
        let before = self.space.activated();
        self.surfaces.associate(window.surface);
        self.space.map_element(window, Point { x: 0, y: 0 }, true);
        let after = self.space.activated();
        proof {
            assert forall|surface: u64|
                being_resized(self.surfaces@, surface) == being_resized(
                    old(self).surfaces@,
                    surface,
                ) by {}
            lemma_activation_changes(before, after, old(self).surfaces@, self.surfaces@);
        }
        activation_configures(before, after, &self.surfaces)
    }

    /// Takes a new popup: it is placed within the screens (see
    /// [`unconstrained`]) and then tracked (see
    /// [`crate::popup::PopupManager::track_popup`]). Fails as tracking does,
    /// and changes nothing then.
    pub fn new_popup(&mut self, popup: Popup) -> (r: Result<Vec<Action>, PopupError>)
        requires
            old(self).wf(),
        ensures
            final(self).wf(),
            final(self).popup_manager@ == track_result(
                old(self).popup_manager@,
                old(self).space@,
                Popup {
                    geometry: unconstrained(
                        old(self).popup_manager@,
                        old(self).space@,
                        old(self).space.screens(),
                        popup,
                    ),
                    ..popup
                },
            ),
            r.is_ok() == track_outcome(old(self).popup_manager@, old(self).space@, popup).is_ok(),
            r.is_err() ==> Err::<(), PopupError>(r.unwrap_err()) == track_outcome(
                old(self).popup_manager@,
                old(self).space@,
                popup,
            ),
            r.is_ok() ==> r.unwrap()@ == dismissals(
                track_closes(old(self).popup_manager@, old(self).space@, popup),
            ),
            final(self).space == old(self).space,
            final(self).surfaces == old(self).surfaces,
            final(self).x11_windows == old(self).x11_windows,
            final(self).seat == old(self).seat,
            final(self).pressed == old(self).pressed,
            final(self).serial == old(self).serial,
    {
        let mut popup = popup;
        popup.geometry = self.unconstrain_popup(&popup);
        self.popup_manager.track_popup(popup, &self.space)
    }

    /// Lets go the grabs of the chain above `root`.
    fn drop_popup_grabs(&mut self, root: u64, serial: u32) -> (actions: Vec<Action>)
        requires
            old(self).wf(),
        ensures
            final(self).seat == dropped_seat(old(self).seat, old(self).space@, root),
            actions@ == dropped_actions(old(self).seat, old(self).space@, root, serial),
            final(self).space == old(self).space,
            final(self).popup_manager == old(self).popup_manager,
            final(self).surfaces == old(self).surfaces,
            final(self).x11_windows == old(self).x11_windows,
            final(self).pressed == old(self).pressed,
            final(self).serial == old(self).serial,
    {
        let mut actions: Vec<Action> = Vec::new();
        match self.seat.grab {
            Some(active) => match active.grab {
                PointerGrab::Popup(p) => {
                    if p.root == root {
                        let focus = self.surface_under(self.seat.location);
                        actions.push(
                            Action::PointerMotion {
                                focus,
                                event: crate::seat::MotionEvent {
                                    location: self.seat.location,
                                    serial,
                                    time: 0,
                                },
                            },
                        );
                        self.seat.grab = None;
                        self.seat.pointer_focus = focus;
                    }
                },
                _ => {},
            },
            None => {},
        }
        match self.seat.keyboard_grab {
            Some(k) => {
                if k.root == root {
                    let surface = if self.space.alive(root) {
                        Some(root)
                    } else {
                        None
                    };
                    self.seat.keyboard_grab = None;
                    self.seat.keyboard_focus = surface;
                    actions.push(Action::KeyboardFocus { surface, serial });
                }
            },
            None => {},
        }
        proof {
            assert(actions@ =~= dropped_actions(old(self).seat, old(self).space@, root, serial));
        }
        actions
    }

    /// Handles a popup's request for a grab; see [`popup_grab_post`].
    pub fn grab(&mut self, surface: u64, serial: u32) -> (actions: Vec<Action>)
        requires
            old(self).wf(),
        ensures
            final(self).wf(),
            popup_grab_post(*old(self), *final(self), actions@, surface, serial),
    {
        let root = match self.popup_manager.root_of(surface) {
            Some(root) => root,
            None => {
                return Vec::new();
            },
        };
        if !self.space.alive(root) {
            return Vec::new();
        }
        let client = match self.popup_manager.find_popup(surface) {
            Some(popup) => popup.client,
            None => {
                return Vec::new();
            },
        };
        proof {
            crate::popup::lemma_holder(self.popup_manager@, surface);
            crate::popup::lemma_chain_index(
                self.popup_manager@,
                root,
                holder(self.popup_manager@, surface),
            );
        }
        let pointer_ok = match self.seat.grab {
            Some(active) => answers(active.serial, serial),
            None => true,
        };
        let keyboard_ok = match self.seat.keyboard_grab {
            Some(k) => answers(k.serial, serial),
            None => true,
        };
        if !(pointer_ok && keyboard_ok) {
            let mut actions = self.popup_manager.ungrab_all(root);
            let mut dropped = self.drop_popup_grabs(root, serial);
            actions.append(&mut dropped);
            return actions;
        }
        match self.popup_manager.grab_popup(surface) {
            Ok(()) => {},
            Err(_) => {
                return Vec::new();
            },
        }
        let mut actions: Vec<Action> = Vec::new();
        self.seat.keyboard_focus = Some(surface);
        self.seat.keyboard_grab = Some(KeyboardGrab { serial, root });
        actions.push(Action::KeyboardFocus { surface: Some(surface), serial });
        let mut grabbed = self.set_grab(
            PointerGrab::Popup(PopupPointerGrab { root, client }),
            serial,
        );
        actions.append(&mut grabbed);
        actions
    }

    /// Handles a toplevel's request to be moved; see
    /// [`move_grab::handle_move_request`].
    pub fn move_request(&mut self, surface: u64, serial: u32) -> (actions: Vec<Action>)
        requires
            old(self).wf(),
        ensures
            final(self).wf(),
            move_grab::move_request_post(*old(self), *final(self), actions@, surface, serial),
    {
        move_grab::handle_move_request(self, surface, serial)
    }

    /// Handles a toplevel's request to be resized; see
    /// [`resize_grab::handle_resize_request`].
    pub fn resize_request(&mut self, surface: u64, serial: u32, edges: ResizeEdge) -> (actions: Vec<
        Action,
    >)
        requires
            old(self).wf(),
        ensures
            final(self).wf(),
            resize_grab::resize_request_post(
                *old(self),
                *final(self),
                actions@,
                surface,
                serial,
                edges,
            ),
    {
        resize_grab::handle_resize_request(self, surface, serial, edges)
    }

    /// Handles a popup's request to be repositioned: the popup is told that
    /// it was.
    pub fn reposition_request(&self, surface: u64, token: u32) -> (actions: Vec<Action>)
        ensures
            actions@ == seq![Action::Repositioned { surface, token }],
    {
        let mut actions: Vec<Action> = Vec::new();
        actions.push(Action::Repositioned { surface, token });
        actions
    }
}

/// Whether a grab installed with `grab_serial` answers to `serial`; see
/// [`owns`].
pub fn answers(grab_serial: u32, serial: u32) -> (b: bool)
    ensures
        b == owns(grab_serial, serial),
{
    let next: u32 = if grab_serial == u32::MAX {
        1
    } else {
        grab_serial + 1
    };
    grab_serial == serial || next == serial
}

/// Sends the first configure of a toplevel when its surface commits, unless
/// it was sent before. Answers `None` if `surface` is not the surface of a
/// mapped toplevel of a native client.
pub fn handle_commit(space: &Space, states: &mut SurfaceStates, surface: u64) -> (r: Option<
    Vec<Action>,
>)
    requires
        space.wf(),
    ensures
        r.is_some() == is_toplevel(space@, surface),
        final(states)@ == commit_states(space@, old(states)@, surface),
        r.is_some() ==> r.unwrap()@ == (if owes_configure(space@, old(states)@, surface) {
            seq![Action::InitialConfigure { surface }]
        } else {
            Seq::empty()
        }),
{
    let entry = match space.element(surface) {
        Some(entry) => entry,
        None => {
            return None;
        },
    };
    match entry.element.kind {
        WindowKind::Wayland => {},
        WindowKind::X11 { .. } => {
            return None;
        },
    }
    let mut actions: Vec<Action> = Vec::new();
    let mut state = states.get(surface);
    if !state.configure_sent {
        state.configure_sent = true;
        states.set(surface, state);
        actions.push(Action::InitialConfigure { surface });
    }
    Some(actions)
}

} // verus!
