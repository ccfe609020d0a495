//! The state of the display server and the handlers that change it.
use crate::geometry::FixedPoint;
use crate::popup::{ChainView, PopupManager};
use crate::seat::{Action, ActiveGrab, Focus, MotionEvent, PointerGrab, Seat};
use crate::space::{
    accepts, lemma_index_of, lemma_top_hit, local_point, mapped, render_location,
    top_hit, Space, SpaceEntry,
};
use crate::state::xdg_shell::SurfaceStates;
use crate::state::xwayland::X11Windows;
use vstd::prelude::*;

pub mod compositor;
pub mod elements;
pub mod input;
pub mod xdg_shell;
pub mod xwayland;

verus! {

/// Everything the display server knows.
#[derive(Debug)]
pub struct ThingState {
    /// The windows on screen.
    pub space: Space,
    /// The popups that are open.
    pub popup_manager: PopupManager,
    /// What each surface has been told of its configuration.
    pub surfaces: SurfaceStates,
    /// The windows of the legacy protocol, mapped or not.
    pub x11_windows: X11Windows,
    /// The pointer and the keyboard.
    pub seat: Seat,
    /// The pointer buttons that are held, in the order of their presses.
    pub pressed: Vec<u32>,
    /// The serial that was handed out last.
    pub serial: u32,
}

/// The serial after `serial`: serials count up and skip 0 when they wrap.
pub open spec fn serial_after(serial: u32) -> u32 {
    if serial == u32::MAX {
        1
    } else {
        (serial + 1) as u32
    }
}

/// The surface that takes input at the scene position `p`, with its client
/// and with the scene position of its origin: the topmost surface that
/// accepts input there in the tree of the topmost window that does.
pub open spec fn surface_under_result(s: Seq<SpaceEntry>, p: FixedPoint) -> Option<Focus> {
    let i = top_hit(s, p);
    if i >= 0 {
        match s[i].element.spec_surface_under(local_point(s[i], p)) {
            Some((surface, corner)) => Some(
                Focus {
                    surface,
                    client: s[i].element.client,
                    origin: render_location(s[i]).plus(corner),
                },
            ),
            None => None,
        }
    } else {
        None
    }
}

/// The surface under a position belongs to a window that is alive and ready
/// for input: no destroyed window gives the pointer a focus.
pub proof fn lemma_surface_under_alive(s: Seq<SpaceEntry>, p: FixedPoint)
    ensures
        surface_under_result(s, p).is_some() ==> {
            &&& 0 <= top_hit(s, p) < s.len()
            &&& s[top_hit(s, p)].element.alive
            &&& s[top_hit(s, p)].element.mapped
            &&& surface_under_result(s, p).unwrap().client == s[top_hit(s, p)].element.client
        },
{
    lemma_top_hit(s, p);
}

/// Once a window was destroyed, it is never the window whose surface is
/// under a position, wherever the pointer is.
pub proof fn lemma_destroyed_takes_no_focus(s: Seq<SpaceEntry>, window: u64, p: FixedPoint)
    requires
        crate::space::stack_wf(s),
    ensures
        surface_under_result(crate::space::destroy_result(s, window), p).is_some() ==> {
            let r = crate::space::destroy_result(s, window);
            0 <= top_hit(r, p) < r.len() && r[top_hit(r, p)].element.surface != window
        },
{
    let r = crate::space::destroy_result(s, window);
    lemma_top_hit(r, p);
    if surface_under_result(r, p).is_some() && mapped(s, window) {
        let i = crate::space::index_of(s, window);
        assert(!r[i].element.alive);
        let t = top_hit(r, p);
        assert(accepts(r[t], p));
        if t != i {
            assert(r[t] == s[t]);
            if t < i {
                assert(s[t].element.surface != s[i].element.surface);
            } else {
                assert(s[i].element.surface != s[t].element.surface);
            }
        }
    }
}

/// What a tick leaves of the popups, over the windows `s` and the chains `v`
/// as they were before it: a popup is still tracked if and only if its root
/// is a live window and no popup below it in its chain, nor itself, has lost
/// its surface. A root that was destroyed is out of the scene, and the lookup
/// of each popup of its chain answers with nothing; the popups of live roots
/// are found as they were.
pub proof fn lemma_refresh_popups(s: Seq<SpaceEntry>, v: Seq<ChainView>, c: int, i: int)
    requires
        crate::space::stack_wf(s),
        crate::popup::chains_wf(v),
        0 <= c < v.len(),
        0 <= i < v[c].popups.len(),
    ensures
        crate::popup::has_popup(
            crate::popup::cleanup_result(v, crate::space::alive_only(s)),
            v[c].popups[i].surface,
        ) <==> (crate::popup::root_alive(s, v[c].root) && i < crate::popup::first_dead(
            v[c].popups,
        )),
        !crate::popup::root_alive(s, v[c].root) ==> !mapped(
            crate::space::alive_only(s),
            v[c].root,
        ),
        crate::popup::has_popup(
            crate::popup::cleanup_result(v, crate::space::alive_only(s)),
            v[c].popups[i].surface,
        ) ==> crate::popup::popup_of(
            crate::popup::cleanup_result(v, crate::space::alive_only(s)),
            v[c].popups[i].surface,
        ) == v[c].popups[i],
{
    let s2 = crate::space::alive_only(s);
    crate::space::lemma_alive_only_mapped(s, v[c].root);
    crate::space::lemma_alive_only(s);
    crate::popup::lemma_cleanup_keeps(v, s2, c, i);
    if mapped(s2, v[c].root) {
        let j = crate::space::index_of(s2, v[c].root);
        assert(s2[j].element.alive);
    }
}

/// The requests that install a grab with the given serial for a pointer at
/// `location`: the pointer loses its focus.
pub open spec fn grab_actions(location: FixedPoint, serial: u32) -> Seq<Action> {
    seq![
        Action::PointerMotion {
            focus: None,
            event: MotionEvent { location, serial, time: 0 },
        },
    ]
}

/// The seat after a grab was installed: the grab owns the pointer, which has
/// lost its focus.
pub open spec fn grabbed_seat(seat: Seat, grab: PointerGrab, serial: u32) -> Seat {
    Seat { grab: Some(ActiveGrab { serial, grab }), pointer_focus: None, ..seat }
}

impl ThingState {
    /// What holds of every state: the scene and the popups are well-formed.
    pub open spec fn wf(&self) -> bool {
        self.space.wf() && self.popup_manager.wf()
    }

    /// The state of a server that has just started: an empty scene, no
    /// popups, nothing focused or held, no serial handed out.
    pub fn new() -> (state: ThingState)
        ensures
            state.wf(),
            state.space@ == Seq::<SpaceEntry>::empty(),
            state.space.screens() == Seq::<crate::space::Output>::empty(),
            state.popup_manager@ == Seq::<ChainView>::empty(),
            state.surfaces@ == Map::<u64, crate::state::xdg_shell::SurfaceState>::empty(),
            state.x11_windows@ == Map::<u64, SpaceEntry>::empty(),
            state.seat == (Seat {
                location: FixedPoint { x: 0, y: 0 },
                pointer_focus: None,
                keyboard_focus: None,
                grab: None,
                keyboard_grab: None,
            }),
            state.pressed@ == Seq::<u32>::empty(),
            state.serial == 0,
    {
        ThingState {
            space: Space::new(),
            popup_manager: PopupManager::new(),
            surfaces: SurfaceStates::new(),
            x11_windows: X11Windows::new(),
            seat: Seat::new(),
            pressed: Vec::new(),
            serial: 0,
        }
    }

    /// Hands out the next serial.
    pub fn next_serial(&mut self) -> (serial: u32)
        ensures
            serial == serial_after(old(self).serial),
            final(self).serial == serial,
            final(self).space == old(self).space,
            final(self).popup_manager == old(self).popup_manager,
            final(self).surfaces == old(self).surfaces,
            final(self).x11_windows == old(self).x11_windows,
            final(self).seat == old(self).seat,
            final(self).pressed == old(self).pressed,
    {
        self.serial = if self.serial == u32::MAX {
            1
        } else {
            self.serial + 1
        };
        self.serial
    }

    /// The surface under the scene position `location`: see
    /// [`surface_under_result`].
    pub fn surface_under(&self, location: FixedPoint) -> (r: Option<Focus>)
        requires
            self.wf(),
        ensures
            r == surface_under_result(self.space@, location),
    {
        proof {
            lemma_top_hit(self.space@, location);
        }
        match self.space.element_under(location) {
            Some((window, local)) => {
                proof {
                    lemma_index_of(self.space@, window, top_hit(self.space@, location));
                }
                match self.space.element(window) {
                    Some(entry) => {
                        let window_pos = entry.render_location();
                        match entry.element.surface_under(local) {
                            Some((surface, corner)) => Some(
                                Focus {
                                    surface,
                                    client: entry.element.client,
                                    origin: window_pos.add(corner),
                                },
                            ),
                            None => None,
                        }
                    },
                    None => None,
                }
            },
            None => None,
        }
    }

    /// Installs `grab` with the given serial in place of any grab that owns
    /// the pointer, and takes the focus from the pointer.
    pub fn set_grab(&mut self, grab: PointerGrab, serial: u32) -> (actions: Vec<Action>)
        ensures
            final(self).seat == grabbed_seat(old(self).seat, grab, serial),
            actions@ == grab_actions(old(self).seat.location, serial),
            final(self).space == old(self).space,
            final(self).popup_manager == old(self).popup_manager,
            final(self).surfaces == old(self).surfaces,
            final(self).x11_windows == old(self).x11_windows,
            final(self).pressed == old(self).pressed,
            final(self).serial == old(self).serial,
    {
        self.seat.grab = Some(ActiveGrab { serial, grab });
        self.seat.pointer_focus = None;
        let mut actions: Vec<Action> = Vec::new();
        actions.push(
            Action::PointerMotion {
                focus: None,
                event: MotionEvent { location: self.seat.location, serial, time: 0 },
            },
        );
        actions
    }

    /// What a frame tick tidies up: destroyed windows leave the scene, and
    /// popups that have lost their root or a popup below them are closed.
    pub fn refresh(&mut self) -> (actions: Vec<Action>)
        requires
            old(self).wf(),
        ensures
            final(self).wf(),
            final(self).space@ == crate::space::alive_only(old(self).space@),
            final(self).space.screens() == old(self).space.screens(),
            final(self).popup_manager@ == crate::popup::cleanup_result(
                old(self).popup_manager@,
                final(self).space@,
            ),
            actions@ == crate::popup::cleanup_actions(old(self).popup_manager@, final(self).space@),
            crate::popup::all_rooted(final(self).popup_manager@, final(self).space@),
            final(self).surfaces == old(self).surfaces,
            final(self).x11_windows == old(self).x11_windows,
            final(self).seat == old(self).seat,
            final(self).pressed == old(self).pressed,
            final(self).serial == old(self).serial,
    {
        self.space.refresh();
        self.popup_manager.cleanup(&self.space)
    }
}

} // verus!
