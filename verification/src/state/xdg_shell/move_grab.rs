//! Moving a window with the pointer.
use crate::geometry::{clamp_i32, round_to_units, round_units, saturate, FixedPoint, Point};
use crate::popup::root_alive;
use crate::seat::{holds, Action, GrabStartData, MotionEvent, PointerGrab, Seat};
use crate::space::{index_of, mapped, relocate_result, stack_wf, Space, SpaceEntry};
use crate::state::xdg_shell::{check_grab, checked_grab};
use crate::state::{grab_actions, grabbed_seat, ThingState};
use vstd::prelude::*;

verus! {

/// The pointer grab of a move.
#[derive(Clone, Copy, PartialEq, Eq, Debug)]
pub struct MovePointerGrab {
    pub start_data: GrabStartData,
    /// The window that is moved.
    pub window: u64,
    /// Where the window was when the grab began.
    pub initial_window_location: Point,
}

/// Where a coordinate `initial` ends up when the pointer has gone from
/// `start` to `now`: the pointer's way is added as it is and the sum rounded
/// to whole units.
pub open spec fn moved_coordinate(initial: i32, start: i32, now: i32) -> int {
    clamp_i32(round_units(initial * 256 + (now - start)))
}

/// Where a coordinate ends up; see [`moved_coordinate`].
fn move_coordinate(initial: i32, start: i32, now: i32) -> (r: i32)
    ensures
        r == moved_coordinate(initial, start, now),
{
    saturate(round_to_units(initial as i64 * 256 + (now as i64 - start as i64)))
}

impl MovePointerGrab {
    /// Where the window belongs when the pointer is at `location`.
    pub open spec fn location_at(&self, location: FixedPoint) -> Point {
        Point {
            x: moved_coordinate(
                self.initial_window_location.x,
                self.start_data.location.x,
                location.x,
            ) as i32,
            y: moved_coordinate(
                self.initial_window_location.y,
                self.start_data.location.y,
                location.y,
            ) as i32,
        }
    }

    /// Where the window belongs when the pointer is at `location`.
    pub fn new_location(&self, location: FixedPoint) -> (p: Point)
        ensures
            p == self.location_at(location),
    {
        Point {
            x: move_coordinate(
                self.initial_window_location.x,
                self.start_data.location.x,
                location.x,
            ),
            y: move_coordinate(
                self.initial_window_location.y,
                self.start_data.location.y,
                location.y,
            ),
        }
    }

    /// Handles a pointer motion during the grab: the pointer moves and loses
    /// its focus, and the window follows the pointer. The stacking order and
    /// every activation stay as they are; a window that is gone is left
    /// alone.
    pub fn motion(&self, space: &mut Space, event: &MotionEvent) -> (actions: Vec<Action>)
        requires
            old(space).wf(),
        ensures
            final(space).wf(),
            final(space)@ == relocate_result(
                old(space)@,
                self.window,
                self.location_at(event.location),
            ),
            final(space).screens() == old(space).screens(),
            actions@ == seq![Action::PointerMotion { focus: None, event: *event }],
    {
        let mut actions: Vec<Action> = Vec::new();
        actions.push(Action::PointerMotion { focus: None, event: *event });
        space.relocate(self.window, self.new_location(event.location));
        actions
    }

    /// Whether the grab ends once the buttons `pressed` are the ones held: it
    /// does when the button that began it is not among them.
    pub open spec fn released(&self, pressed: Seq<u32>) -> bool {
        !holds(pressed, self.start_data.button)
    }
}

/// The grab that a request to move `window` begins, if any: the window has
/// to be a live window of the scene, and the request has to answer to the
/// grab that owns the pointer, begun on a surface of the window's client.
pub open spec fn requested_move(s: Seq<SpaceEntry>, seat: Seat, window: u64, serial: u32) -> Option<
    MovePointerGrab,
> {
    let entry = s[index_of(s, window)];
    if root_alive(s, window) {
        match checked_grab(seat, entry.element.client, serial) {
            Some(start_data) => Some(
                MovePointerGrab { start_data, window, initial_window_location: entry.location },
            ),
            None => None,
        }
    } else {
        None
    }
}

/// What a request to move `window` leaves behind: the move grab that
/// [`requested_move`] names owns the pointer, which has lost its focus; a
/// request that begins no grab changes nothing.
pub open spec fn move_request_post(
    pre: ThingState,
    post: ThingState,
    actions: Seq<Action>,
    window: u64,
    serial: u32,
) -> bool {
    &&& post.space@ == pre.space@
    &&& post.space.screens() == pre.space.screens()
    &&& post.popup_manager@ == pre.popup_manager@
    &&& post.surfaces@ == pre.surfaces@
    &&& post.x11_windows@ == pre.x11_windows@
    &&& post.pressed@ == pre.pressed@
    &&& post.serial == pre.serial
    &&& match requested_move(pre.space@, pre.seat, window, serial) {
        Some(grab) => post.seat == grabbed_seat(pre.seat, PointerGrab::Move(grab), serial)
            && actions == grab_actions(pre.seat.location, serial),
        None => post.seat == pre.seat && actions == Seq::<Action>::empty(),
    }
}

/// Begins the move that a client asks for; see [`move_request_post`].
pub fn handle_move_request(state: &mut ThingState, window: u64, serial: u32) -> (actions: Vec<
    Action,
>)
    requires
        old(state).wf(),
    ensures
        final(state).wf(),
        move_request_post(*old(state), *final(state), actions@, window, serial),
{
    let (client, initial_window_location) = match state.space.element(window) {
        Some(entry) => {
            if !entry.element.alive {
                return Vec::new();
            }
            (entry.element.client, entry.location)
        },
        None => {
            return Vec::new();
        },
    };
    let start_data = match check_grab(&state.seat, client, serial) {
        Some(start_data) => start_data,
        None => {
            return Vec::new();
        },
    };
    let grab = MovePointerGrab { start_data, window, initial_window_location };
    state.set_grab(PointerGrab::Move(grab), serial)
}

/// A whole number of units is not changed by rounding.
pub proof fn lemma_round_whole(v: int)
    ensures
        round_units(v * 256) == v,
{
    if v >= 0 {
        assert((v * 256 + 128) / 256 == v) by (nonlinear_arith)
            requires
                v >= 0,
        ;
    } else {
        assert((-(v * 256) + 128) / 256 == -v) by (nonlinear_arith)
            requires
                v < 0,
        ;
    }
}

/// A move that ends where it began puts the window where it was: with the
/// pointer back at the place where the grab began, the window belongs at its
/// initial location, and moving a window to the place where it stands
/// changes nothing.
pub proof fn lemma_move_without_motion(grab: MovePointerGrab, s: Seq<SpaceEntry>)
    requires
        stack_wf(s),
    ensures
        grab.location_at(grab.start_data.location) == grab.initial_window_location,
        mapped(s, grab.window) && s[index_of(s, grab.window)].location
            == grab.initial_window_location ==> relocate_result(
            s,
            grab.window,
            grab.location_at(grab.start_data.location),
        ) == s,
{
    lemma_round_whole(grab.initial_window_location.x as int);
    lemma_round_whole(grab.initial_window_location.y as int);
    if mapped(s, grab.window) && s[index_of(s, grab.window)].location
        == grab.initial_window_location {
        let i = index_of(s, grab.window);
        assert(s.update(i, SpaceEntry { element: s[i].element, location: s[i].location }) =~= s);
    }
}

} // verus!
