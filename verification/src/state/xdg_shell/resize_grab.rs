//! Resizing a window with the pointer.
//!
//! While the grab lasts, each motion asks the client for a new size. The
//! window itself moves only when the client commits: a window that is dragged
//! by its top or left edge has to stay anchored at the opposite edge, and only
//! the committed size tells where that puts its corner.
use crate::geometry::{
    clamp_i32, max_int, min_int, saturate, trunc_to_units, trunc_units, FixedPoint, Point,
    Rectangle, Size,
};
use crate::popup::root_alive;
use crate::seat::{Action, GrabStartData, MotionEvent, PointerGrab, Seat};
use crate::space::{geometry_in_space, index_of, mapped, relocate_result, Space, SpaceEntry};
use crate::state::xdg_shell::{check_grab, checked_grab, state_of, SurfaceState, SurfaceStates};
use crate::state::{grab_actions, grabbed_seat, ThingState};
use vstd::prelude::*;

verus! {

/// The edges of a window that a resize drags; a corner is the two edges that
/// meet there.
#[derive(Clone, Copy, PartialEq, Eq, Structural, Debug, Hash)]
pub struct ResizeEdge {
    pub top: bool,
    pub bottom: bool,
    pub left: bool,
    pub right: bool,
}

impl ResizeEdge {
    pub const TOP: u32 = 0b0001;

    pub const BOTTOM: u32 = 0b0010;

    pub const LEFT: u32 = 0b0100;

    pub const RIGHT: u32 = 0b1000;

    pub const TOP_LEFT: u32 = 0b0101;

    pub const BOTTOM_LEFT: u32 = 0b0110;

    pub const TOP_RIGHT: u32 = 0b1001;

    pub const BOTTOM_RIGHT: u32 = 0b1010;

    /// The edges that the bits of `bits` name: 1 for the top, 2 for the
    /// bottom, 4 for the left and 8 for the right edge.
    pub open spec fn of_bits(bits: u32) -> ResizeEdge {
        ResizeEdge {
            top: bits % 2 == 1,
            bottom: (bits / 2) % 2 == 1,
            left: (bits / 4) % 2 == 1,
            right: (bits / 8) % 2 == 1,
        }
    }

    /// The bits that name these edges.
    pub open spec fn to_bits(self) -> int {
        (if self.top {
            1int
        } else {
            0
        }) + (if self.bottom {
            2int
        } else {
            0
        }) + (if self.left {
            4int
        } else {
            0
        }) + (if self.right {
            8int
        } else {
            0
        })
    }

    /// The edges named by `bits`, unless a bit is set that names no edge.
    pub fn from_bits(bits: u32) -> (r: Option<ResizeEdge>)
        ensures
            r == (if bits < 16 {
                Some(Self::of_bits(bits))
            } else {
                None
            }),
            r.is_some() ==> r.unwrap().to_bits() == bits,
    {
        if bits >= 16 {
            None
        } else {
            Some(
                ResizeEdge {
                    top: bits % 2 == 1,
                    bottom: (bits / 2) % 2 == 1,
                    left: (bits / 4) % 2 == 1,
                    right: (bits / 8) % 2 == 1,
                },
            )
        }
    }

    /// The bits that name these edges.
    pub fn bits(&self) -> (b: u32)
        ensures
            b == self.to_bits(),
            Self::of_bits(b) == *self,
    {
        let t: u32 = if self.top { 1 } else { 0 };
        let b: u32 = if self.bottom { 2 } else { 0 };
        let l: u32 = if self.left { 4 } else { 0 };
        let r: u32 = if self.right { 8 } else { 0 };
        t + b + l + r
    }

    /// No edge.
    pub fn empty() -> (e: ResizeEdge)
        ensures
            e == (ResizeEdge { top: false, bottom: false, left: false, right: false }),
    {
        ResizeEdge { top: false, bottom: false, left: false, right: false }
    }

    /// The bottom right corner.
    pub fn bottom_right() -> (e: ResizeEdge)
        ensures
            e == (ResizeEdge { top: false, bottom: true, left: false, right: true }),
            e == Self::of_bits(Self::BOTTOM_RIGHT),
    {
        ResizeEdge { top: false, bottom: true, left: false, right: true }
    }

    /// Whether the two have an edge in common.
    pub open spec fn spec_intersects(self, other: ResizeEdge) -> bool {
        (self.top && other.top) || (self.bottom && other.bottom) || (self.left && other.left) || (
        self.right && other.right)
    }

    /// Whether the two have an edge in common.
    pub fn intersects(&self, other: ResizeEdge) -> (b: bool)
        ensures
            b == self.spec_intersects(other),
    {
        (self.top && other.top) || (self.bottom && other.bottom) || (self.left && other.left) || (
        self.right && other.right)
    }

    /// Whether a horizontal edge is dragged.
    pub open spec fn vertical(self) -> bool {
        self.top || self.bottom
    }

    /// Whether a vertical edge is dragged.
    pub open spec fn horizontal(self) -> bool {
        self.left || self.right
    }
}

/// What a pointer movement of `raw` along one axis adds to the extent of the
/// window along that axis.
///
/// `inverted` says that the edge at the low end of the axis (left or top) is
/// dragged: moving it towards lower coordinates grows the window. `dragged`
/// says that an edge of this axis is dragged, `other_dragged` that an edge of
/// the other axis is. A movement along an axis counts unless only edges of
/// the other axis are dragged.
pub open spec fn axis_delta(raw: int, inverted: bool, dragged: bool, other_dragged: bool) -> int {
    if inverted {
        -raw
    } else if dragged || !other_dragged {
        raw
    } else {
        0
    }
}

/// The least extent that a client with the minimum `min` is asked for: never
/// less than 1.
pub open spec fn lower_bound(min: i32) -> int {
    max_int(min as int, 1)
}

/// The greatest extent that a client with the maximum `max` is asked for; 0
/// means that there is none.
pub open spec fn upper_bound(max: i32) -> int {
    if max == 0 {
        i32::MAX as int
    } else {
        max as int
    }
}

/// `candidate` limited by the maximum first and by the minimum then, so that
/// the minimum wins where the two contradict each other.
pub open spec fn clamp_dimension(candidate: int, min: i32, max: i32) -> int {
    max_int(lower_bound(min), min_int(upper_bound(max), candidate))
}

/// The size to ask for when a window of size `initial` is dragged by `edges`
/// and the pointer has moved from `start` to `location`.
pub open spec fn resized(
    initial: Size,
    edges: ResizeEdge,
    start: FixedPoint,
    location: FixedPoint,
    min_size: Size,
    max_size: Size,
) -> Size {
    let dx = trunc_units(
        axis_delta(location.x - start.x, edges.left, edges.horizontal(), edges.vertical()),
    );
    let dy = trunc_units(
        axis_delta(location.y - start.y, edges.top, edges.vertical(), edges.horizontal()),
    );
    Size {
        w: clamp_dimension(initial.w + dx, min_size.w, max_size.w) as i32,
        h: clamp_dimension(initial.h + dy, min_size.h, max_size.h) as i32,
    }
}

/// The extent to ask for along one axis.
fn resize_axis(
    initial: i32,
    raw: i64,
    inverted: bool,
    dragged: bool,
    other_dragged: bool,
    min: i32,
    max: i32,
) -> (r: i32)
    requires
        -0x1_0000_0000 <= raw <= 0x1_0000_0000,
    ensures
        r == clamp_dimension(
            initial + trunc_units(axis_delta(raw as int, inverted, dragged, other_dragged)),
            min,
            max,
        ),
        r >= 1,
{
    let delta: i64 = if inverted {
        -raw
    } else if dragged || !other_dragged {
        raw
    } else {
        0
    };
    let candidate: i64 = initial as i64 + trunc_to_units(delta);
    let low: i64 = if min >= 1 { min as i64 } else { 1 };
    let high: i64 = if max == 0 { 2147483647 } else { max as i64 };
    let capped: i64 = if candidate <= high { candidate } else { high };
    let r: i64 = if capped >= low { capped } else { low };
    r as i32
}

/// A clamped extent is never less than 1 and never less than the client's
/// minimum. Where the bounds do not contradict each other it lies between
/// them: it is the candidate if that does, and the nearer bound if not.
pub proof fn lemma_clamp_dimension(candidate: int, min: i32, max: i32)
    ensures
        clamp_dimension(candidate, min, max) >= 1,
        clamp_dimension(candidate, min, max) >= min,
        clamp_dimension(candidate, min, max) <= i32::MAX,
        lower_bound(min) <= upper_bound(max) ==> {
            &&& lower_bound(min) <= clamp_dimension(candidate, min, max) <= upper_bound(max)
            &&& (lower_bound(min) <= candidate <= upper_bound(max) ==> clamp_dimension(
                candidate,
                min,
                max,
            ) == candidate)
            &&& (candidate < lower_bound(min) ==> clamp_dimension(candidate, min, max)
                == lower_bound(min))
            &&& (candidate > upper_bound(max) ==> clamp_dimension(candidate, min, max)
                == upper_bound(max))
        },
{
}

/// The pointer grab of a resize.
#[derive(Clone, Copy, PartialEq, Eq, Debug)]
pub struct ResizePointerGrab {
    pub start_data: GrabStartData,
    /// The window that is resized.
    pub window: u64,
    /// Where the window was and how large, when the grab began.
    pub initial_rect: Rectangle,
    pub edges: ResizeEdge,
    /// The size that was last asked for.
    pub last_window_size: Size,
}

impl ResizePointerGrab {
    /// Begins a resize of `window`: the grab's last size asked for is the
    /// size that the window has, and from now on the shell counts the
    /// window's surface as being resized by `edges` from `initial_rect`.
    pub fn start(
        start_data: GrabStartData,
        window: u64,
        initial_rect: Rectangle,
        edges: ResizeEdge,
        states: &mut SurfaceStates,
    ) -> (g: ResizePointerGrab)
        ensures
            g == (ResizePointerGrab {
                start_data,
                window,
                initial_rect,
                edges,
                last_window_size: initial_rect.size,
            }),
            final(states)@ == old(states)@.insert(
                window,
                SurfaceState {
                    resize: ResizeSurfaceState::Resizing { edges, initial_rect },
                    ..state_of(old(states)@, window)
                },
            ),
            state_of(final(states)@, window).resize == (ResizeSurfaceState::Resizing {
                edges,
                initial_rect,
            }),
    {
        let last_window_size = initial_rect.size;
        let mut surface = states.get(window);
        surface.resize = ResizeSurfaceState::Resizing { edges, initial_rect };
        states.set(window, surface);
        ResizePointerGrab { start_data, window, initial_rect, edges, last_window_size }
    }

    /// The size to ask for when the pointer is at `location`.
    pub open spec fn size_at(&self, location: FixedPoint, min_size: Size, max_size: Size) -> Size {
        resized(
            self.initial_rect.size,
            self.edges,
            self.start_data.location,
            location,
            min_size,
            max_size,
        )
    }

    /// The grab after the pointer moved to `location`, over the windows `s`:
    /// it remembers the size that it asked for, if the window is still there.
    pub open spec fn after_motion(&self, s: Seq<SpaceEntry>, location: FixedPoint) -> ResizePointerGrab {
        let i = index_of(s, self.window);
        if mapped(s, self.window) && s[i].element.alive {
            ResizePointerGrab {
                last_window_size: self.size_at(
                    location,
                    s[i].element.min_size,
                    s[i].element.max_size,
                ),
                ..*self
            }
        } else {
            *self
        }
    }

    /// What a motion asks of the runtime, over the windows `s`: the pointer
    /// moves and loses its focus; the window, if it is still there, is asked
    /// for the new size and told that it is being resized.
    pub open spec fn motion_actions(&self, s: Seq<SpaceEntry>, event: MotionEvent) -> Seq<Action> {
        let i = index_of(s, self.window);
        let moved = seq![Action::PointerMotion { focus: None, event }];
        if mapped(s, self.window) && s[i].element.alive {
            moved.push(
                Action::Configure {
                    surface: self.window,
                    size: Some(self.after_motion(s, event.location).last_window_size),
                    resizing: true,
                    activated: s[i].element.activated,
                },
            )
        } else {
            moved
        }
    }

    /// Handles a pointer motion during the grab. The window is not moved:
    /// that waits for the client's commit.
    pub fn motion(&mut self, space: &Space, event: &MotionEvent) -> (actions: Vec<Action>)
        requires
            space.wf(),
        ensures
            *final(self) == old(self).after_motion(space@, event.location),
            actions@ == old(self).motion_actions(space@, *event),
            final(self).last_window_size.w >= 1 && final(self).last_window_size.h >= 1
                || *final(self) == *old(self),
    {
        let mut actions: Vec<Action> = Vec::new();
        actions.push(Action::PointerMotion { focus: None, event: *event });
        match space.element(self.window) {
            Some(entry) => {
                if entry.element.alive {
                    let start = self.start_data.location;
                    let horizontal = self.edges.left || self.edges.right;
                    let vertical = self.edges.top || self.edges.bottom;
                    let w = resize_axis(
                        self.initial_rect.size.w,
                        event.location.x as i64 - start.x as i64,
                        self.edges.left,
                        horizontal,
                        vertical,
                        entry.element.min_size.w,
                        entry.element.max_size.w,
                    );
                    let h = resize_axis(
                        self.initial_rect.size.h,
                        event.location.y as i64 - start.y as i64,
                        self.edges.top,
                        vertical,
                        horizontal,
                        entry.element.min_size.h,
                        entry.element.max_size.h,
                    );
                    self.last_window_size = Size { w, h };
                    actions.push(
                        Action::Configure {
                            surface: self.window,
                            size: Some(self.last_window_size),
                            resizing: true,
                            activated: entry.element.activated,
                        },
                    );
                }
            },
            None => {},
        }
        actions
    }

    /// Whether the grab ends once the buttons `pressed` are the ones held: it
    /// does when the button that began it is not among them.
    pub open spec fn released(&self, pressed: Seq<u32>) -> bool {
        !crate::seat::holds(pressed, self.start_data.button)
    }

    /// What the end of the grab asks of the runtime, over the windows `s`:
    /// the window, if it is still there, is asked for the last size once
    /// more and told that the resize is over.
    pub open spec fn final_actions(&self, s: Seq<SpaceEntry>) -> Seq<Action> {
        let i = index_of(s, self.window);
        if mapped(s, self.window) && s[i].element.alive {
            seq![
                Action::Configure {
                    surface: self.window,
                    size: Some(self.last_window_size),
                    resizing: false,
                    activated: s[i].element.activated,
                },
            ]
        } else {
            Seq::empty()
        }
    }

    /// The state that the window's surface is left in when the grab ends: it
    /// waits for the commit that shows the final size.
    pub open spec fn final_state(&self) -> ResizeSurfaceState {
        ResizeSurfaceState::WaitingForLastCommit {
            edges: self.edges,
            initial_rect: self.initial_rect,
        }
    }

    /// Ends the grab: the window is asked for the last size once more, and
    /// its surface waits for the commit that shows it.
    pub fn finish(&self, space: &Space, states: &mut SurfaceStates) -> (actions: Vec<Action>)
        requires
            space.wf(),
        ensures
            actions@ == self.final_actions(space@),
            final(states)@ == old(states)@.insert(
                self.window,
                SurfaceState { resize: self.final_state(), ..state_of(old(states)@, self.window) },
            ),
    {
        let mut actions: Vec<Action> = Vec::new();
        let mut state = states.get(self.window);
        state.resize =
        ResizeSurfaceState::WaitingForLastCommit {
            edges: self.edges,
            initial_rect: self.initial_rect,
        };
        states.set(self.window, state);
        match space.element(self.window) {
            Some(entry) => {
                if entry.element.alive {
                    actions.push(
                        Action::Configure {
                            surface: self.window,
                            size: Some(self.last_window_size),
                            resizing: false,
                            activated: entry.element.activated,
                        },
                    );
                }
            },
            None => {},
        }
        actions
    }
}

/// Where a surface stands in a resize.
#[derive(Clone, Copy, PartialEq, Eq, Debug)]
pub enum ResizeSurfaceState {
    Idle,
    /// The window is being resized.
    Resizing {
        edges: ResizeEdge,
        /// Where the window was and how large, when the resize began.
        initial_rect: Rectangle,
    },
    /// The resize is over but for the commit that shows the final size.
    WaitingForLastCommit {
        edges: ResizeEdge,
        /// Where the window was and how large, when the resize began.
        initial_rect: Rectangle,
    },
}

impl ResizeSurfaceState {
    /// The state after a commit: a resize that waited for its last commit is
    /// over.
    pub open spec fn after_commit(self) -> ResizeSurfaceState {
        match self {
            ResizeSurfaceState::WaitingForLastCommit { .. } => ResizeSurfaceState::Idle,
            other => other,
        }
    }

    /// The edges and the initial rectangle of the resize that a commit
    /// belongs to, if there is one.
    pub open spec fn committed(self) -> Option<(ResizeEdge, Rectangle)> {
        match self {
            ResizeSurfaceState::Idle => None,
            ResizeSurfaceState::Resizing { edges, initial_rect } => Some((edges, initial_rect)),
            ResizeSurfaceState::WaitingForLastCommit { edges, initial_rect } => Some(
                (edges, initial_rect),
            ),
        }
    }

    /// Takes note of a commit.
    pub fn commit(&mut self) -> (r: Option<(ResizeEdge, Rectangle)>)
        ensures
            r == old(self).committed(),
            *final(self) == old(self).after_commit(),
    {
        match *self {
            ResizeSurfaceState::Resizing { edges, initial_rect } => Some((edges, initial_rect)),
            ResizeSurfaceState::WaitingForLastCommit { edges, initial_rect } => {
                *self = ResizeSurfaceState::Idle;
                Some((edges, initial_rect))
            },
            ResizeSurfaceState::Idle => None,
        }
    }
}

/// The grab that a request to resize `window` by `edges` begins, if any: the
/// window has to be a live window of the scene, and the request has to
/// answer to the grab that owns the pointer, begun on a surface of the
/// window's client.
pub open spec fn requested_resize(
    s: Seq<SpaceEntry>,
    seat: Seat,
    window: u64,
    serial: u32,
    edges: ResizeEdge,
) -> Option<ResizePointerGrab> {
    let entry = s[index_of(s, window)];
    if root_alive(s, window) {
        match checked_grab(seat, entry.element.client, serial) {
            Some(start_data) => Some(
                ResizePointerGrab {
                    start_data,
                    window,
                    initial_rect: geometry_in_space(entry),
                    edges,
                    last_window_size: entry.element.geometry.size,
                },
            ),
            None => None,
        }
    } else {
        None
    }
}

/// What a request to resize `window` leaves behind: the resize grab that
/// [`requested_resize`] names owns the pointer, which has lost its focus,
/// and the surface of the window is being resized; a request that begins no
/// grab changes nothing.
pub open spec fn resize_request_post(
    pre: ThingState,
    post: ThingState,
    actions: Seq<Action>,
    window: u64,
    serial: u32,
    edges: ResizeEdge,
) -> bool {
    &&& post.space@ == pre.space@
    &&& post.space.screens() == pre.space.screens()
    &&& post.popup_manager@ == pre.popup_manager@
    &&& post.x11_windows@ == pre.x11_windows@
    &&& post.pressed@ == pre.pressed@
    &&& post.serial == pre.serial
    &&& match requested_resize(pre.space@, pre.seat, window, serial, edges) {
        Some(grab) => {
            &&& post.seat == grabbed_seat(pre.seat, PointerGrab::Resize(grab), serial)
            &&& post.surfaces@ == pre.surfaces@.insert(
                window,
                SurfaceState {
                    resize: ResizeSurfaceState::Resizing { edges, initial_rect: grab.initial_rect },
                    ..state_of(pre.surfaces@, window)
                },
            )
            &&& actions == grab_actions(pre.seat.location, serial)
        },
        None => post.seat == pre.seat && post.surfaces@ == pre.surfaces@ && actions == Seq::<
            Action,
        >::empty(),
    }
}

/// Begins the resize that a client asks for; see [`resize_request_post`].
pub fn handle_resize_request(
    state: &mut ThingState,
    window: u64,
    serial: u32,
    edges: ResizeEdge,
) -> (actions: Vec<Action>)
    requires
        old(state).wf(),
    ensures
        final(state).wf(),
        resize_request_post(*old(state), *final(state), actions@, window, serial, edges),
{
    let (client, initial_rect) = match state.space.element(window) {
        Some(entry) => {
            if !entry.element.alive {
                return Vec::new();
            }
            (entry.element.client, entry.geometry())
        },
        None => {
            return Vec::new();
        },
    };
    let start_data = match check_grab(&state.seat, client, serial) {
        Some(start_data) => start_data,
        None => {
            return Vec::new();
        },
    };
    let grab = ResizePointerGrab::start(
        start_data,
        window,
        initial_rect,
        edges,
        &mut state.surfaces,
    );
    state.set_grab(PointerGrab::Resize(grab), serial)
}

/// Where a commit puts a window that stood at `current` and now has the size
/// `committed`, in a resize by `edges` that began at `initial`: its right
/// edge stays where it was if the left edge was dragged, and its bottom edge
/// if the top edge was. Without such an edge, nothing moves.
pub open spec fn corrected_location(
    current: Point,
    committed: Size,
    edges: ResizeEdge,
    initial: Rectangle,
) -> Point {
    Point {
        x: if edges.left {
            clamp_i32(initial.loc.x + (initial.size.w - committed.w)) as i32
        } else {
            current.x
        },
        y: if edges.top {
            clamp_i32(initial.loc.y + (initial.size.h - committed.h)) as i32
        } else {
            current.y
        },
    }
}

/// The windows after the surface `surface` committed during a resize by its
/// top or left edge: the window stands at its corrected location, in the
/// same place of the stack and with the same activation. Any other commit
/// leaves them as they are.
pub open spec fn resize_commit_result(
    s: Seq<SpaceEntry>,
    state: ResizeSurfaceState,
    surface: u64,
) -> Seq<SpaceEntry> {
    let i = index_of(s, surface);
    if mapped(s, surface) {
        match state.committed() {
            Some((edges, initial)) => if edges.left || edges.top {
                relocate_result(
                    s,
                    surface,
                    corrected_location(s[i].location, s[i].element.geometry.size, edges, initial),
                )
            } else {
                s
            },
            None => s,
        }
    } else {
        s
    }
}

/// Takes note of a commit of `surface` for the resize that it may be part
/// of, and moves the window where the committed size puts it. Answers `None`
/// if no window is mapped for the surface.
pub fn handle_commit(space: &mut Space, states: &mut SurfaceStates, surface: u64) -> (r: Option<()>)
    requires
        old(space).wf(),
    ensures
        final(space).wf(),
        final(space).screens() == old(space).screens(),
        r.is_some() == mapped(old(space)@, surface),
        final(space)@ == resize_commit_result(
            old(space)@,
            state_of(old(states)@, surface).resize,
            surface,
        ),
        mapped(old(space)@, surface) ==> final(states)@ == old(states)@.insert(
            surface,
            SurfaceState {
                resize: state_of(old(states)@, surface).resize.after_commit(),
                ..state_of(old(states)@, surface)
            },
        ),
        !mapped(old(space)@, surface) ==> final(states)@ == old(states)@,
{
    let (window_loc, committed) = match space.element(surface) {
        Some(entry) => (entry.location, entry.element.geometry.size),
        None => {
            return None;
        },
    };
    let mut state = states.get(surface);
    let resize = state.resize.commit();
    states.set(surface, state);
    match resize {
        Some((edges, initial_rect)) => {
            if edges.left || edges.top {
                let x = if edges.left {
                    saturate(
                        initial_rect.loc.x as i64 + (initial_rect.size.w as i64 - committed.w as i64),
                    )
                } else {
                    window_loc.x
                };
                let y = if edges.top {
                    saturate(
                        initial_rect.loc.y as i64 + (initial_rect.size.h as i64 - committed.h as i64),
                    )
                } else {
                    window_loc.y
                };
                space.relocate(surface, Point { x, y });
            }
        },
        None => {},
    }
    Some(())
}

/// A window dragged by its top edge from height `h` at `y` stands, once the
/// height `h2` is committed, at `y + (h - h2)`: its bottom edge has not
/// moved. The same holds of the left edge, the width and `x`. An edge that is
/// not dragged leaves its coordinate alone.
pub proof fn lemma_anchored_resize(
    current: Point,
    committed: Size,
    edges: ResizeEdge,
    initial: Rectangle,
)
    ensures
        edges.top && i32::MIN <= initial.loc.y + (initial.size.h - committed.h) <= i32::MAX ==> {
            &&& corrected_location(current, committed, edges, initial).y == initial.loc.y + (
            initial.size.h - committed.h)
            &&& corrected_location(current, committed, edges, initial).y + committed.h
                == initial.bottom()
        },
        edges.left && i32::MIN <= initial.loc.x + (initial.size.w - committed.w) <= i32::MAX ==> {
            &&& corrected_location(current, committed, edges, initial).x == initial.loc.x + (
            initial.size.w - committed.w)
            &&& corrected_location(current, committed, edges, initial).x + committed.w
                == initial.right()
        },
        !edges.top ==> corrected_location(current, committed, edges, initial).y == current.y,
        !edges.left ==> corrected_location(current, committed, edges, initial).x == current.x,
{
}

} // verus!
