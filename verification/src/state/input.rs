//! The focus router: what comes from the input devices is positioned, given
//! to the grab that owns the pointer or to the surface that has the focus,
//! and may change what is focused and activated.
use crate::geometry::{clamp_i32, FixedPoint, Rectangle};
use crate::popup::{has_chain, root_alive, ChainView};
use crate::seat::{
    holds, is_pressed, pressed_after, update_pressed, Action, ActiveGrab, AxisFrame,
    AxisRelativeDirection, AxisSource, ButtonEvent, ButtonState, Focus, GrabStartData,
    KeyState, MotionEvent, PointerGrab, Seat,
};
use crate::space::{
    active_of, deactivated, element_under_result, geometry_in_space, index_of, raise_result,
    relocate_result, SpaceEntry,
};
use crate::state::xdg_shell::move_grab::MovePointerGrab;
use crate::state::xdg_shell::resize_grab::{ResizeEdge, ResizePointerGrab, ResizeSurfaceState};
use crate::state::xdg_shell::{being_resized, state_of, SurfaceState, SurfaceStates};
use crate::state::{grab_actions, grabbed_seat, serial_after, surface_under_result, ThingState};
use vstd::prelude::*;

verus! {

/// The code of the left pointer button.
pub const BTN_LEFT: u32 = 0x110;

/// The code of the right pointer button.
pub const BTN_RIGHT: u32 = 0x111;

/// What an input device reports.
#[derive(Clone, Copy, PartialEq, Eq, Debug)]
pub enum InputEvent {
    /// A key went down or up.
    Keyboard { key_code: u32, state: KeyState, time: u32 },
    /// A relative device moved the pointer by `delta`.
    PointerMotion { delta: FixedPoint, time: u32 },
    /// An absolute device put the pointer at `(x, y)` of its own extent of
    /// `width` by `height`.
    PointerMotionAbsolute { x: i32, y: i32, width: i32, height: i32, time: u32 },
    /// A pointer button went down or up; `alt` says whether the modifier
    /// that starts a move or a resize was held.
    PointerButton { button: u32, state: ButtonState, time: u32, alt: bool },
    /// The user scrolled. Each pair holds the horizontal and the vertical
    /// axis; an amount counts 256ths of a logical unit.
    PointerAxis {
        source: AxisSource,
        amount: (Option<i32>, Option<i32>),
        amount_v120: (Option<i32>, Option<i32>),
        relative_direction: (AxisRelativeDirection, AxisRelativeDirection),
        time: u32,
    },
    /// Anything else, which the server ignores.
    Other,
}

/// The configures that tell of a change of the activated window: the window
/// that is no longer activated hears of it first, then the one that is now.
/// Each of them is told as well whether the shell's table `m` counts it as
/// being resized, so that a resize under way is not declared over.
pub open spec fn activation_changes(
    before: Option<u64>,
    after: Option<u64>,
    m: Map<u64, SurfaceState>,
) -> Seq<Action> {
    if before == after {
        Seq::empty()
    } else {
        (match before {
            Some(surface) => seq![
                Action::Configure {
                    surface,
                    size: None,
                    resizing: being_resized(m, surface),
                    activated: false,
                },
            ],
            None => Seq::empty(),
        }) + (match after {
            Some(surface) => seq![
                Action::Configure {
                    surface,
                    size: None,
                    resizing: being_resized(m, surface),
                    activated: true,
                },
            ],
            None => Seq::empty(),
        })
    }
}

/// The configures of a change of activation depend on the shell's table only
/// through which surfaces are being resized.
pub proof fn lemma_activation_changes(
    before: Option<u64>,
    after: Option<u64>,
    m: Map<u64, SurfaceState>,
    n: Map<u64, SurfaceState>,
)
    requires
        forall|surface: u64| being_resized(m, surface) == being_resized(n, surface),
    ensures
        activation_changes(before, after, m) == activation_changes(before, after, n),
{
}

/// Whether a popup grab keeps the keyboard where it is: the seat has one and
/// the chain of its root is still open.
pub open spec fn keyboard_locked(seat: Seat, v: Seq<ChainView>) -> bool {
    seat.keyboard_grab.is_some() && has_chain(v, seat.keyboard_grab.unwrap().root)
}

/// The seat after the keyboard focus was set.
pub open spec fn focused_seat(seat: Seat, v: Seq<ChainView>, surface: Option<u64>) -> Seat {
    if keyboard_locked(seat, v) {
        seat
    } else {
        Seat { keyboard_focus: surface, keyboard_grab: None, ..seat }
    }
}

/// The requests that set the keyboard focus.
pub open spec fn focus_actions(
    seat: Seat,
    v: Seq<ChainView>,
    surface: Option<u64>,
    serial: u32,
) -> Seq<Action> {
    if keyboard_locked(seat, v) {
        Seq::empty()
    } else {
        seq![Action::KeyboardFocus { surface, serial }]
    }
}

/// The windows after a press at a place where `under` was found: the window
/// there is raised and activated; with nothing there, no window stays
/// activated.
pub open spec fn press_space(s: Seq<SpaceEntry>, under: Option<(u64, FixedPoint)>) -> Seq<
    SpaceEntry,
> {
    match under {
        Some((window, _)) => raise_result(s, window, true),
        None => deactivated(s),
    }
}

/// The surface that a press at a place where `under` was found gives the
/// keyboard to.
pub open spec fn press_target(under: Option<(u64, FixedPoint)>) -> Option<u64> {
    match under {
        Some((window, _)) => Some(window),
        None => None,
    }
}

/// However a press transfers the focus, at most one window is activated
/// afterwards: the window under the pointer if it is a managed one, and none
/// if the press has hit no window.
pub proof fn lemma_press_exclusive(s: Seq<SpaceEntry>, under: Option<(u64, FixedPoint)>)
    requires
        crate::space::stack_wf(s),
    ensures
        crate::space::stack_wf(press_space(s, under)),
        crate::space::exclusive(press_space(s, under)),
        under.is_none() ==> crate::space::none_activated(press_space(s, under)),
{
    match under {
        Some((window, _)) => {
            crate::space::lemma_raise_result(s, window, true);
        },
        None => {
            crate::space::lemma_deactivated_wf(s);
        },
    }
}

/// Whether the chain that a popup grab routes to is gone.
pub open spec fn popup_ended(v: Seq<ChainView>, root: u64) -> bool {
    !has_chain(v, root)
}

/// The window `root`, if it is a live window of the scene: the surface that
/// gets the keyboard back when the popups above it are gone.
pub open spec fn live_root(s: Seq<SpaceEntry>, root: u64) -> Option<u64> {
    if root_alive(s, root) {
        Some(root)
    } else {
        None
    }
}

/// The seat after the popup grab above `root` ended, over the windows `s`:
/// the pointer is free and the surface that is under it in the scene has its
/// focus; a keyboard grab above the same root is over too, and the root has
/// the keyboard if it is still a live window, else nothing has.
pub open spec fn popup_end_seat(seat: Seat, s: Seq<SpaceEntry>, root: u64) -> Seat {
    let keyboard = seat.keyboard_grab.is_some() && seat.keyboard_grab.unwrap().root == root;
    Seat {
        grab: None,
        pointer_focus: surface_under_result(s, seat.location),
        keyboard_grab: if keyboard {
            None
        } else {
            seat.keyboard_grab
        },
        keyboard_focus: if keyboard {
            live_root(s, root)
        } else {
            seat.keyboard_focus
        },
        ..seat
    }
}

/// The requests that end the popup grab above `root`.
pub open spec fn popup_end_actions(
    seat: Seat,
    s: Seq<SpaceEntry>,
    root: u64,
    serial: u32,
    time: u32,
) -> Seq<Action> {
    let restore = seq![restore_focus(seat, s, serial, time)];
    if seat.keyboard_grab.is_some() && seat.keyboard_grab.unwrap().root == root {
        restore.push(Action::KeyboardFocus { surface: live_root(s, root), serial })
    } else {
        restore
    }
}

/// The focus that a popup grab of `client` lets a motion have: surfaces of
/// other clients get none.
pub open spec fn owner_focus(focus: Option<Focus>, client: u64) -> Option<Focus> {
    match focus {
        Some(f) => if f.client == client {
            focus
        } else {
            None
        },
        None => None,
    }
}

/// The surface that has the pointer focus after a motion to `location`, over
/// the windows `s`. Without a grab it is the surface under the pointer. A
/// held button keeps the focus where it was at the press; a move or a resize
/// leaves the pointer without a focus; a popup grab lets only surfaces of its
/// own client have it.
pub open spec fn motion_focus(
    seat: Seat,
    s: Seq<SpaceEntry>,
    v: Seq<ChainView>,
    location: FixedPoint,
) -> Option<Focus> {
    let focus = surface_under_result(s, location);
    match seat.grab {
        None => focus,
        Some(active) => match active.grab {
            PointerGrab::Click { start_data } => start_data.focus,
            PointerGrab::Move(_) => None,
            PointerGrab::Resize(_) => None,
            PointerGrab::Popup(p) => if popup_ended(v, p.root) {
                focus
            } else {
                owner_focus(focus, p.client)
            },
        },
    }
}

/// The seat after a motion to `event.location`, over the windows `s`.
pub open spec fn motion_seat(
    seat: Seat,
    s: Seq<SpaceEntry>,
    v: Seq<ChainView>,
    event: MotionEvent,
) -> Seat {
    let moved = Seat {
        location: event.location,
        pointer_focus: motion_focus(seat, s, v, event.location),
        ..seat
    };
    match seat.grab {
        None => moved,
        Some(active) => match active.grab {
            PointerGrab::Resize(r) => Seat {
                grab: Some(
                    ActiveGrab {
                        serial: active.serial,
                        grab: PointerGrab::Resize(r.after_motion(s, event.location)),
                    },
                ),
                ..moved
            },
            PointerGrab::Popup(p) => if popup_ended(v, p.root) {
                popup_end_seat(moved, s, p.root)
            } else {
                moved
            },
            _ => moved,
        },
    }
}

/// The windows after a motion: a move grab has its window follow the
/// pointer, and nothing else moves.
pub open spec fn motion_space(seat: Seat, s: Seq<SpaceEntry>, event: MotionEvent) -> Seq<
    SpaceEntry,
> {
    match seat.grab {
        Some(active) => match active.grab {
            PointerGrab::Move(m) => relocate_result(s, m.window, m.location_at(event.location)),
            _ => s,
        },
        None => s,
    }
}

/// The requests of a motion.
pub open spec fn motion_actions(
    seat: Seat,
    s: Seq<SpaceEntry>,
    v: Seq<ChainView>,
    event: MotionEvent,
) -> Seq<Action> {
    let plain = seq![
        Action::PointerMotion { focus: motion_focus(seat, s, v, event.location), event },
    ];
    match seat.grab {
        None => plain,
        Some(active) => match active.grab {
            PointerGrab::Resize(r) => r.motion_actions(s, event),
            PointerGrab::Popup(p) => if popup_ended(v, p.root)
                && seat.keyboard_grab.is_some() && seat.keyboard_grab.unwrap().root == p.root {
                plain.push(
                    Action::KeyboardFocus { surface: live_root(s, p.root), serial: event.serial },
                )
            } else {
                plain
            },
            _ => plain,
        },
    }
}

/// Where an absolute device puts the pointer along one axis of a screen
/// that is `size` units wide there: as far along the screen as `raw` is
/// along the device's extent, in 256ths of a unit. A device without an
/// extent puts it at the start.
pub open spec fn transformed(raw: i32, extent: i32, size: i32) -> int {
    if extent > 0 {
        let n = raw * size * 256;
        clamp_i32(
            if n >= 0 {
                n / (extent as int)
            } else {
                -((-n) / (extent as int))
            },
        )
    } else {
        0
    }
}

/// Where an absolute device puts the pointer on the screen `output`.
pub open spec fn absolute_location(output: Rectangle, x: i32, y: i32, width: i32, height: i32) -> FixedPoint {
    FixedPoint {
        x: clamp_i32(transformed(x, width, output.size.w) + clamp_i32(output.loc.x * 256)) as i32,
        y: clamp_i32(transformed(y, height, output.size.h) + clamp_i32(output.loc.y * 256)) as i32,
    }
}

/// Where an absolute device puts the pointer along one axis; see
/// [`transformed`].
fn transform_axis(raw: i32, extent: i32, size: i32) -> (r: i32)
    ensures
        r == transformed(raw, extent, size),
{
    if extent <= 0 {
        return 0;
    }
    assert(-0x4000_0000_0000_0000 <= raw * size <= 0x4000_0000_0000_0000) by (nonlinear_arith)
        requires
            -0x8000_0000 <= raw <= 0x7fff_ffff,
            -0x8000_0000 <= size <= 0x7fff_ffff,
    ;
    let product: i64 = raw as i64 * size as i64;
    let n: i128 = product as i128 * 256;
    assert(n == raw * size * 256) by (nonlinear_arith)
        requires
            n == product * 256,
            product == raw * size,
    ;
    let q: i128 = if n >= 0 {
        n / (extent as i128)
    } else {
        -((-n) / (extent as i128))
    };
    if q < -2147483648 {
        i32::MIN
    } else if q > 2147483647 {
        i32::MAX
    } else {
        q as i32
    }
}

/// The frame that a scroll event makes. A finger that reports no movement
/// along an axis has stopped scrolling there; a wheel reports its steps if
/// it has them for both axes.
pub open spec fn axis_frame(
    source: AxisSource,
    amount: (Option<i32>, Option<i32>),
    amount_v120: (Option<i32>, Option<i32>),
    relative_direction: (AxisRelativeDirection, AxisRelativeDirection),
    time: u32,
) -> AxisFrame {
    let wheel = source == AxisSource::Wheel || source == AxisSource::WheelTilt;
    let finger = source == AxisSource::Finger;
    AxisFrame {
        source: Some(source),
        relative_direction,
        time,
        axis: (
            match amount.0 {
                Some(a) => a,
                None => 0,
            },
            match amount.1 {
                Some(a) => a,
                None => 0,
            },
        ),
        v120: if wheel && amount_v120.0.is_some() && amount_v120.1.is_some() {
            Some((amount_v120.0.unwrap(), amount_v120.1.unwrap()))
        } else {
            None
        },
        stop: (finger && amount.0 == Some(0i32), finger && amount.1 == Some(0i32)),
    }
}

impl ThingState {
    /// Gives the keyboard focus to `surface`, unless a popup grab keeps the
    /// keyboard where it is. A keyboard grab whose chain is gone ends here.
    pub fn set_keyboard_focus(&mut self, surface: Option<u64>, serial: u32) -> (actions: Vec<
        Action,
    >)
        requires
            old(self).wf(),
        ensures
            final(self).seat == focused_seat(old(self).seat, old(self).popup_manager@, surface),
            actions@ == focus_actions(old(self).seat, old(self).popup_manager@, surface, serial),
            final(self).space == old(self).space,
            final(self).popup_manager == old(self).popup_manager,
            final(self).surfaces == old(self).surfaces,
            final(self).x11_windows == old(self).x11_windows,
            final(self).pressed == old(self).pressed,
            final(self).serial == old(self).serial,
    {
        let mut actions: Vec<Action> = Vec::new();
        let locked = match self.seat.keyboard_grab {
            Some(k) => self.popup_manager.chain_position(k.root).is_some(),
            None => false,
        };
        if !locked {
            self.seat.keyboard_focus = surface;
            self.seat.keyboard_grab = None;
            actions.push(Action::KeyboardFocus { surface, serial });
        }
        actions
    }

    /// Puts the keyboard where the pointer has pressed: the window under
    /// `location` is raised, activated and given the keyboard focus; a press
    /// on no window leaves no window activated and nothing focused. Each
    /// window whose activation changed is sent a configure that says so.
    pub fn update_keyboard_focus_for_cursor_position(
        &mut self,
        location: FixedPoint,
        serial: u32,
    ) -> (actions: Vec<Action>)
        requires
            old(self).wf(),
        ensures
            final(self).wf(),
            final(self).space@ == press_space(
                old(self).space@,
                element_under_result(old(self).space@, location),
            ),
            final(self).space.screens() == old(self).space.screens(),
            final(self).seat == focused_seat(
                old(self).seat,
                old(self).popup_manager@,
                press_target(element_under_result(old(self).space@, location)),
            ),
            actions@ == activation_changes(
                active_of(old(self).space@),
                active_of(final(self).space@),
                old(self).surfaces@,
            ) + focus_actions(
                old(self).seat,
                old(self).popup_manager@,
                press_target(element_under_result(old(self).space@, location)),
                serial,
            ),
            final(self).popup_manager == old(self).popup_manager,
            final(self).surfaces == old(self).surfaces,
            final(self).x11_windows == old(self).x11_windows,
            final(self).pressed == old(self).pressed,
            final(self).serial == old(self).serial,
    {
        let before = self.space.activated();
        let under = self.space.element_under(location);
        let target = match under {
            Some((window, _)) => {
                self.space.raise_element(window, true);
                Some(window)
            },
            None => {
                self.space.deactivate_all();
                None
            },
        };
        let after = self.space.activated();
        let mut actions = activation_configures(before, after, &self.surfaces);
        let mut focus = self.set_keyboard_focus(target, serial);
        actions.append(&mut focus);
        actions
    }

    /// Ends the popup grab above `root`, of which the seat holds the pointer
    /// grab.
    fn end_popup_grab(&mut self, root: u64, serial: u32, time: u32) -> (actions: Vec<Action>)
        requires
            old(self).wf(),
        ensures
            final(self).seat == popup_end_seat(old(self).seat, old(self).space@, root),
            actions@ == popup_end_actions(old(self).seat, old(self).space@, root, serial, time),
            final(self).space == old(self).space,
            final(self).popup_manager == old(self).popup_manager,
            final(self).surfaces == old(self).surfaces,
            final(self).x11_windows == old(self).x11_windows,
            final(self).pressed == old(self).pressed,
            final(self).serial == old(self).serial,
    {
        let mut actions: Vec<Action> = Vec::new();
        let focus = self.surface_under(self.seat.location);
        actions.push(
            Action::PointerMotion {
                focus,
                event: MotionEvent { location: self.seat.location, serial, time },
            },
        );
        self.seat.grab = None;
        self.seat.pointer_focus = focus;
        match self.seat.keyboard_grab {
            Some(k) => {
                if k.root == root {
                    let surface = if self.space.alive(root) {
                        Some(root)
                    } else {
                        None
                    };
                    self.seat.keyboard_grab = None;
                    self.seat.keyboard_focus = surface;
                    actions.push(Action::KeyboardFocus { surface, serial });
                }
            },
            None => {},
        }
        actions
    }

    /// Moves the pointer to `event.location`. Without a grab the surface
    /// that is under the pointer there gets the pointer focus. A held button
    /// keeps the focus where it was at the press; a move drags its window
    /// along; a resize asks its window for a new size; a popup grab lets only
    /// surfaces of its own client have the focus, and ends if its chain is
    /// gone.
    pub fn pointer_motion(&mut self, event: &MotionEvent) -> (actions: Vec<Action>)
        requires
            old(self).wf(),
        ensures
            final(self).wf(),
            final(self).seat == motion_seat(
                old(self).seat,
                old(self).space@,
                old(self).popup_manager@,
                *event,
            ),
            final(self).space@ == motion_space(old(self).seat, old(self).space@, *event),
            final(self).space.screens() == old(self).space.screens(),
            actions@ == motion_actions(
                old(self).seat,
                old(self).space@,
                old(self).popup_manager@,
                *event,
            ),
            final(self).popup_manager == old(self).popup_manager,
            final(self).surfaces == old(self).surfaces,
            final(self).x11_windows == old(self).x11_windows,
            final(self).pressed == old(self).pressed,
            final(self).serial == old(self).serial,
    {
        let focus = self.surface_under(event.location);
        self.seat.location = event.location;
        let mut actions: Vec<Action> = Vec::new();
        match self.seat.grab {
            None => {
                self.seat.pointer_focus = focus;
                actions.push(Action::PointerMotion { focus, event: *event });
            },
            Some(active) => match active.grab {
                PointerGrab::Click { start_data } => {
                    self.seat.pointer_focus = start_data.focus;
                    actions.push(Action::PointerMotion { focus: start_data.focus, event: *event });
                },
                PointerGrab::Move(grab) => {
                    self.seat.pointer_focus = None;
                    actions = grab.motion(&mut self.space, event);
                },
                PointerGrab::Resize(grab) => {
                    let mut grab = grab;
                    self.seat.pointer_focus = None;
                    actions = grab.motion(&self.space, event);
                    self.seat.grab = Some(
                        ActiveGrab { serial: active.serial, grab: PointerGrab::Resize(grab) },
                    );
                },
                PointerGrab::Popup(p) => {
                    if self.popup_manager.chain_position(p.root).is_none() {
                        actions = self.end_popup_grab(p.root, event.serial, event.time);
                    } else {
                        let allowed = match focus {
                            Some(f) => if f.client == p.client {
                                focus
                            } else {
                                None
                            },
                            None => None,
                        };
                        self.seat.pointer_focus = allowed;
                        actions.push(Action::PointerMotion { focus: allowed, event: *event });
                    }
                },
            },
        }
        actions
    }
}

/// Whether a grab ends once the buttons `pressed` are the ones held. A held
/// button lets go when no button is held any more; a move or a resize when
/// the button that began it is released. A popup grab does not end by a
/// release.
pub open spec fn grab_released(grab: PointerGrab, pressed: Seq<u32>) -> bool {
    match grab {
        PointerGrab::Click { .. } => pressed.len() == 0,
        PointerGrab::Move(m) => m.released(pressed),
        PointerGrab::Resize(r) => r.released(pressed),
        PointerGrab::Popup(_) => false,
    }
}

/// Whether a button event makes a popup grab of `client` close its chain: it
/// does when a button is pressed while no surface of the client has the
/// pointer focus.
pub open spec fn pressed_outside(seat: Seat, client: u64, event: ButtonEvent) -> bool {
    event.state == ButtonState::Pressed && owner_focus(seat.pointer_focus, client).is_none()
}

/// The seat after a grab ended by the release of its button, over the
/// windows `s`: the pointer is free, and the surface that is under it in the
/// scene as it is now has its focus. No destroyed window can be that surface.
pub open spec fn released_seat(seat: Seat, s: Seq<SpaceEntry>) -> Seat {
    Seat { grab: None, pointer_focus: surface_under_result(s, seat.location), ..seat }
}

/// The request that gives the focus back when a grab ends: to the surface
/// that is under the pointer in the scene as it is now.
pub open spec fn restore_focus(seat: Seat, s: Seq<SpaceEntry>, serial: u32, time: u32) -> Action {
    Action::PointerMotion {
        focus: surface_under_result(s, seat.location),
        event: MotionEvent { location: seat.location, serial, time },
    }
}

/// The seat after a button event, where `pressed` are the buttons held after
/// it. Without a grab, a press begins one that keeps the focus where it is
/// for as long as a button is held.
pub open spec fn button_seat(
    seat: Seat,
    s: Seq<SpaceEntry>,
    v: Seq<ChainView>,
    pressed: Seq<u32>,
    event: ButtonEvent,
) -> Seat {
    match seat.grab {
        None => if event.state == ButtonState::Pressed {
            Seat {
                grab: Some(
                    ActiveGrab {
                        serial: event.serial,
                        grab: PointerGrab::Click {
                            start_data: GrabStartData {
                                focus: seat.pointer_focus,
                                button: event.button,
                                location: seat.location,
                            },
                        },
                    },
                ),
                ..seat
            }
        } else {
            seat
        },
        Some(active) => match active.grab {
            PointerGrab::Popup(p) => if popup_ended(v, p.root) || pressed_outside(
                seat,
                p.client,
                event,
            ) {
                popup_end_seat(seat, s, p.root)
            } else {
                seat
            },
            grab => if grab_released(grab, pressed) {
                released_seat(seat, s)
            } else {
                seat
            },
        },
    }
}

/// The popups after a button event: a popup grab whose client has lost the
/// pointer closes its whole chain at a press.
pub open spec fn button_popups(seat: Seat, v: Seq<ChainView>, event: ButtonEvent) -> Seq<ChainView> {
    match seat.grab {
        Some(active) => match active.grab {
            PointerGrab::Popup(p) => if !popup_ended(v, p.root) && pressed_outside(
                seat,
                p.client,
                event,
            ) {
                v.remove(crate::popup::chain_index(v, p.root))
            } else {
                v
            },
            _ => v,
        },
        None => v,
    }
}

/// The shell's table after a button event, where `pressed` are the buttons
/// held after it: the surface of a resize that ends waits for its last
/// commit.
pub open spec fn button_surfaces(
    seat: Seat,
    m: Map<u64, SurfaceState>,
    pressed: Seq<u32>,
    event: ButtonEvent,
) -> Map<u64, SurfaceState> {
    match seat.grab {
        Some(active) => match active.grab {
            PointerGrab::Resize(r) => if r.released(pressed) {
                m.insert(r.window, SurfaceState { resize: r.final_state(), ..state_of(m, r.window) })
            } else {
                m
            },
            _ => m,
        },
        None => m,
    }
}

/// The requests of a button event, where `pressed` are the buttons held
/// after it. The surface with the pointer focus hears of the button; a grab
/// that ends gives the focus back, a resize after its last configure, and a
/// popup grab that closes its chain dismisses the popups first.
pub open spec fn button_actions(
    seat: Seat,
    s: Seq<SpaceEntry>,
    v: Seq<ChainView>,
    pressed: Seq<u32>,
    event: ButtonEvent,
) -> Seq<Action> {
    let button = seq![Action::PointerButton { event }];
    match seat.grab {
        None => button,
        Some(active) => match active.grab {
            PointerGrab::Popup(p) => if popup_ended(v, p.root) {
                popup_end_actions(seat, s, p.root, event.serial, event.time) + button
            } else if pressed_outside(seat, p.client, event) {
                crate::popup::dismissals(v[crate::popup::chain_index(v, p.root)].popups)
                    + popup_end_actions(seat, s, p.root, event.serial, event.time) + button
            } else {
                button
            },
            PointerGrab::Resize(r) => if r.released(pressed) {
                (button + r.final_actions(s)).push(
                    restore_focus(seat, s, event.serial, event.time),
                )
            } else {
                button
            },
            grab => if grab_released(grab, pressed) {
                button.push(restore_focus(seat, s, event.serial, event.time))
            } else {
                button
            },
        },
    }
}

impl ThingState {
    /// Takes note of a pointer button: the held buttons are brought up to
    /// date, the surface with the pointer focus hears of the button, and the
    /// grab that owns the pointer may end. Without a grab, a press begins the
    /// grab of a held button.
    pub fn pointer_button(&mut self, event: &ButtonEvent) -> (actions: Vec<Action>)
        requires
            old(self).wf(),
        ensures
            final(self).wf(),
            final(self).pressed@ == pressed_after(old(self).pressed@, event.button, event.state),
            final(self).seat == button_seat(
                old(self).seat,
                old(self).space@,
                old(self).popup_manager@,
                final(self).pressed@,
                *event,
            ),
            final(self).popup_manager@ == button_popups(
                old(self).seat,
                old(self).popup_manager@,
                *event,
            ),
            final(self).surfaces@ == button_surfaces(
                old(self).seat,
                old(self).surfaces@,
                final(self).pressed@,
                *event,
            ),
            actions@ == button_actions(
                old(self).seat,
                old(self).space@,
                old(self).popup_manager@,
                final(self).pressed@,
                *event,
            ),
            final(self).space == old(self).space,
            final(self).x11_windows == old(self).x11_windows,
            final(self).serial == old(self).serial,
    {
        update_pressed(&mut self.pressed, event.button, event.state);
        let mut actions: Vec<Action> = Vec::new();
        let under = self.surface_under(self.seat.location);
        let restore = Action::PointerMotion {
            focus: under,
            event: MotionEvent {
                location: self.seat.location,
                serial: event.serial,
                time: event.time,
            },
        };
        match self.seat.grab {
            None => {
                actions.push(Action::PointerButton { event: *event });
                match event.state {
                    ButtonState::Pressed => {
                        self.seat.grab = Some(
                            ActiveGrab {
                                serial: event.serial,
                                grab: PointerGrab::Click {
                                    start_data: GrabStartData {
                                        focus: self.seat.pointer_focus,
                                        button: event.button,
                                        location: self.seat.location,
                                    },
                                },
                            },
                        );
                    },
                    ButtonState::Released => {},
                }
            },
            Some(active) => match active.grab {
                PointerGrab::Click { .. } => {
                    actions.push(Action::PointerButton { event: *event });
                    if self.pressed.len() == 0 {
                        self.seat.grab = None;
                        self.seat.pointer_focus = under;
                        actions.push(restore);
                    }
                },
                PointerGrab::Move(grab) => {
                    actions.push(Action::PointerButton { event: *event });
                    if !is_pressed(&self.pressed, grab.start_data.button) {
                        self.seat.grab = None;
                        self.seat.pointer_focus = under;
                        actions.push(restore);
                    }
                },
                PointerGrab::Resize(grab) => {
                    actions.push(Action::PointerButton { event: *event });
                    if !is_pressed(&self.pressed, grab.start_data.button) {
                        let mut last = grab.finish(&self.space, &mut self.surfaces);
                        actions.append(&mut last);
                        self.seat.grab = None;
                        self.seat.pointer_focus = under;
                        actions.push(restore);
                    }
                },
                PointerGrab::Popup(p) => {
                    let outside = match event.state {
                        ButtonState::Pressed => match self.seat.pointer_focus {
                            Some(f) => f.client != p.client,
                            None => true,
                        },
                        ButtonState::Released => false,
                    };
                    if self.popup_manager.chain_position(p.root).is_none() {
                        actions = self.end_popup_grab(p.root, event.serial, event.time);
                    } else if outside {
                        actions = self.popup_manager.ungrab_all(p.root);
                        let mut end = self.end_popup_grab(p.root, event.serial, event.time);
                        actions.append(&mut end);
                    }
                    actions.push(Action::PointerButton { event: *event });
                },
            },
        }
        proof {
            assert(actions@ =~= button_actions(
                old(self).seat,
                old(self).space@,
                old(self).popup_manager@,
                self.pressed@,
                *event,
            ));
        }
        actions
    }
}

/// The grab that a press of `button` with the modifier held begins on the
/// window `window` of the stack `s`: the left button moves the window, the
/// right button resizes it by its bottom right corner, any other button
/// begins nothing. The grab counts the window's main surface as the one that
/// had the focus.
pub open spec fn press_grab(s: Seq<SpaceEntry>, seat: Seat, window: u64, button: u32) -> Option<
    PointerGrab,
> {
    let entry = s[index_of(s, window)];
    let start_data = GrabStartData {
        focus: Some(
            Focus {
                surface: window,
                client: entry.element.client,
                origin: crate::space::render_location(entry),
            },
        ),
        button,
        location: seat.location,
    };
    if button == BTN_LEFT {
        Some(
            PointerGrab::Move(
                MovePointerGrab { start_data, window, initial_window_location: entry.location },
            ),
        )
    } else if button == BTN_RIGHT {
        Some(
            PointerGrab::Resize(
                ResizePointerGrab {
                    start_data,
                    window,
                    initial_rect: geometry_in_space(entry),
                    edges: ResizeEdge { top: false, bottom: true, left: false, right: true },
                    last_window_size: entry.element.geometry.size,
                },
            ),
        )
    } else {
        None
    }
}

/// The grab that a press without a grab begins, if any: the press has to
/// land on a window while the modifier is held.
pub open spec fn begun_grab(s: Seq<SpaceEntry>, seat: Seat, button: u32, alt: bool) -> Option<
    PointerGrab,
> {
    match element_under_result(s, seat.location) {
        Some((window, _)) => if alt {
            press_grab(s, seat, window, button)
        } else {
            None
        },
        None => None,
    }
}

/// The seat after a press without a grab.
pub open spec fn press_seat(
    seat: Seat,
    s: Seq<SpaceEntry>,
    v: Seq<ChainView>,
    button: u32,
    alt: bool,
    serial: u32,
) -> Seat {
    let focused = focused_seat(seat, v, press_target(element_under_result(s, seat.location)));
    match begun_grab(s, seat, button, alt) {
        Some(grab) => grabbed_seat(focused, grab, serial),
        None => focused,
    }
}

/// The shell's table after a press without a grab: the surface of a window
/// whose resize begins is being resized.
pub open spec fn press_surfaces(
    seat: Seat,
    s: Seq<SpaceEntry>,
    m: Map<u64, SurfaceState>,
    button: u32,
    alt: bool,
) -> Map<u64, SurfaceState> {
    match begun_grab(s, seat, button, alt) {
        Some(PointerGrab::Resize(r)) => m.insert(
            r.window,
            SurfaceState {
                resize: ResizeSurfaceState::Resizing { edges: r.edges, initial_rect: r.initial_rect },
                ..state_of(m, r.window)
            },
        ),
        _ => m,
    }
}

/// The requests of a press without a grab.
pub open spec fn press_actions(
    seat: Seat,
    s: Seq<SpaceEntry>,
    v: Seq<ChainView>,
    m: Map<u64, SurfaceState>,
    button: u32,
    alt: bool,
    serial: u32,
) -> Seq<Action> {
    let under = element_under_result(s, seat.location);
    activation_changes(
        active_of(s),
        active_of(press_space(s, under)),
        press_surfaces(seat, s, m, button, alt),
    ) + focus_actions(
        seat,
        v,
        press_target(under),
        serial,
    ) + (match begun_grab(s, seat, button, alt) {
        Some(_) => grab_actions(seat.location, serial),
        None => Seq::empty(),
    })
}

/// What [`ThingState::process_pointer_button`] leaves behind.
///
/// A press while no grab owns the pointer first changes focus and activation
/// for the window under the pointer, or for none, and may begin a move or a
/// resize; then the button is routed as by [`ThingState::pointer_button`],
/// and the group of events is closed.
pub open spec fn pointer_button_post(
    pre: ThingState,
    post: ThingState,
    actions: Seq<Action>,
    button: u32,
    state: ButtonState,
    time: u32,
    alt: bool,
) -> bool {
    let serial = serial_after(pre.serial);
    let event = ButtonEvent { button, state, serial, time };
    let pressing = state == ButtonState::Pressed && pre.seat.grab.is_none();
    let v = pre.popup_manager@;
    let seat = if pressing {
        press_seat(pre.seat, pre.space@, v, button, alt, serial)
    } else {
        pre.seat
    };
    let space = if pressing {
        press_space(pre.space@, element_under_result(pre.space@, pre.seat.location))
    } else {
        pre.space@
    };
    let surfaces = if pressing {
        press_surfaces(pre.seat, pre.space@, pre.surfaces@, button, alt)
    } else {
        pre.surfaces@
    };
    let first = if pressing {
        press_actions(pre.seat, pre.space@, v, pre.surfaces@, button, alt, serial)
    } else {
        Seq::empty()
    };
    &&& post.serial == serial
    &&& post.pressed@ == pressed_after(pre.pressed@, button, state)
    &&& post.space@ == space
    &&& post.space.screens() == pre.space.screens()
    &&& post.seat == button_seat(seat, space, v, post.pressed@, event)
    &&& post.popup_manager@ == button_popups(seat, v, event)
    &&& post.surfaces@ == button_surfaces(seat, surfaces, post.pressed@, event)
    &&& post.x11_windows@ == pre.x11_windows@
    &&& actions == (first + button_actions(seat, space, v, post.pressed@, event)).push(
        Action::PointerFrame,
    )
}

/// What a pointer motion to `location` leaves behind: the motion is routed
/// as by [`ThingState::pointer_motion`], with the surface under `location`
/// as the one under the pointer, and the group of events is closed.
pub open spec fn pointer_motion_post(
    pre: ThingState,
    post: ThingState,
    actions: Seq<Action>,
    location: FixedPoint,
    time: u32,
) -> bool {
    let serial = serial_after(pre.serial);
    let event = MotionEvent { location, serial, time };
    &&& post.serial == serial
    &&& post.seat == motion_seat(pre.seat, pre.space@, pre.popup_manager@, event)
    &&& post.space@ == motion_space(pre.seat, pre.space@, event)
    &&& post.space.screens() == pre.space.screens()
    &&& actions == motion_actions(pre.seat, pre.space@, pre.popup_manager@, event).push(
        Action::PointerFrame,
    )
    &&& post.popup_manager@ == pre.popup_manager@
    &&& post.surfaces@ == pre.surfaces@
    &&& post.x11_windows@ == pre.x11_windows@
    &&& post.pressed@ == pre.pressed@
}

/// Whether nothing but the serial has changed.
pub open spec fn same_but_serial(pre: ThingState, post: ThingState) -> bool {
    &&& post.seat == pre.seat
    &&& post.space@ == pre.space@
    &&& post.space.screens() == pre.space.screens()
    &&& post.popup_manager@ == pre.popup_manager@
    &&& post.surfaces@ == pre.surfaces@
    &&& post.x11_windows@ == pre.x11_windows@
    &&& post.pressed@ == pre.pressed@
}

/// What a motion of an absolute device leaves behind: without a screen,
/// nothing happens; else the pointer moves to the place on the first screen
/// that [`absolute_location`] names.
pub open spec fn pointer_motion_absolute_post(
    pre: ThingState,
    post: ThingState,
    actions: Seq<Action>,
    x: i32,
    y: i32,
    width: i32,
    height: i32,
    time: u32,
) -> bool {
    if pre.space.screens().len() == 0 {
        same_but_serial(pre, post) && post.serial == pre.serial && actions == Seq::<Action>::empty()
    } else {
        pointer_motion_post(
            pre,
            post,
            actions,
            absolute_location(pre.space.screens()[0].geometry, x, y, width, height),
            time,
        )
    }
}

/// The surface that has the keyboard when a key arrives, over the windows
/// `s`: a popup grab whose chain is open keeps the keyboard on the topmost
/// live popup that holds a grab; one that has no such popup, or whose chain
/// is gone, hands it to the root if that is still a live window, and to
/// nothing if not. Without a grab the focus stays where it is.
pub open spec fn key_focus(seat: Seat, s: Seq<SpaceEntry>, v: Seq<ChainView>) -> Option<u64> {
    match seat.keyboard_grab {
        Some(k) => if has_chain(v, k.root) {
            match crate::popup::grab_top(v[crate::popup::chain_index(v, k.root)].popups) {
                Some(surface) => Some(surface),
                None => live_root(s, k.root),
            }
        } else {
            live_root(s, k.root)
        },
        None => seat.keyboard_focus,
    }
}

/// What a key leaves behind: the keyboard focus is where [`key_focus`] puts
/// it, which is announced if it moved; a keyboard grab whose chain is gone
/// is over; and the surface with the focus hears of the key.
pub open spec fn keyboard_post(
    pre: ThingState,
    post: ThingState,
    actions: Seq<Action>,
    key_code: u32,
    state: KeyState,
    time: u32,
) -> bool {
    let serial = serial_after(pre.serial);
    let focus = key_focus(pre.seat, pre.space@, pre.popup_manager@);
    let key = Action::KeyboardKey { key_code, state, serial, time };
    &&& post.serial == serial
    &&& post.seat == (Seat {
        keyboard_focus: focus,
        keyboard_grab: if keyboard_locked(pre.seat, pre.popup_manager@) {
            pre.seat.keyboard_grab
        } else {
            None
        },
        ..pre.seat
    })
    &&& actions == (if focus == pre.seat.keyboard_focus {
        seq![key]
    } else {
        seq![Action::KeyboardFocus { surface: focus, serial }, key]
    })
    &&& post.space@ == pre.space@
    &&& post.space.screens() == pre.space.screens()
    &&& post.popup_manager@ == pre.popup_manager@
    &&& post.surfaces@ == pre.surfaces@
    &&& post.x11_windows@ == pre.x11_windows@
    &&& post.pressed@ == pre.pressed@
}

/// What an input event leaves behind: what the handler of its kind does, and
/// nothing for an event of no kind that the server handles.
pub open spec fn input_event_post(
    pre: ThingState,
    post: ThingState,
    actions: Seq<Action>,
    event: InputEvent,
) -> bool {
    match event {
        InputEvent::Keyboard { key_code, state, time } => keyboard_post(
            pre,
            post,
            actions,
            key_code,
            state,
            time,
        ),
        InputEvent::PointerMotion { delta, time } => pointer_motion_post(
            pre,
            post,
            actions,
            pre.seat.location.plus(delta),
            time,
        ),
        InputEvent::PointerMotionAbsolute {
            x,
            y,
            width,
            height,
            time,
        } => pointer_motion_absolute_post(pre, post, actions, x, y, width, height, time),
        InputEvent::PointerButton { button, state, time, alt } => pointer_button_post(
            pre,
            post,
            actions,
            button,
            state,
            time,
            alt,
        ),
        InputEvent::PointerAxis {
            source,
            amount,
            amount_v120,
            relative_direction,
            time,
        } => same_but_serial(pre, post) && post.serial == pre.serial && actions == seq![
            Action::PointerAxis {
                frame: axis_frame(source, amount, amount_v120, relative_direction, time),
            },
            Action::PointerFrame,
        ],
        InputEvent::Other => same_but_serial(pre, post) && post.serial == pre.serial && actions
            == Seq::<Action>::empty(),
    }
}

impl ThingState {
    /// Handles what an input device reports; see [`input_event_post`].
    pub fn process_input_event(&mut self, event: InputEvent) -> (actions: Vec<Action>)
        requires
            old(self).wf(),
        ensures
            final(self).wf(),
            input_event_post(*old(self), *final(self), actions@, event),
    {
        match event {
            InputEvent::Keyboard { key_code, state, time } => self.process_keyboard(
                key_code,
                state,
                time,
            ),
            InputEvent::PointerMotion { delta, time } => self.process_pointer_motion(delta, time),
            InputEvent::PointerMotionAbsolute {
                x,
                y,
                width,
                height,
                time,
            } => self.process_pointer_motion_absolute(x, y, width, height, time),
            InputEvent::PointerButton { button, state, time, alt } => self.process_pointer_button(
                button,
                state,
                time,
                alt,
            ),
            InputEvent::PointerAxis {
                source,
                amount,
                amount_v120,
                relative_direction,
                time,
            } => self.process_pointer_axis(source, amount, amount_v120, relative_direction, time),
            InputEvent::Other => Vec::new(),
        }
    }

    /// Hands a key to the surface that has the keyboard focus; see
    /// [`keyboard_post`]. The server reads no meaning into key codes.
    pub fn process_keyboard(&mut self, key_code: u32, state: KeyState, time: u32) -> (actions: Vec<
        Action,
    >)
        requires
            old(self).wf(),
        ensures
            final(self).wf(),
            keyboard_post(*old(self), *final(self), actions@, key_code, state, time),
    {
        let serial = self.next_serial();
        let mut actions: Vec<Action> = Vec::new();
        let focus = match self.seat.keyboard_grab {
            Some(k) => {
                let root = if self.space.alive(k.root) {
                    Some(k.root)
                } else {
                    None
                };
                if self.popup_manager.chain_position(k.root).is_some() {
                    match self.popup_manager.current_grab(k.root) {
                        Some(surface) => Some(surface),
                        None => root,
                    }
                } else {
                    self.seat.keyboard_grab = None;
                    root
                }
            },
            None => self.seat.keyboard_focus,
        };
        let same = match (focus, self.seat.keyboard_focus) {
            (Some(a), Some(b)) => a == b,
            (None, None) => true,
            _ => false,
        };
        if !same {
            self.seat.keyboard_focus = focus;
            actions.push(Action::KeyboardFocus { surface: focus, serial });
        }
        actions.push(Action::KeyboardKey { key_code, state, serial, time });
        proof {
            let key = Action::KeyboardKey { key_code, state, serial, time };
            if same {
                assert(actions@ =~= seq![key]);
            } else {
                assert(actions@ =~= seq![Action::KeyboardFocus { surface: focus, serial }, key]);
            }
        }
        actions
    }

    /// Moves the pointer by `delta` from where it is, without any limit but
    /// that of the coordinates themselves; see [`pointer_motion_post`].
    pub fn process_pointer_motion(&mut self, delta: FixedPoint, time: u32) -> (actions: Vec<Action>)
        requires
            old(self).wf(),
        ensures
            final(self).wf(),
            pointer_motion_post(
                *old(self),
                *final(self),
                actions@,
                old(self).seat.location.plus(delta),
                time,
            ),
    {
        let location = self.seat.location.add(delta);
        self.move_pointer_to(location, time)
    }

    /// Moves the pointer to `location`; see [`pointer_motion_post`].
    pub fn move_pointer_to(&mut self, location: FixedPoint, time: u32) -> (actions: Vec<Action>)
        requires
            old(self).wf(),
        ensures
            final(self).wf(),
            pointer_motion_post(*old(self), *final(self), actions@, location, time),
    {
        let serial = self.next_serial();
        let mut actions = self.pointer_motion(&MotionEvent { location, serial, time });
        actions.push(Action::PointerFrame);
        actions
    }

    /// Moves the pointer to where an absolute device puts it on the first
    /// screen; see [`pointer_motion_absolute_post`].
    pub fn process_pointer_motion_absolute(
        &mut self,
        x: i32,
        y: i32,
        width: i32,
        height: i32,
        time: u32,
    ) -> (actions: Vec<Action>)
        requires
            old(self).wf(),
        ensures
            final(self).wf(),
            pointer_motion_absolute_post(
                *old(self),
                *final(self),
                actions@,
                x,
                y,
                width,
                height,
                time,
            ),
    {
        if self.space.output_count() == 0 {
            return Vec::new();
        }
        let output_geo = self.space.output(0).geometry;
        let corner = FixedPoint::from_point(output_geo.loc);
        let location = FixedPoint {
            x: crate::geometry::sat_add(transform_axis(x, width, output_geo.size.w), corner.x),
            y: crate::geometry::sat_add(transform_axis(y, height, output_geo.size.h), corner.y),
        };
        self.move_pointer_to(location, time)
    }

    /// What a press does while no grab owns the pointer: focus and
    /// activation follow the pointer, and with the modifier held a move or a
    /// resize of the window under the pointer begins.
    fn press(&mut self, button: u32, alt: bool, serial: u32) -> (actions: Vec<Action>)
        requires
            old(self).wf(),
        ensures
            final(self).wf(),
            final(self).seat == press_seat(
                old(self).seat,
                old(self).space@,
                old(self).popup_manager@,
                button,
                alt,
                serial,
            ),
            final(self).space@ == press_space(
                old(self).space@,
                element_under_result(old(self).space@, old(self).seat.location),
            ),
            final(self).space.screens() == old(self).space.screens(),
            final(self).surfaces@ == press_surfaces(
                old(self).seat,
                old(self).space@,
                old(self).surfaces@,
                button,
                alt,
            ),
            actions@ == press_actions(
                old(self).seat,
                old(self).space@,
                old(self).popup_manager@,
                old(self).surfaces@,
                button,
                alt,
                serial,
            ),
            final(self).popup_manager == old(self).popup_manager,
            final(self).x11_windows == old(self).x11_windows,
            final(self).pressed == old(self).pressed,
            final(self).serial == old(self).serial,
    {
        let location = self.seat.location;
        let begun: Option<PointerGrab> = match self.space.element_under(location) {
            Some((window, _)) => {
                if alt {
                    match self.space.element(window) {
                        Some(entry) => {
                            let start_data = GrabStartData {
                                focus: Some(
                                    Focus {
                                        surface: window,
                                        client: entry.element.client,
                                        origin: entry.render_location(),
                                    },
                                ),
                                button,
                                location,
                            };
                            if button == BTN_LEFT {
                                Some(
                                    PointerGrab::Move(
                                        MovePointerGrab {
                                            start_data,
                                            window,
                                            initial_window_location: entry.location,
                                        },
                                    ),
                                )
                            } else if button == BTN_RIGHT {
                                Some(
                                    PointerGrab::Resize(
                                        ResizePointerGrab::start(
                                            start_data,
                                            window,
                                            entry.geometry(),
                                            ResizeEdge::bottom_right(),
                                            &mut self.surfaces,
                                        ),
                                    ),
                                )
                            } else {
                                None
                            }
                        },
                        None => None,
                    }
                } else {
                    None
                }
            },
            None => None,
        };
        let mut actions = self.update_keyboard_focus_for_cursor_position(location, serial);
        match begun {
            Some(grab) => {
                let mut grabbed = self.set_grab(grab, serial);
                actions.append(&mut grabbed);
            },
            None => {},
        }
        proof {
            assert(actions@ =~= press_actions(
                old(self).seat,
                old(self).space@,
                old(self).popup_manager@,
                old(self).surfaces@,
                button,
                alt,
                serial,
            ));
        }
        actions
    }

    /// Handles a pointer button; see [`pointer_button_post`].
    pub fn process_pointer_button(
        &mut self,
        button: u32,
        state: ButtonState,
        time: u32,
        alt: bool,
    ) -> (actions: Vec<Action>)
        requires
            old(self).wf(),
        ensures
            final(self).wf(),
            pointer_button_post(*old(self), *final(self), actions@, button, state, time, alt),
    {
        let serial = self.next_serial();
        let mut actions: Vec<Action> = Vec::new();
        let pressing = match state {
            ButtonState::Pressed => self.seat.grab.is_none(),
            ButtonState::Released => false,
        };
        if pressing {
            actions = self.press(button, alt, serial);
        }
        let mut routed = self.pointer_button(&ButtonEvent { button, state, serial, time });
        actions.append(&mut routed);
        actions.push(Action::PointerFrame);
        actions
    }

    /// Hands scrolling to the surface that has the pointer focus.
    pub fn process_pointer_axis(
        &mut self,
        source: AxisSource,
        amount: (Option<i32>, Option<i32>),
        amount_v120: (Option<i32>, Option<i32>),
        relative_direction: (AxisRelativeDirection, AxisRelativeDirection),
        time: u32,
    ) -> (actions: Vec<Action>)
        ensures
            *final(self) == *old(self),
            actions@ == seq![
                Action::PointerAxis {
                    frame: axis_frame(source, amount, amount_v120, relative_direction, time),
                },
                Action::PointerFrame,
            ],
    {
        let axis = (
            match amount.0 {
                Some(a) => a,
                None => 0,
            },
            match amount.1 {
                Some(a) => a,
                None => 0,
            },
        );
        let mut v120: Option<(i32, i32)> = None;
        let mut stop = (false, false);
        match source {
            AxisSource::Finger => {
                stop = (
                    match amount.0 {
                        Some(a) => a == 0,
                        None => false,
                    },
                    match amount.1 {
                        Some(a) => a == 0,
                        None => false,
                    },
                );
            },
            AxisSource::Wheel | AxisSource::WheelTilt => {
                v120 = match (amount_v120.0, amount_v120.1) {
                    (Some(h), Some(v)) => Some((h, v)),
                    _ => None,
                };
            },
            AxisSource::Continuous => {},
        }
        let mut actions: Vec<Action> = Vec::new();
        actions.push(
            Action::PointerAxis {
                frame: AxisFrame { source: Some(source), relative_direction, time, axis, v120, stop },
            },
        );
        actions.push(Action::PointerFrame);
        actions
    }
}

/// The configures that tell of a change of the activated window; see
/// [`activation_changes`].
pub fn activation_configures(
    before: Option<u64>,
    after: Option<u64>,
    states: &SurfaceStates,
) -> (actions: Vec<Action>)
    ensures
        actions@ == activation_changes(before, after, states@),
{
    let mut actions: Vec<Action> = Vec::new();
    let same = match (before, after) {
        (Some(b), Some(a)) => b == a,
        (None, None) => true,
        _ => false,
    };
    if !same {
        match before {
            Some(surface) => {
                actions.push(
                    Action::Configure {
                        surface,
                        size: None,
                        resizing: states.is_resizing(surface),
                        activated: false,
                    },
                );
            },
            None => {},
        }
        match after {
            Some(surface) => {
                actions.push(
                    Action::Configure {
                        surface,
                        size: None,
                        resizing: states.is_resizing(surface),
                        activated: true,
                    },
                );
            },
            None => {},
        }
    }
    proof {
        assert(actions@ =~= activation_changes(before, after, states@));
    }
    actions
}

} // verus!
