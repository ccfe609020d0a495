//! The seat: one pointer and one keyboard, what they are focused on, and the
//! grab that may own the pointer for a while.
use crate::geometry::{FixedPoint, Point, Rectangle, Size};
use crate::state::xdg_shell::move_grab::MovePointerGrab;
use crate::state::xdg_shell::resize_grab::ResizePointerGrab;
use vstd::prelude::*;

verus! {

/// A surface that has a focus, the client that owns it, and where the origin
/// of the surface stands in the scene.
#[derive(Clone, Copy, PartialEq, Eq, Debug)]
pub struct Focus {
    pub surface: u64,
    pub client: u64,
    pub origin: Point,
}

/// The pointer has moved to `location`.
#[derive(Clone, Copy, PartialEq, Eq, Debug)]
pub struct MotionEvent {
    pub location: FixedPoint,
    pub serial: u32,
    pub time: u32,
}

#[derive(Clone, Copy, PartialEq, Eq, Debug)]
pub enum ButtonState {
    Released,
    Pressed,
}

/// A pointer button was pressed or released.
#[derive(Clone, Copy, PartialEq, Eq, Debug)]
pub struct ButtonEvent {
    pub button: u32,
    pub state: ButtonState,
    pub serial: u32,
    pub time: u32,
}

#[derive(Clone, Copy, PartialEq, Eq, Debug)]
pub enum KeyState {
    Released,
    Pressed,
}

#[derive(Clone, Copy, PartialEq, Eq, Debug)]
pub enum AxisSource {
    Wheel,
    Finger,
    Continuous,
    WheelTilt,
}

#[derive(Clone, Copy, PartialEq, Eq, Debug)]
pub enum AxisRelativeDirection {
    Identical,
    Inverted,
}

/// One frame of scrolling; each pair holds the horizontal and the vertical
/// axis. Amounts count 256ths of a logical unit.
#[derive(Clone, Copy, PartialEq, Eq, Debug)]
pub struct AxisFrame {
    pub source: Option<AxisSource>,
    pub relative_direction: (AxisRelativeDirection, AxisRelativeDirection),
    pub time: u32,
    pub axis: (i32, i32),
    pub v120: Option<(i32, i32)>,
    pub stop: (bool, bool),
}

/// What was the case when a grab began.
#[derive(Clone, Copy, PartialEq, Eq, Debug)]
pub struct GrabStartData {
    /// The surface that had the pointer focus.
    pub focus: Option<Focus>,
    /// The button whose press began the grab.
    pub button: u32,
    /// Where the pointer was.
    pub location: FixedPoint,
}

/// The grab that routes the pointer to the chain of popups above `root`.
#[derive(Clone, Copy, PartialEq, Eq, Debug)]
pub struct PopupPointerGrab {
    /// The toplevel under the chain.
    pub root: u64,
    /// The client that owns the chain.
    pub client: u64,
}

/// What owns the pointer.
#[derive(Clone, Copy, PartialEq, Eq, Debug)]
pub enum PointerGrab {
    /// A button is held: the surface that was focused at the press keeps the
    /// focus.
    Click { start_data: GrabStartData },
    Move(MovePointerGrab),
    Resize(ResizePointerGrab),
    Popup(PopupPointerGrab),
}

/// A grab and the serial it was installed with.
#[derive(Clone, Copy, PartialEq, Eq, Debug)]
pub struct ActiveGrab {
    pub serial: u32,
    pub grab: PointerGrab,
}

/// The grab that keeps the keyboard on the chain of popups above `root`.
#[derive(Clone, Copy, PartialEq, Eq, Debug)]
pub struct KeyboardGrab {
    pub serial: u32,
    pub root: u64,
}

/// A request to the protocol runtime.
#[allow(inconsistent_fields)]
#[derive(Clone, Copy, PartialEq, Eq, Debug)]
pub enum Action {
    /// The pointer is at `event.location` and `focus` has the pointer focus
    /// from now on; the surface, if any, is told of the motion.
    PointerMotion { focus: Option<Focus>, event: MotionEvent },
    /// Tell the surface with the pointer focus of the button.
    PointerButton { event: ButtonEvent },
    /// Tell the surface with the pointer focus of the scrolling.
    PointerAxis { frame: AxisFrame },
    /// Close the group of pointer events sent since the last frame.
    PointerFrame,
    /// Give the keyboard focus to `surface`.
    KeyboardFocus { surface: Option<u64>, serial: u32 },
    /// Tell the surface with the keyboard focus of the key.
    KeyboardKey { key_code: u32, state: KeyState, serial: u32, time: u32 },
    /// Send the first configure of a toplevel.
    InitialConfigure { surface: u64 },
    /// Send a configure to a toplevel: its new size if one is asked for,
    /// whether it is being resized, whether it is activated.
    Configure { surface: u64, size: Option<Size>, resizing: bool, activated: bool },
    /// Send a configure with the given geometry to a window of the legacy
    /// protocol.
    ConfigureX11 { window: u64, geometry: Rectangle },
    /// Send the first configure of a popup, with its placement.
    ConfigurePopup { surface: u64, geometry: Rectangle },
    /// Tell a popup that it was dismissed.
    DismissPopup { surface: u64 },
    /// Tell a popup that it was repositioned.
    Repositioned { surface: u64, token: u32 },
}

/// The state of the seat.
#[derive(Clone, Copy, PartialEq, Eq, Debug)]
pub struct Seat {
    /// Where the pointer is.
    pub location: FixedPoint,
    /// The surface that has the pointer focus.
    pub pointer_focus: Option<Focus>,
    /// The surface that has the keyboard focus.
    pub keyboard_focus: Option<u64>,
    pub grab: Option<ActiveGrab>,
    pub keyboard_grab: Option<KeyboardGrab>,
}

/// The focus `focus`, unless it names `surface`.
pub open spec fn without_surface(focus: Option<Focus>, surface: u64) -> Option<Focus> {
    match focus {
        Some(f) => if f.surface == surface {
            None
        } else {
            focus
        },
        None => None,
    }
}

/// What was the case when a grab began, with no memory of `surface`.
pub open spec fn start_without(start_data: GrabStartData, surface: u64) -> GrabStartData {
    GrabStartData { focus: without_surface(start_data.focus, surface), ..start_data }
}

/// The grab with no memory of `surface` as the one that had the focus when
/// it began.
pub open spec fn grab_without(grab: PointerGrab, surface: u64) -> PointerGrab {
    match grab {
        PointerGrab::Click { start_data } => PointerGrab::Click {
            start_data: start_without(start_data, surface),
        },
        PointerGrab::Move(m) => PointerGrab::Move(
            MovePointerGrab { start_data: start_without(m.start_data, surface), ..m },
        ),
        PointerGrab::Resize(r) => PointerGrab::Resize(
            ResizePointerGrab { start_data: start_without(r.start_data, surface), ..r },
        ),
        PointerGrab::Popup(p) => PointerGrab::Popup(p),
    }
}

/// The seat after `surface` was destroyed: no focus names the surface any
/// more, neither that of the pointer, nor that of the keyboard, nor the one
/// that the grab remembers from its beginning. The grab itself stays.
pub open spec fn forgetting(seat: Seat, surface: u64) -> Seat {
    Seat {
        pointer_focus: without_surface(seat.pointer_focus, surface),
        keyboard_focus: if seat.keyboard_focus == Some(surface) {
            None
        } else {
            seat.keyboard_focus
        },
        grab: match seat.grab {
            Some(active) => Some(
                ActiveGrab { serial: active.serial, grab: grab_without(active.grab, surface) },
            ),
            None => None,
        },
        ..seat
    }
}

/// The focus `focus`, unless it names `surface`; see [`without_surface`].
pub fn focus_without(focus: Option<Focus>, surface: u64) -> (r: Option<Focus>)
    ensures
        r == without_surface(focus, surface),
{
    match focus {
        Some(f) => if f.surface == surface {
            None
        } else {
            focus
        },
        None => None,
    }
}

/// Whether `button` is among `pressed`.
pub open spec fn holds(pressed: Seq<u32>, button: u32) -> bool {
    exists|i: int| 0 <= i < pressed.len() && pressed[i] == button
}

/// `pressed` without any `button`.
pub open spec fn without(pressed: Seq<u32>, button: u32) -> Seq<u32>
    decreases pressed.len(),
{
    if pressed.len() == 0 {
        pressed
    } else if pressed.last() == button {
        without(pressed.drop_last(), button)
    } else {
        without(pressed.drop_last(), button).push(pressed.last())
    }
}

/// The held buttons after `button` changed to `state`: a pressed button is
/// added at the end unless it is held already, a released one is taken out.
pub open spec fn pressed_after(pressed: Seq<u32>, button: u32, state: ButtonState) -> Seq<u32> {
    match state {
        ButtonState::Pressed => if holds(pressed, button) {
            pressed
        } else {
            pressed.push(button)
        },
        ButtonState::Released => without(pressed, button),
    }
}

/// `without` leaves no `button`, and keeps every other button that was held.
pub proof fn lemma_without(pressed: Seq<u32>, button: u32)
    ensures
        !holds(without(pressed, button), button),
        forall|other: u32|
            other != button ==> (#[trigger] holds(without(pressed, button), other) <==> holds(
                pressed,
                other,
            )),
        without(pressed, button).len() <= pressed.len(),
    decreases pressed.len(),
{
    if pressed.len() > 0 {
        let rest = pressed.drop_last();
        lemma_without(rest, button);
        let w = without(pressed, button);
        let wr = without(rest, button);
        if holds(w, button) {
            let i = choose|i: int| 0 <= i < w.len() && w[i] == button;
            if pressed.last() != button && i < wr.len() {
                assert(wr[i] == button);
            }
        }
        assert forall|other: u32| other != button implies (#[trigger] holds(w, other) <==> holds(
            pressed,
            other,
        )) by {
            assert(holds(wr, other) <==> holds(rest, other));
            if holds(w, other) {
                let i = choose|i: int| 0 <= i < w.len() && w[i] == other;
                if pressed.last() == button || i < wr.len() {
                    assert(wr[i] == other);
                    assert(holds(wr, other));
                    let j = choose|j: int| 0 <= j < rest.len() && rest[j] == other;
                    assert(pressed[j] == other);
                } else {
                    assert(pressed[pressed.len() - 1] == other);
                }
            }
            if holds(pressed, other) {
                let j = choose|j: int| 0 <= j < pressed.len() && pressed[j] == other;
                if j < rest.len() {
                    assert(rest[j] == other);
                    assert(holds(rest, other));
                    let i = choose|i: int| 0 <= i < wr.len() && wr[i] == other;
                    assert(w[i] == other);
                } else {
                    assert(w[w.len() - 1] == other);
                }
            }
        }
    }
}

/// Whether `button` is among the held buttons.
pub fn is_pressed(pressed: &Vec<u32>, button: u32) -> (b: bool)
    ensures
        b == holds(pressed@, button),
{
    let mut i: usize = 0;
    while i < pressed.len()
        invariant
            i <= pressed@.len(),
            forall|j: int| 0 <= j < i ==> pressed@[j] != button,
        decreases pressed@.len() - i,
    {
        if pressed[i] == button {
            return true;
        }
        i += 1;
    }
    false
}

/// Records among the held buttons that `button` changed to `state`.
pub fn update_pressed(pressed: &mut Vec<u32>, button: u32, state: ButtonState)
    ensures
        final(pressed)@ == pressed_after(old(pressed)@, button, state),
{
    match state {
        ButtonState::Pressed => {
            if !is_pressed(pressed, button) {
                pressed.push(button);
            }
        },
        ButtonState::Released => {
            let mut kept: Vec<u32> = Vec::new();
            let mut i: usize = 0;
            assert(pressed@.subrange(0, 0) =~= Seq::<u32>::empty());
            while i < pressed.len()
                invariant
                    i <= pressed@.len(),
                    pressed@ == old(pressed)@,
                    kept@ == without(pressed@.subrange(0, i as int), button),
                decreases pressed@.len() - i,
            {
                let ghost upto = pressed@.subrange(0, i + 1);
                assert(upto.last() == pressed@[i as int]);
                assert(upto.drop_last() =~= pressed@.subrange(0, i as int));
                if pressed[i] != button {
                    kept.push(pressed[i]);
                }
                i += 1;
            }
            assert(pressed@.subrange(0, i as int) =~= pressed@);
            *pressed = kept;
        },
    }
}

impl Seat {
    /// A seat with the pointer at the origin, nothing focused and no grab.
    pub fn new() -> (s: Seat)
        ensures
            s == (Seat {
                location: FixedPoint { x: 0, y: 0 },
                pointer_focus: None,
                keyboard_focus: None,
                grab: None,
                keyboard_grab: None,
            }),
    {
        Seat {
            location: FixedPoint { x: 0, y: 0 },
            pointer_focus: None,
            keyboard_focus: None,
            grab: None,
            keyboard_grab: None,
        }
    }

    /// Takes note that `surface` was destroyed; see [`forgetting`].
    pub fn forget(&mut self, surface: u64)
        ensures
            *final(self) == forgetting(*old(self), surface),
    {
        self.pointer_focus = focus_without(self.pointer_focus, surface);
        match self.keyboard_focus {
            Some(focused) => {
                if focused == surface {
                    self.keyboard_focus = None;
                }
            },
            None => {},
        }
        match self.grab {
            Some(active) => {
                let grab = match active.grab {
                    PointerGrab::Click { start_data } => PointerGrab::Click {
                        start_data: GrabStartData {
                            focus: focus_without(start_data.focus, surface),
                            button: start_data.button,
                            location: start_data.location,
                        },
                    },
                    PointerGrab::Move(m) => {
                        let mut m = m;
                        m.start_data.focus = focus_without(m.start_data.focus, surface);
                        PointerGrab::Move(m)
                    },
                    PointerGrab::Resize(r) => {
                        let mut r = r;
                        r.start_data.focus = focus_without(r.start_data.focus, surface);
                        PointerGrab::Resize(r)
                    },
                    PointerGrab::Popup(p) => PointerGrab::Popup(p),
                };
                self.grab = Some(ActiveGrab { serial: active.serial, grab });
            },
            None => {},
        }
    }

    /// Whether a grab with the given serial owns the pointer.
    pub open spec fn spec_has_grab(&self, serial: u32) -> bool {
        self.grab.is_some() && self.grab.unwrap().serial == serial
    }

    /// Whether a grab with the given serial owns the pointer.
    pub fn has_grab(&self, serial: u32) -> (b: bool)
        ensures
            b == self.spec_has_grab(serial),
    {
        match self.grab {
            Some(g) => g.serial == serial,
            None => false,
        }
    }

    /// What was the case when the grab that owns the pointer began.
    pub open spec fn spec_grab_start_data(&self) -> Option<GrabStartData> {
        match self.grab {
            Some(g) => match g.grab {
                PointerGrab::Click { start_data } => Some(start_data),
                PointerGrab::Move(m) => Some(m.start_data),
                PointerGrab::Resize(r) => Some(r.start_data),
                PointerGrab::Popup(p) => Some(
                    GrabStartData {
                        focus: Some(
                            Focus { surface: p.root, client: p.client, origin: Point { x: 0, y: 0 } },
                        ),
                        button: 0,
                        location: FixedPoint { x: 0, y: 0 },
                    },
                ),
            },
            None => None,
        }
    }

    /// What was the case when the grab that owns the pointer began. A popup
    /// grab answers with the root of its chain as the focus.
    pub fn grab_start_data(&self) -> (r: Option<GrabStartData>)
        ensures
            r == self.spec_grab_start_data(),
    {
        match self.grab {
            Some(g) => match g.grab {
                PointerGrab::Click { start_data } => Some(start_data),
                PointerGrab::Move(m) => Some(m.start_data),
                PointerGrab::Resize(r) => Some(r.start_data),
                PointerGrab::Popup(p) => Some(
                    GrabStartData {
                        focus: Some(
                            Focus { surface: p.root, client: p.client, origin: Point { x: 0, y: 0 } },
                        ),
                        button: 0,
                        location: FixedPoint { x: 0, y: 0 },
                    },
                ),
            },
            None => None,
        }
    }
}

} // verus!
