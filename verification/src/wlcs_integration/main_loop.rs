//! What the server does with the events of the harness: each becomes the
//! operation that the same thing from a real device or client would be.
use crate::seat::{pressed_after, Action, ButtonEvent, ButtonState};
use crate::space::{raise_result, relocate_result};
use crate::state::input::{
    button_actions, button_popups, button_seat, button_surfaces, pointer_motion_post,
    same_but_serial,
};
use crate::state::{serial_after, ThingState};
use crate::wlcs_integration::WlcsEvent;
use vstd::prelude::*;

verus! {

/// The identity of the surface that the harness names by a client and by the
/// surface's number within that client: the client in the upper half, the
/// number in the lower. A negative client names no surface.
pub open spec fn surface_key(client_id: i32, surface_id: u32) -> Option<u64> {
    if client_id >= 0 {
        Some((client_id * 0x1_0000_0000 + surface_id) as u64)
    } else {
        None
    }
}

/// The identity of a surface of the harness; see [`surface_key`].
pub fn surface_of(client_id: i32, surface_id: u32) -> (r: Option<u64>)
    ensures
        r == surface_key(client_id, surface_id),
{
    if client_id >= 0 {
        Some(client_id as u64 * 0x1_0000_0000 + surface_id as u64)
    } else {
        None
    }
}

/// The code of the button that the harness names by `button_id`; a negative
/// number names none.
pub open spec fn button_code(button_id: i32) -> Option<u32> {
    if button_id >= 0 {
        Some(button_id as u32)
    } else {
        None
    }
}

/// What a button of the harness leaves behind: a serial is handed out and
/// the button is routed as by [`ThingState::pointer_button`]; then the group
/// of events is closed. Focus and activation do not follow such a button.
pub open spec fn harness_button_post(
    pre: ThingState,
    post: ThingState,
    actions: Seq<Action>,
    button: u32,
    state: ButtonState,
    time: u32,
) -> bool {
    let serial = serial_after(pre.serial);
    let event = ButtonEvent { button, state, serial, time };
    &&& post.serial == serial
    &&& post.pressed@ == pressed_after(pre.pressed@, button, state)
    &&& post.seat == button_seat(
        pre.seat,
        pre.space@,
        pre.popup_manager@,
        post.pressed@,
        event,
    )
    &&& post.popup_manager@ == button_popups(pre.seat, pre.popup_manager@, event)
    &&& post.surfaces@ == button_surfaces(pre.seat, pre.surfaces@, post.pressed@, event)
    &&& actions == button_actions(
        pre.seat,
        pre.space@,
        pre.popup_manager@,
        post.pressed@,
        event,
    ).push(Action::PointerFrame)
    &&& post.space@ == pre.space@
    &&& post.space.screens() == pre.space.screens()
    &&& post.x11_windows@ == pre.x11_windows@
}

/// Whether nothing has changed.
pub open spec fn unchanged(pre: ThingState, post: ThingState) -> bool {
    same_but_serial(pre, post) && post.serial == pre.serial
}

/// What an event of the harness leaves behind, at the time `time`.
///
/// The pointer events do what the same events of a device do, but for the
/// buttons, which change neither focus nor activation. A window that is
/// positioned stands at its new place on top of its layer, activated as it
/// was. The server is told to stop by `Exit` alone. Everything else is for
/// the protocol runtime, or is ignored.
pub open spec fn handle_event_post(
    pre: ThingState,
    post: ThingState,
    actions: Seq<Action>,
    stop: bool,
    event: WlcsEvent,
    time: u32,
) -> bool {
    &&& stop == (event == WlcsEvent::Exit)
    &&& match event {
        WlcsEvent::PositionWindow { client_id, surface_id, location } => {
            &&& post.space@ == (match surface_key(client_id, surface_id) {
                Some(window) => raise_result(
                    relocate_result(pre.space@, window, location),
                    window,
                    false,
                ),
                None => pre.space@,
            })
            &&& post.space.screens() == pre.space.screens()
            &&& post.seat == pre.seat
            &&& post.popup_manager@ == pre.popup_manager@
            &&& post.surfaces@ == pre.surfaces@
            &&& post.x11_windows@ == pre.x11_windows@
            &&& post.pressed@ == pre.pressed@
            &&& post.serial == pre.serial
            &&& actions == Seq::<Action>::empty()
        },
        WlcsEvent::PointerMoveRelative { delta, .. } => pointer_motion_post(
            pre,
            post,
            actions,
            pre.seat.location.plus(delta),
            time,
        ),
        WlcsEvent::PointerMoveAbsolute { location, .. } => pointer_motion_post(
            pre,
            post,
            actions,
            location,
            time,
        ),
        WlcsEvent::PointerButtonDown { button_id, .. } => match button_code(button_id) {
            Some(button) => harness_button_post(
                pre,
                post,
                actions,
                button,
                ButtonState::Pressed,
                time,
            ),
            None => unchanged(pre, post) && actions == Seq::<Action>::empty(),
        },
        WlcsEvent::PointerButtonUp { button_id, .. } => match button_code(button_id) {
            Some(button) => harness_button_post(
                pre,
                post,
                actions,
                button,
                ButtonState::Released,
                time,
            ),
            None => unchanged(pre, post) && actions == Seq::<Action>::empty(),
        },
        _ => unchanged(pre, post) && actions == Seq::<Action>::empty(),
    }
}

/// Routes a button of the harness.
fn button(state: &mut ThingState, button_id: i32, pressed: ButtonState, time: u32) -> (actions: Vec<
    Action,
>)
    requires
        old(state).wf(),
    ensures
        final(state).wf(),
        match button_code(button_id) {
            Some(code) => harness_button_post(
                *old(state),
                *final(state),
                actions@,
                code,
                pressed,
                time,
            ),
            None => unchanged(*old(state), *final(state)) && actions@ == Seq::<Action>::empty(),
        },
{
    if button_id < 0 {
        return Vec::new();
    }
    let serial = state.next_serial();
    let mut actions = state.pointer_button(
        &ButtonEvent { button: button_id as u32, state: pressed, serial, time },
    );
    actions.push(Action::PointerFrame);
    actions
}

/// Handles an event of the harness at the time `time`; answers with the
/// requests to the runtime and with whether the server has to stop. See
/// [`handle_event_post`].
pub fn handle_event(event: WlcsEvent, state: &mut ThingState, time: u32) -> (r: (Vec<Action>, bool))
    requires
        old(state).wf(),
    ensures
        final(state).wf(),
        handle_event_post(*old(state), *final(state), r.0@, r.1, event, time),
{
    match event {
        WlcsEvent::Exit => (Vec::new(), true),
        WlcsEvent::PositionWindow { client_id, surface_id: number, location } => {
            match surface_of(client_id, number) {
                Some(window) => {
                    state.space.relocate(window, location);
                    state.space.raise_element(window, false);
                },
                None => {},
            }
            (Vec::new(), false)
        },
        WlcsEvent::PointerMoveRelative { delta, .. } => (
            state.process_pointer_motion(delta, time),
            false,
        ),
        WlcsEvent::PointerMoveAbsolute { location, .. } => (
            state.move_pointer_to(location, time),
            false,
        ),
        WlcsEvent::PointerButtonDown { button_id, .. } => (
            button(state, button_id, ButtonState::Pressed, time),
            false,
        ),
        WlcsEvent::PointerButtonUp { button_id, .. } => (
            button(state, button_id, ButtonState::Released, time),
            false,
        ),
        _ => (Vec::new(), false),
    }
}

} // verus!
