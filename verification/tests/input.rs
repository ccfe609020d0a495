use wayland_compositor_thing::geometry::{FixedPoint, Point, Rectangle, Size};
use wayland_compositor_thing::popup::Popup;
use wayland_compositor_thing::seat::{
    Action, ActiveGrab, AxisFrame, AxisRelativeDirection, AxisSource, ButtonEvent, ButtonState,
    Focus, GrabStartData, KeyState, MotionEvent, PointerGrab,
};
use wayland_compositor_thing::state::elements::WindowElement;
use wayland_compositor_thing::state::input::{InputEvent, BTN_LEFT, BTN_RIGHT};
use wayland_compositor_thing::state::xdg_shell::resize_grab::{ResizeEdge, ResizeSurfaceState};
use wayland_compositor_thing::state::ThingState;

fn at(x: i32, y: i32) -> FixedPoint {
    FixedPoint::from_point(Point::new(x, y))
}

fn toplevel(state: &mut ThingState, id: u64, client: u64, w: i32, h: i32) -> Vec<Action> {
    let actions = state.new_toplevel(WindowElement::new_wayland_window(id, client, Size::new(w, h)));
    state.commit(id, false, None);
    state.commit(id, false, None);
    actions
}

fn order(state: &ThingState) -> Vec<u64> {
    (0..state.space.len()).map(|i| state.space.entry(i).element.surface).collect()
}

fn press(state: &mut ThingState, button: u32, alt: bool) -> Vec<Action> {
    state.process_pointer_button(button, ButtonState::Pressed, 0, alt)
}

fn release(state: &mut ThingState, button: u32) -> Vec<Action> {
    state.process_pointer_button(button, ButtonState::Released, 0, false)
}

fn configure(surface: u64, activated: bool) -> Action {
    Action::Configure { surface, size: None, resizing: false, activated }
}

#[test]
fn new_state_is_empty() {
    let state = ThingState::new();
    assert_eq!(state.space.len(), 0);
    assert_eq!(state.popup_manager.len(), 0);
    assert_eq!(state.serial, 0);
    assert_eq!(state.seat.location, FixedPoint::new(0, 0));
    assert!(state.seat.grab.is_none());
    assert!(state.pressed.is_empty());
}

#[test]
fn serials_count_up_and_skip_zero() {
    let mut state = ThingState::new();
    assert_eq!(state.next_serial(), 1);
    assert_eq!(state.next_serial(), 2);
    state.serial = u32::MAX;
    assert_eq!(state.next_serial(), 1);
}

#[test]
fn alt_left_drag_moves_the_window() {
    let mut state = ThingState::new();
    toplevel(&mut state, 1, 1, 200, 100);
    state.move_pointer_to(at(50, 50), 0);
    press(&mut state, BTN_LEFT, true);
    let before = order(&state);
    state.move_pointer_to(at(70, 80), 1);
    assert_eq!(state.space.element_location(1), Some(Point::new(20, 30)));
    assert_eq!(order(&state), before);
    assert_eq!(state.space.activated(), Some(1));
    release(&mut state, BTN_LEFT);
    assert!(state.seat.grab.is_none());
    assert_eq!(state.space.element_location(1), Some(Point::new(20, 30)));
    state.move_pointer_to(at(100, 100), 2);
    assert_eq!(state.space.element_location(1), Some(Point::new(20, 30)));
}

#[test]
fn move_grab_survives_the_death_of_its_window() {
    let mut state = ThingState::new();
    toplevel(&mut state, 2, 1, 200, 100);
    state.move_pointer_to(at(50, 50), 0);
    press(&mut state, BTN_LEFT, true);
    assert_eq!(state.space.activated(), Some(2));
    state.surface_destroyed(2);
    let actions = state.move_pointer_to(at(70, 80), 1);
    assert_eq!(state.space.element_location(2), Some(Point::new(0, 0)));
    assert_eq!(state.seat.pointer_focus, None);
    assert_eq!(
        actions,
        vec![
            Action::PointerMotion {
                focus: None,
                event: MotionEvent { location: at(70, 80), serial: 3, time: 1 }
            },
            Action::PointerFrame,
        ]
    );
    release(&mut state, BTN_LEFT);
    assert!(state.seat.grab.is_none());
    assert_eq!(state.seat.pointer_focus, None);
    state.refresh();
    assert_eq!(state.space.len(), 0);
    state.move_pointer_to(at(10, 10), 2);
    assert_eq!(state.seat.pointer_focus, None);
}

#[test]
fn press_raises_and_focuses_the_window_under_the_pointer() {
    let mut state = ThingState::new();
    toplevel(&mut state, 1, 1, 100, 100);
    assert_eq!(toplevel(&mut state, 2, 2, 100, 100), vec![configure(1, false), configure(2, true)]);
    state.space.relocate(2, Point::new(200, 0));
    state.move_pointer_to(at(10, 10), 0);
    let actions = press(&mut state, BTN_LEFT, false);
    assert_eq!(order(&state), vec![2, 1]);
    assert_eq!(state.space.activated(), Some(1));
    assert_eq!(state.seat.keyboard_focus, Some(1));
    let serial = state.serial;
    assert_eq!(
        actions,
        vec![
            configure(2, false),
            configure(1, true),
            Action::KeyboardFocus { surface: Some(1), serial },
            Action::PointerButton {
                event: ButtonEvent {
                    button: BTN_LEFT,
                    state: ButtonState::Pressed,
                    serial,
                    time: 0
                }
            },
            Action::PointerFrame,
        ]
    );
    assert!(state.seat.has_grab(serial));
}

#[test]
fn press_on_empty_space_clears_focus_and_activation() {
    let mut state = ThingState::new();
    toplevel(&mut state, 1, 1, 100, 100);
    state.move_pointer_to(at(10, 10), 0);
    press(&mut state, BTN_LEFT, false);
    release(&mut state, BTN_LEFT);
    state.move_pointer_to(at(500, 500), 0);
    let actions = press(&mut state, BTN_LEFT, false);
    assert_eq!(state.space.activated(), None);
    assert_eq!(state.seat.keyboard_focus, None);
    let serial = state.serial;
    assert_eq!(actions[0], configure(1, false));
    assert_eq!(actions[1], Action::KeyboardFocus { surface: None, serial });
}

#[test]
fn press_during_a_grab_changes_no_focus() {
    let mut state = ThingState::new();
    toplevel(&mut state, 1, 1, 100, 100);
    toplevel(&mut state, 2, 1, 100, 100);
    state.space.relocate(2, Point::new(200, 0));
    state.move_pointer_to(at(10, 10), 0);
    press(&mut state, BTN_LEFT, false);
    state.move_pointer_to(at(210, 10), 0);
    let actions = press(&mut state, BTN_RIGHT, false);
    assert_eq!(state.space.activated(), Some(1));
    assert_eq!(actions.len(), 2);
    assert_eq!(state.pressed, vec![BTN_LEFT, BTN_RIGHT]);
    release(&mut state, BTN_LEFT);
    assert!(state.seat.grab.is_some());
    release(&mut state, BTN_RIGHT);
    assert!(state.seat.grab.is_none());
    assert!(state.pressed.is_empty());
}

#[test]
fn held_button_keeps_the_focus_where_it_was() {
    let mut state = ThingState::new();
    toplevel(&mut state, 1, 7, 100, 100);
    state.move_pointer_to(at(10, 10), 0);
    let focus = Some(Focus { surface: 1, client: 7, origin: Point::new(0, 0) });
    assert_eq!(state.seat.pointer_focus, focus);
    press(&mut state, BTN_LEFT, false);
    assert_eq!(
        state.seat.grab_start_data(),
        Some(GrabStartData { focus, button: BTN_LEFT, location: at(10, 10) })
    );
    state.move_pointer_to(at(500, 500), 0);
    assert_eq!(state.seat.pointer_focus, focus);
    let actions = release(&mut state, BTN_LEFT);
    assert_eq!(state.seat.pointer_focus, None);
    let serial = state.serial;
    assert_eq!(
        actions[1],
        Action::PointerMotion {
            focus: None,
            event: MotionEvent { location: at(500, 500), serial, time: 0 }
        }
    );
}

#[test]
fn motion_without_a_grab_focuses_the_surface_under_the_pointer() {
    let mut state = ThingState::new();
    toplevel(&mut state, 1, 7, 100, 100);
    state.space.relocate(1, Point::new(30, 40));
    let actions = state.process_pointer_motion(at(35, 45), 3);
    let focus = Some(Focus { surface: 1, client: 7, origin: Point::new(30, 40) });
    assert_eq!(state.surface_under(at(35, 45)), focus);
    assert_eq!(
        actions,
        vec![
            Action::PointerMotion {
                focus,
                event: MotionEvent { location: at(35, 45), serial: 1, time: 3 }
            },
            Action::PointerFrame,
        ]
    );
    let actions = state.process_pointer_motion(at(-10, -10), 4);
    assert_eq!(state.seat.location, at(25, 35));
    assert_eq!(
        actions[0],
        Action::PointerMotion {
            focus: None,
            event: MotionEvent { location: at(25, 35), serial: 2, time: 4 }
        }
    );
}

#[test]
fn relative_motion_saturates() {
    let mut state = ThingState::new();
    state.process_pointer_motion(FixedPoint::new(i32::MAX, i32::MIN), 0);
    state.process_pointer_motion(FixedPoint::new(100, -100), 0);
    assert_eq!(state.seat.location, FixedPoint::new(i32::MAX, i32::MIN));
}

#[test]
fn absolute_motion_goes_through_the_first_output() {
    let mut state = ThingState::new();
    assert_eq!(state.process_pointer_motion_absolute(1, 1, 2, 2, 0), vec![]);
    assert_eq!(state.serial, 0);
    state.space.map_output(1, Rectangle::new(Point::new(100, 50), Size::new(800, 600)));
    state.process_pointer_motion_absolute(512, 256, 1024, 1024, 0);
    assert_eq!(state.seat.location, at(100 + 400, 50 + 150));
    state.process_pointer_motion_absolute(1, 0, 3, 0, 0);
    assert_eq!(state.seat.location, FixedPoint::new(100 * 256 + 68266, 50 * 256));
}

#[test]
fn alt_right_drag_resizes_by_the_bottom_right_corner() {
    let mut state = ThingState::new();
    toplevel(&mut state, 1, 1, 200, 100);
    state.move_pointer_to(at(50, 50), 0);
    press(&mut state, BTN_RIGHT, true);
    let edges = ResizeEdge::bottom_right();
    let initial_rect = Rectangle::new(Point::new(0, 0), Size::new(200, 100));
    assert_eq!(state.surfaces.get(1).resize, ResizeSurfaceState::Resizing { edges, initial_rect });
    let actions = state.move_pointer_to(at(80, 60), 0);
    assert_eq!(
        actions[1],
        Action::Configure {
            surface: 1,
            size: Some(Size::new(230, 110)),
            resizing: true,
            activated: true
        }
    );
    assert_eq!(state.seat.pointer_focus, None);
    let actions = release(&mut state, BTN_RIGHT);
    let serial = state.serial;
    assert_eq!(
        actions,
        vec![
            Action::PointerButton {
                event: ButtonEvent {
                    button: BTN_RIGHT,
                    state: ButtonState::Released,
                    serial,
                    time: 0
                }
            },
            Action::Configure {
                surface: 1,
                size: Some(Size::new(230, 110)),
                resizing: false,
                activated: true
            },
            Action::PointerMotion {
                focus: state.seat.pointer_focus,
                event: MotionEvent { location: at(80, 60), serial, time: 0 }
            },
            Action::PointerFrame,
        ]
    );
    assert_eq!(
        state.surfaces.get(1).resize,
        ResizeSurfaceState::WaitingForLastCommit { edges, initial_rect }
    );
    assert!(state.seat.grab.is_none());
}

#[test]
fn alt_with_another_button_starts_no_grab() {
    let mut state = ThingState::new();
    toplevel(&mut state, 1, 1, 200, 100);
    state.move_pointer_to(at(50, 50), 0);
    press(&mut state, 0x112, true);
    match state.seat.grab {
        Some(ActiveGrab { grab: PointerGrab::Click { .. }, .. }) => {}
        other => panic!("{:?}", other),
    }
}

#[test]
fn keys_go_to_the_keyboard_focus() {
    let mut state = ThingState::new();
    let actions = state.process_keyboard(30, KeyState::Pressed, 11);
    assert_eq!(
        actions,
        vec![Action::KeyboardKey { key_code: 30, state: KeyState::Pressed, serial: 1, time: 11 }]
    );
    assert_eq!(state.seat.keyboard_focus, None);
}

#[test]
fn scrolling_is_framed() {
    let mut state = ThingState::new();
    let same = (AxisRelativeDirection::Identical, AxisRelativeDirection::Identical);
    let actions = state.process_input_event(InputEvent::PointerAxis {
        source: AxisSource::Finger,
        amount: (Some(0), Some(512)),
        amount_v120: (Some(1), Some(2)),
        relative_direction: same,
        time: 4,
    });
    assert_eq!(
        actions,
        vec![
            Action::PointerAxis {
                frame: AxisFrame {
                    source: Some(AxisSource::Finger),
                    relative_direction: same,
                    time: 4,
                    axis: (0, 512),
                    v120: None,
                    stop: (true, false),
                }
            },
            Action::PointerFrame,
        ]
    );
    let actions =
        state.process_pointer_axis(AxisSource::Wheel, (None, Some(0)), (Some(0), Some(120)), same, 5);
    assert_eq!(
        actions[0],
        Action::PointerAxis {
            frame: AxisFrame {
                source: Some(AxisSource::Wheel),
                relative_direction: same,
                time: 5,
                axis: (0, 0),
                v120: Some((0, 120)),
                stop: (false, false),
            }
        }
    );
    let actions =
        state.process_pointer_axis(AxisSource::WheelTilt, (None, None), (None, Some(120)), same, 5);
    match actions[0] {
        Action::PointerAxis { frame } => assert_eq!(frame.v120, None),
        other => panic!("{:?}", other),
    }
    assert_eq!(state.serial, 0);
}

#[test]
fn input_events_are_dispatched_by_kind() {
    let mut state = ThingState::new();
    toplevel(&mut state, 1, 1, 200, 100);
    state.process_input_event(InputEvent::PointerMotion { delta: at(50, 50), time: 0 });
    assert_eq!(state.seat.location, at(50, 50));
    state.process_input_event(InputEvent::PointerButton {
        button: BTN_LEFT,
        state: ButtonState::Pressed,
        time: 0,
        alt: true,
    });
    state.space.map_output(1, Rectangle::new(Point::new(0, 0), Size::new(800, 600)));
    state.process_input_event(InputEvent::PointerMotionAbsolute {
        x: 70,
        y: 80,
        width: 800,
        height: 600,
        time: 0,
    });
    assert_eq!(state.space.element_location(1), Some(Point::new(20, 30)));
    let n = state.serial;
    assert_eq!(state.process_input_event(InputEvent::Other), vec![]);
    assert_eq!(state.serial, n);
    let actions = state.process_input_event(InputEvent::Keyboard {
        key_code: 1,
        state: KeyState::Released,
        time: 2,
    });
    assert_eq!(actions.len(), 1);
}

#[test]
fn client_move_request_needs_the_serial_of_its_press() {
    let mut state = ThingState::new();
    toplevel(&mut state, 1, 7, 200, 100);
    toplevel(&mut state, 2, 8, 200, 100);
    state.space.relocate(2, Point::new(300, 0));
    state.move_pointer_to(at(50, 50), 0);
    press(&mut state, BTN_LEFT, false);
    let serial = state.serial;
    assert_eq!(state.move_request(1, serial + 1), vec![]);
    assert_eq!(state.move_request(2, serial), vec![]);
    assert_eq!(state.move_request(9, serial), vec![]);
    let actions = state.move_request(1, serial);
    assert_eq!(
        actions,
        vec![Action::PointerMotion {
            focus: None,
            event: MotionEvent { location: at(50, 50), serial, time: 0 }
        }]
    );
    state.move_pointer_to(at(60, 65), 0);
    assert_eq!(state.space.element_location(1), Some(Point::new(10, 15)));
    release(&mut state, BTN_LEFT);
    assert!(state.seat.grab.is_none());
}

#[test]
fn client_resize_request_starts_a_resize() {
    let mut state = ThingState::new();
    toplevel(&mut state, 1, 7, 200, 100);
    state.move_pointer_to(at(50, 50), 0);
    press(&mut state, BTN_LEFT, false);
    let serial = state.serial;
    let edges = ResizeEdge::from_bits(ResizeEdge::TOP_LEFT).unwrap();
    assert_eq!(state.resize_request(1, serial + 5, edges), vec![]);
    assert_eq!(state.surfaces.get(1).resize, ResizeSurfaceState::Idle);
    assert_eq!(state.resize_request(1, serial, edges).len(), 1);
    let actions = state.move_pointer_to(at(40, 30), 0);
    assert_eq!(
        actions[1],
        Action::Configure {
            surface: 1,
            size: Some(Size::new(210, 120)),
            resizing: true,
            activated: true
        }
    );
    release(&mut state, BTN_LEFT);
    let committed = WindowElement::new_wayland_window(1, 7, Size::new(210, 120));
    state.commit(1, false, Some(committed));
    assert_eq!(state.space.element_location(1), Some(Point::new(-10, -20)));
    assert_eq!(
        state.space.element_geometry(1),
        Some(Rectangle::new(Point::new(-10, -20), Size::new(210, 120)))
    );
    assert_eq!(state.surfaces.get(1).resize, ResizeSurfaceState::Idle);
}

#[test]
fn first_configure_is_sent_once() {
    let mut state = ThingState::new();
    state.new_toplevel(WindowElement::new_wayland_window(1, 7, Size::new(200, 100)));
    assert!(state.surfaces.contains(1));
    assert!(!state.surfaces.get(1).configure_sent);
    assert_eq!(state.commit(1, false, None), vec![Action::InitialConfigure { surface: 1 }]);
    assert_eq!(state.commit(1, false, None), vec![]);
    assert_eq!(state.commit(1, false, None), vec![]);
    assert!(state.surfaces.get(1).configure_sent);
    assert_eq!(state.commit(99, false, None), vec![]);
    assert!(!state.surfaces.contains(99));
}

#[test]
fn toplevel_takes_input_once_its_configure_is_acknowledged() {
    let mut state = ThingState::new();
    state.new_toplevel(WindowElement::new_wayland_window(1, 7, Size::new(200, 100)));
    assert_eq!(state.surface_under(at(10, 10)), None);
    state.commit(1, false, None);
    assert_eq!(state.surface_under(at(10, 10)), None);
    state.commit(1, false, None);
    assert_eq!(
        state.surface_under(at(10, 10)),
        Some(Focus { surface: 1, client: 7, origin: Point::new(0, 0) })
    );
}

#[test]
fn sync_subsurface_commit_brings_no_window_state() {
    let mut state = ThingState::new();
    toplevel(&mut state, 1, 7, 200, 100);
    let committed = WindowElement::new_wayland_window(1, 7, Size::new(10, 10));
    state.commit(5, true, Some(committed));
    assert_eq!(state.space.element(1).unwrap().element.geometry.size, Size::new(200, 100));
    let committed = WindowElement::new_wayland_window(1, 7, Size::new(10, 10));
    state.commit(5, false, Some(committed));
    assert_eq!(state.space.element(1).unwrap().element.geometry.size, Size::new(10, 10));
}

fn popup(surface: u64, parent: u64, client: u64) -> Popup {
    Popup {
        surface,
        parent,
        client,
        geometry: Rectangle::new(Point::new(5, 5), Size::new(50, 50)),
        alive: true,
        grabbed: false,
        committed: false,
        configure_sent: false,
    }
}

#[test]
fn unrelated_serial_ungrabs_the_whole_chain() {
    let mut state = ThingState::new();
    toplevel(&mut state, 1, 7, 200, 100);
    state.move_pointer_to(at(50, 50), 0);
    press(&mut state, BTN_LEFT, false);
    let s = state.serial;
    state.new_popup(popup(10, 1, 7)).unwrap();
    let actions = state.grab(10, s);
    assert_eq!(
        actions,
        vec![
            Action::KeyboardFocus { surface: Some(10), serial: s },
            Action::PointerMotion {
                focus: None,
                event: MotionEvent { location: at(50, 50), serial: s, time: 0 }
            },
        ]
    );
    assert!(state.popup_manager.find_popup(10).unwrap().grabbed);
    assert!(state.seat.has_grab(s));
    assert_eq!(state.seat.keyboard_focus, Some(10));
    state.new_popup(popup(11, 10, 7)).unwrap();
    let actions = state.grab(11, s + 40);
    assert_eq!(state.popup_manager.len(), 0);
    assert_eq!(state.popup_manager.find_popup(10), None);
    assert_eq!(state.popup_manager.find_popup(11), None);
    assert!(state.seat.grab.is_none());
    assert!(state.seat.keyboard_grab.is_none());
    assert_eq!(state.seat.keyboard_focus, Some(1));
    assert_eq!(
        actions,
        vec![
            Action::DismissPopup { surface: 11 },
            Action::DismissPopup { surface: 10 },
            Action::PointerMotion {
                focus: state.seat.pointer_focus,
                event: MotionEvent { location: at(50, 50), serial: s + 40, time: 0 }
            },
            Action::KeyboardFocus { surface: Some(1), serial: s + 40 },
        ]
    );
}

#[test]
fn chained_popup_grab_with_the_same_or_the_next_serial() {
    let mut state = ThingState::new();
    toplevel(&mut state, 1, 7, 200, 100);
    state.move_pointer_to(at(50, 50), 0);
    press(&mut state, BTN_LEFT, false);
    let s = state.serial;
    state.new_popup(popup(10, 1, 7)).unwrap();
    state.grab(10, s);
    state.new_popup(popup(11, 10, 7)).unwrap();
    state.grab(11, s);
    assert!(state.popup_manager.find_popup(11).unwrap().grabbed);
    assert_eq!(state.seat.keyboard_focus, Some(11));
    state.new_popup(popup(12, 11, 7)).unwrap();
    state.grab(12, s + 1);
    assert!(state.popup_manager.find_popup(12).unwrap().grabbed);
    assert!(state.seat.has_grab(s + 1));
}

#[test]
fn popup_grab_of_an_unknown_popup_does_nothing() {
    let mut state = ThingState::new();
    toplevel(&mut state, 1, 7, 200, 100);
    assert_eq!(state.grab(10, 1), vec![]);
    state.new_popup(popup(10, 1, 7)).unwrap();
    state.space.destroy(1);
    assert_eq!(state.grab(10, 1), vec![]);
    assert!(state.seat.grab.is_none());
}

#[test]
fn popup_grab_without_any_seat_grab_is_granted() {
    let mut state = ThingState::new();
    toplevel(&mut state, 1, 7, 200, 100);
    state.new_popup(popup(10, 1, 7)).unwrap();
    state.grab(10, 77);
    assert!(state.seat.has_grab(77));
    state.new_popup(popup(11, 10, 7)).unwrap();
    state.popup_manager.commit(11);
    assert_eq!(state.grab(11, 77), vec![]);
    assert!(!state.popup_manager.find_popup(11).unwrap().grabbed);
    assert_eq!(state.seat.keyboard_focus, Some(10));
}

#[test]
fn popup_grab_keeps_the_pointer_with_its_client() {
    let mut state = ThingState::new();
    toplevel(&mut state, 1, 7, 100, 100);
    toplevel(&mut state, 2, 8, 100, 100);
    state.space.relocate(2, Point::new(200, 0));
    state.new_popup(popup(10, 1, 7)).unwrap();
    state.grab(10, 5);
    state.move_pointer_to(at(210, 10), 0);
    assert_eq!(state.seat.pointer_focus, None);
    assert_eq!(state.surface_under(at(210, 10)).map(|f| f.surface), Some(2));
    state.move_pointer_to(at(10, 10), 0);
    assert_eq!(state.seat.pointer_focus.map(|f| f.surface), Some(1));
    press(&mut state, BTN_LEFT, false);
    assert_eq!(state.popup_manager.len(), 1);
    release(&mut state, BTN_LEFT);
    state.process_keyboard(3, KeyState::Pressed, 0);
    assert_eq!(state.seat.keyboard_focus, Some(10));
    state.move_pointer_to(at(210, 10), 0);
    let actions = press(&mut state, BTN_LEFT, false);
    assert_eq!(actions[0], Action::DismissPopup { surface: 10 });
    assert_eq!(state.popup_manager.len(), 0);
    assert!(state.seat.grab.is_none());
    assert!(state.seat.keyboard_grab.is_none());
    assert_eq!(state.seat.keyboard_focus, Some(1));
    assert_eq!(state.seat.pointer_focus.map(|f| f.surface), Some(2));
}

#[test]
fn popup_grab_ends_when_its_chain_is_gone() {
    let mut state = ThingState::new();
    toplevel(&mut state, 1, 7, 100, 100);
    state.new_popup(popup(10, 1, 7)).unwrap();
    state.grab(10, 5);
    state.popup_manager.destroy(10);
    assert_eq!(state.refresh(), vec![Action::DismissPopup { surface: 10 }]);
    let actions = state.process_keyboard(3, KeyState::Pressed, 0);
    assert_eq!(state.seat.keyboard_focus, Some(1));
    assert!(state.seat.keyboard_grab.is_none());
    assert_eq!(actions.len(), 2);
    state.move_pointer_to(at(10, 10), 0);
    assert!(state.seat.grab.is_none());
    assert_eq!(state.seat.pointer_focus.map(|f| f.surface), Some(1));
}

#[test]
fn destroying_a_root_removes_its_popup_chain() {
    let mut state = ThingState::new();
    toplevel(&mut state, 1, 7, 100, 100);
    state.surfaces.associate(1);
    state.new_popup(popup(10, 1, 7)).unwrap();
    state.new_popup(popup(11, 10, 7)).unwrap();
    let actions = state.surface_destroyed(1);
    assert_eq!(
        actions,
        vec![Action::DismissPopup { surface: 11 }, Action::DismissPopup { surface: 10 }]
    );
    assert_eq!(state.popup_manager.len(), 0);
    assert!(!state.space.alive(1));
    assert!(!state.surfaces.contains(1));
    state.refresh();
    assert_eq!(state.space.len(), 0);
}

#[test]
fn destroying_a_popup_closes_it_at_the_next_refresh() {
    let mut state = ThingState::new();
    toplevel(&mut state, 1, 7, 100, 100);
    state.new_popup(popup(10, 1, 7)).unwrap();
    state.new_popup(popup(11, 10, 7)).unwrap();
    assert_eq!(state.surface_destroyed(10), vec![]);
    assert!(!state.popup_manager.find_popup(10).unwrap().alive);
    assert_eq!(
        state.refresh(),
        vec![Action::DismissPopup { surface: 11 }, Action::DismissPopup { surface: 10 }]
    );
    assert_eq!(state.popup_manager.len(), 0);
}

#[test]
fn new_popup_is_kept_on_screen() {
    let mut state = ThingState::new();
    state.space.map_output(1, Rectangle::new(Point::new(0, 0), Size::new(800, 600)));
    toplevel(&mut state, 1, 7, 100, 100);
    state.space.relocate(1, Point::new(700, 500));
    let mut p = popup(10, 1, 7);
    p.geometry = Rectangle::new(Point::new(80, 90), Size::new(50, 50));
    assert_eq!(
        state.unconstrain_popup(&p),
        Rectangle::new(Point::new(50, 50), Size::new(50, 50))
    );
    state.new_popup(p).unwrap();
    assert_eq!(
        state.popup_manager.find_popup(10).unwrap().geometry,
        Rectangle::new(Point::new(50, 50), Size::new(50, 50))
    );
    let mut q = popup(11, 10, 7);
    q.geometry = Rectangle::new(Point::new(-900, 10), Size::new(50, 50));
    assert_eq!(
        state.unconstrain_popup(&q),
        Rectangle::new(Point::new(-750, 0), Size::new(50, 50))
    );
    let mut r = popup(12, 10, 7);
    r.geometry = Rectangle::new(Point::new(-20, -20), Size::new(10, 10));
    assert_eq!(state.unconstrain_popup(&r), r.geometry);
}

#[test]
fn popup_without_a_visible_root_stays_where_it_asks_to_be() {
    let mut state = ThingState::new();
    toplevel(&mut state, 1, 7, 100, 100);
    let mut p = popup(10, 1, 7);
    p.geometry = Rectangle::new(Point::new(8000, 9000), Size::new(50, 50));
    assert_eq!(state.unconstrain_popup(&p), p.geometry);
    assert_eq!(state.unconstrain_popup(&popup(11, 3, 7)), popup(11, 3, 7).geometry);
    assert!(state.new_popup(popup(11, 3, 7)).is_err());
}

#[test]
fn reposition_is_acknowledged() {
    let state = ThingState::new();
    assert_eq!(
        state.reposition_request(10, 3),
        vec![Action::Repositioned { surface: 10, token: 3 }]
    );
}

#[test]
fn set_grab_clears_the_pointer_focus() {
    let mut state = ThingState::new();
    toplevel(&mut state, 1, 7, 100, 100);
    state.move_pointer_to(at(10, 10), 0);
    let grab = PointerGrab::Click {
        start_data: GrabStartData { focus: None, button: 1, location: at(0, 0) },
    };
    let actions = state.set_grab(grab, 9);
    assert_eq!(state.seat.pointer_focus, None);
    assert_eq!(state.seat.grab, Some(ActiveGrab { serial: 9, grab }));
    assert_eq!(
        actions,
        vec![Action::PointerMotion {
            focus: None,
            event: MotionEvent { location: at(10, 10), serial: 9, time: 0 }
        }]
    );
}

#[test]
fn tick_drops_the_popups_of_a_destroyed_root_only() {
    let mut state = ThingState::new();
    toplevel(&mut state, 1, 7, 100, 100);
    toplevel(&mut state, 2, 8, 100, 100);
    state.new_popup(popup(10, 1, 7)).unwrap();
    state.new_popup(popup(11, 10, 7)).unwrap();
    state.new_popup(popup(20, 2, 8)).unwrap();
    state.space.destroy(1);
    assert!(state.popup_manager.find_popup(10).is_some());
    let actions = state.refresh();
    assert_eq!(
        actions,
        vec![Action::DismissPopup { surface: 11 }, Action::DismissPopup { surface: 10 }]
    );
    assert_eq!(state.popup_manager.find_popup(10), None);
    assert_eq!(state.popup_manager.find_popup(11), None);
    assert_eq!(state.space.position(1), None);
    assert_eq!(state.popup_manager.find_popup(20).map(|p| p.parent), Some(2));
    assert_eq!(state.space.position(2), Some(0));
    assert_eq!(state.refresh(), vec![]);
}

#[test]
fn activation_change_during_a_resize_says_that_the_resize_goes_on() {
    let mut state = ThingState::new();
    toplevel(&mut state, 1, 7, 200, 100);
    state.move_pointer_to(at(50, 50), 0);
    press(&mut state, BTN_RIGHT, true);
    assert_eq!(state.space.activated(), Some(1));
    let actions = state.new_toplevel(WindowElement::new_wayland_window(2, 8, Size::new(10, 10)));
    assert_eq!(
        actions,
        vec![
            Action::Configure { surface: 1, size: None, resizing: true, activated: false },
            Action::Configure { surface: 2, size: None, resizing: false, activated: true },
        ]
    );
    release(&mut state, BTN_RIGHT);
    let actions = state.new_toplevel(WindowElement::new_wayland_window(3, 8, Size::new(10, 10)));
    assert_eq!(
        actions,
        vec![
            Action::Configure { surface: 2, size: None, resizing: false, activated: false },
            Action::Configure { surface: 3, size: None, resizing: false, activated: true },
        ]
    );
}

#[test]
fn press_that_begins_a_resize_announces_it_with_the_activation() {
    let mut state = ThingState::new();
    toplevel(&mut state, 1, 7, 200, 100);
    toplevel(&mut state, 2, 8, 200, 100);
    state.space.relocate(2, Point::new(300, 0));
    state.move_pointer_to(at(50, 50), 0);
    let actions = press(&mut state, BTN_RIGHT, true);
    assert_eq!(
        actions[0],
        Action::Configure { surface: 2, size: None, resizing: false, activated: false }
    );
    assert_eq!(
        actions[1],
        Action::Configure { surface: 1, size: None, resizing: true, activated: true }
    );
}
