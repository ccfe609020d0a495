use wayland_compositor_thing::geometry::{FixedPoint, Point, Rectangle, Size};
use wayland_compositor_thing::seat::{Action, ButtonState, MotionEvent, PointerGrab};
use wayland_compositor_thing::state::elements::WindowElement;
use wayland_compositor_thing::state::input::BTN_LEFT;
use wayland_compositor_thing::state::xdg_shell::resize_grab::{ResizeEdge, ResizeSurfaceState};
use wayland_compositor_thing::state::xwayland::{merge_geometry, move_request, resize_request};
use wayland_compositor_thing::state::ThingState;
use wayland_compositor_thing::wlcs_integration::main_loop::{handle_event, surface_of};
use wayland_compositor_thing::wlcs_integration::WlcsEvent;

fn legacy(id: u64, w: i32, h: i32, override_redirect: bool) -> WindowElement {
    WindowElement::new_x11_window(id, 3, Size::new(w, h), override_redirect)
}

fn order_of(state: &ThingState) -> Vec<u64> {
    (0..state.space.len()).map(|i| state.space.entry(i).element.surface).collect()
}

fn rect(x: i32, y: i32, w: i32, h: i32) -> Rectangle {
    Rectangle::new(Point::new(x, y), Size::new(w, h))
}

#[test]
fn legacy_window_is_mapped_on_request_only() {
    let mut state = ThingState::new();
    state.new_window(legacy(5, 300, 200, false), Point::new(40, 50));
    assert_eq!(state.space.len(), 0);
    assert!(state.x11_windows.contains(5));
    let actions = state.map_window_request(5);
    assert_eq!(
        actions,
        vec![Action::Configure { surface: 5, size: None, resizing: false, activated: true }]
    );
    assert_eq!(state.space.element_geometry(5), Some(rect(40, 50, 300, 200)));
    assert_eq!(state.space.activated(), Some(5));
    assert!(!state.x11_windows.contains(5));
    assert_eq!(state.map_window_request(5), vec![]);
    assert_eq!(state.map_window_request(6), vec![]);
}

#[test]
fn unmapped_legacy_window_waits_to_be_mapped_again() {
    let mut state = ThingState::new();
    state.new_window(legacy(5, 300, 200, false), Point::new(40, 50));
    state.map_window_request(5);
    let actions = state.unmapped_window(5);
    assert_eq!(
        actions,
        vec![Action::Configure { surface: 5, size: None, resizing: false, activated: false }]
    );
    assert_eq!(state.space.len(), 0);
    assert!(!state.x11_windows.get(5).unwrap().element.activated);
    assert_eq!(state.unmapped_window(5), vec![]);
    state.map_window_request(5);
    assert_eq!(state.space.element_location(5), Some(Point::new(40, 50)));
}

#[test]
fn destroyed_legacy_window_is_forgotten() {
    let mut state = ThingState::new();
    state.new_window(legacy(5, 300, 200, false), Point::new(40, 50));
    state.new_window(legacy(6, 300, 200, false), Point::new(0, 0));
    state.map_window_request(5);
    state.destroyed_window(5);
    state.destroyed_window(6);
    assert_eq!(state.space.len(), 0);
    assert!(!state.x11_windows.contains(5));
    assert!(!state.x11_windows.contains(6));
    assert_eq!(state.destroyed_window(5), vec![]);
}

#[test]
fn bridge_leaves_native_windows_alone() {
    let mut state = ThingState::new();
    state.new_toplevel(WindowElement::new_wayland_window(1, 1, Size::new(10, 10)));
    assert_eq!(state.unmapped_window(1), vec![]);
    assert_eq!(state.destroyed_window(1), vec![]);
    assert_eq!(state.configure_request(1, Some(4), None, None, None), vec![]);
    assert_eq!(state.space.len(), 1);
}

#[test]
fn override_redirect_window_maps_above_and_inactive() {
    let mut state = ThingState::new();
    state.new_toplevel(WindowElement::new_wayland_window(1, 1, Size::new(10, 10)));
    state.new_override_redirect_window(legacy(9, 30, 30, true), Point::new(3, 3));
    assert_eq!(state.mapped_override_redirect_window(9), vec![]);
    state.new_toplevel(WindowElement::new_wayland_window(2, 1, Size::new(10, 10)));
    assert_eq!(order_of(&state), vec![1, 2, 9]);
    assert_eq!(state.space.activated(), Some(2));
    assert_eq!(state.unmapped_window(9), vec![]);
    assert_eq!(order_of(&state), vec![1, 2]);
}

#[test]
fn configure_request_merges_the_given_fields() {
    let current = rect(1, 2, 3, 4);
    assert_eq!(merge_geometry(current, None, None, None, None), current);
    assert_eq!(merge_geometry(current, Some(-9), None, None, Some(40)), rect(-9, 2, 3, 40));
    assert_eq!(merge_geometry(current, None, Some(7), Some(30), None), rect(1, 7, 30, 4));
    assert_eq!(
        merge_geometry(current, None, None, Some(u32::MAX), Some(i32::MAX as u32 + 1)),
        current
    );
    assert_eq!(
        merge_geometry(current, None, None, Some(i32::MAX as u32), Some(0)),
        rect(1, 2, i32::MAX, 0)
    );
}

#[test]
fn configure_request_of_a_waiting_window_changes_its_record() {
    let mut state = ThingState::new();
    state.new_window(legacy(5, 300, 200, false), Point::new(40, 50));
    let actions = state.configure_request(5, Some(10), None, Some(640), Some(u32::MAX));
    assert_eq!(actions, vec![Action::ConfigureX11 { window: 5, geometry: rect(10, 50, 640, 200) }]);
    state.map_window_request(5);
    assert_eq!(state.space.element_geometry(5), Some(rect(10, 50, 640, 200)));
}

#[test]
fn configure_request_of_a_mapped_window_leaves_the_scene_alone() {
    let mut state = ThingState::new();
    state.new_window(legacy(5, 300, 200, false), Point::new(40, 50));
    state.map_window_request(5);
    let actions = state.configure_request(5, Some(10), None, None, None);
    assert_eq!(actions, vec![Action::ConfigureX11 { window: 5, geometry: rect(10, 50, 300, 200) }]);
    assert_eq!(state.space.element_geometry(5), Some(rect(40, 50, 300, 200)));
    assert_eq!(state.configure_request(77, Some(10), None, None, None), vec![]);
}

#[test]
fn legacy_move_request_installs_a_grab_with_a_fresh_serial() {
    let mut state = ThingState::new();
    state.new_window(legacy(5, 300, 200, false), Point::new(40, 50));
    state.map_window_request(5);
    state.move_pointer_to(FixedPoint::from_point(Point::new(60, 60)), 0);
    state.process_pointer_button(BTN_LEFT, ButtonState::Pressed, 0, false);
    let before = state.serial;
    let actions = move_request(&mut state, 5, BTN_LEFT);
    assert_eq!(state.serial, before + 1);
    assert_eq!(
        actions,
        vec![Action::PointerMotion {
            focus: None,
            event: MotionEvent {
                location: FixedPoint::from_point(Point::new(60, 60)),
                serial: before + 1,
                time: 0
            }
        }]
    );
    assert!(state.seat.has_grab(before + 1));
    state.move_pointer_to(FixedPoint::from_point(Point::new(70, 65)), 0);
    assert_eq!(state.space.element_location(5), Some(Point::new(50, 55)));
    state.process_pointer_button(BTN_LEFT, ButtonState::Released, 0, false);
    assert!(state.seat.grab.is_none());
    assert_eq!(move_request(&mut state, 6, BTN_LEFT), vec![]);
    assert!(state.seat.grab.is_none());
}

#[test]
fn legacy_resize_request_installs_a_grab() {
    let mut state = ThingState::new();
    state.new_window(legacy(5, 300, 200, false), Point::new(40, 50));
    state.map_window_request(5);
    let edges = ResizeEdge::from_bits(ResizeEdge::LEFT).unwrap();
    assert_eq!(resize_request(&mut state, 5, BTN_LEFT, edges).len(), 1);
    match state.seat.grab.unwrap().grab {
        PointerGrab::Resize(r) => {
            assert_eq!(r.initial_rect, rect(40, 50, 300, 200));
            assert_eq!(r.edges, edges);
            assert_eq!(r.start_data.button, BTN_LEFT);
        }
        other => panic!("{:?}", other),
    }
    assert_eq!(
        state.surfaces.get(5).resize,
        ResizeSurfaceState::Resizing { edges, initial_rect: rect(40, 50, 300, 200) }
    );
    let n = state.serial;
    assert_eq!(resize_request(&mut state, 6, BTN_LEFT, edges), vec![]);
    assert_eq!(state.serial, n + 1);
}

#[test]
fn harness_names_surfaces_by_client_and_number() {
    assert_eq!(surface_of(3, 7), Some(3 * 0x1_0000_0000 + 7));
    assert_eq!(surface_of(0, u32::MAX), Some(u32::MAX as u64));
    assert_eq!(surface_of(-1, 7), None);
}

#[test]
fn harness_positions_a_window_on_top_without_activating_it() {
    let mut state = ThingState::new();
    let a = surface_of(3, 7).unwrap();
    let b = surface_of(4, 7).unwrap();
    state.new_toplevel(WindowElement::new_wayland_window(a, 3, Size::new(10, 10)));
    state.new_toplevel(WindowElement::new_wayland_window(b, 4, Size::new(10, 10)));
    let event = WlcsEvent::PositionWindow { client_id: 3, surface_id: 7, location: Point::new(9, 8) };
    assert_eq!(handle_event(event, &mut state, 0), (vec![], false));
    assert_eq!(order_of(&state), vec![b, a]);
    assert_eq!(state.space.element_location(a), Some(Point::new(9, 8)));
    assert_eq!(state.space.activated(), Some(b));
    let event = WlcsEvent::PositionWindow { client_id: -3, surface_id: 7, location: Point::new(1, 1) };
    handle_event(event, &mut state, 0);
    assert_eq!(state.space.element_location(a), Some(Point::new(9, 8)));
}

#[test]
fn harness_pointer_events_reach_the_seat() {
    let mut state = ThingState::new();
    state.new_toplevel(WindowElement::new_wayland_window(1, 1, Size::new(100, 100)));
    let to = FixedPoint::from_point(Point::new(10, 10));
    let (actions, stop) =
        handle_event(WlcsEvent::PointerMoveAbsolute { device_id: 0, location: to }, &mut state, 5);
    assert!(!stop);
    assert_eq!(actions.len(), 2);
    assert_eq!(state.seat.location, to);
    handle_event(WlcsEvent::PointerMoveRelative { device_id: 0, delta: to }, &mut state, 5);
    assert_eq!(state.seat.location, FixedPoint::from_point(Point::new(20, 20)));
    let (actions, _) =
        handle_event(WlcsEvent::PointerButtonDown { device_id: 0, button_id: 0x110 }, &mut state, 6);
    assert_eq!(actions.len(), 2);
    assert_eq!(state.pressed, vec![0x110]);
    assert!(state.seat.grab.is_some());
    assert_eq!(state.seat.keyboard_focus, None);
    handle_event(WlcsEvent::PointerButtonUp { device_id: 0, button_id: 0x110 }, &mut state, 7);
    assert!(state.pressed.is_empty());
    assert!(state.seat.grab.is_none());
    let n = state.serial;
    assert_eq!(
        handle_event(WlcsEvent::PointerButtonDown { device_id: 0, button_id: -1 }, &mut state, 8),
        (vec![], false)
    );
    assert_eq!(state.serial, n);
}

#[test]
fn harness_stops_the_server_on_exit_only() {
    let mut state = ThingState::new();
    assert_eq!(handle_event(WlcsEvent::Exit, &mut state, 0), (vec![], true));
    for event in [
        WlcsEvent::NewClient { client_id: 4 },
        WlcsEvent::NewPointer { device_id: 1 },
        WlcsEvent::PointerRemoved { device_id: 1 },
        WlcsEvent::NewTouch { device_id: 2 },
        WlcsEvent::TouchDown { device_id: 2, location: FixedPoint::new(1, 1) },
        WlcsEvent::TouchMove { device_id: 2, location: FixedPoint::new(1, 1) },
        WlcsEvent::TouchUp { device_id: 2 },
        WlcsEvent::TouchRemoved { device_id: 2 },
    ] {
        assert_eq!(handle_event(event, &mut state, 0), (vec![], false));
    }
    assert_eq!(state.serial, 0);
}
