use wayland_compositor_thing::geometry::{FixedPoint, Point, Rectangle, Size};
use wayland_compositor_thing::popup::Popup;
use wayland_compositor_thing::seat::{
    Action, ButtonEvent, ButtonState, Focus, GrabStartData, KeyState, MotionEvent,
};
use wayland_compositor_thing::space::Space;
use wayland_compositor_thing::state::elements::WindowElement;
use wayland_compositor_thing::state::xdg_shell::move_grab::MovePointerGrab;
use wayland_compositor_thing::state::xdg_shell::resize_grab::{
    handle_commit, ResizeEdge, ResizePointerGrab, ResizeSurfaceState,
};
use wayland_compositor_thing::state::xdg_shell::{SurfaceState, SurfaceStates};
use wayland_compositor_thing::state::ThingState;

fn start_at(x: i32, y: i32) -> GrabStartData {
    GrabStartData { focus: None, button: 0x110, location: FixedPoint::from_point(Point::new(x, y)) }
}

fn motion_to(x: i32, y: i32) -> MotionEvent {
    MotionEvent { location: FixedPoint::from_point(Point::new(x, y)), serial: 5, time: 9 }
}

fn scene(min: Size, max: Size) -> Space {
    let mut w = WindowElement::new_wayland_window(1, 1, Size::new(200, 100));
    w.min_size = min;
    w.max_size = max;
    let mut space = Space::new();
    space.map_element(w, Point::new(10, 20), true);
    space
}

fn resize_grab(edges: u32) -> ResizePointerGrab {
    ResizePointerGrab::start(
        start_at(50, 50),
        1,
        Rectangle::new(Point::new(10, 20), Size::new(200, 100)),
        ResizeEdge::from_bits(edges).unwrap(),
        &mut SurfaceStates::new(),
    )
}

fn size_after(edges: u32, to: (i32, i32), min: Size, max: Size) -> Size {
    let space = scene(min, max);
    let mut grab = resize_grab(edges);
    grab.motion(&space, &motion_to(to.0, to.1));
    grab.last_window_size
}

const FREE: Size = Size { w: 0, h: 0 };

#[test]
fn resize_edges_have_the_protocol_bits() {
    assert_eq!(ResizeEdge::TOP, 1);
    assert_eq!(ResizeEdge::BOTTOM, 2);
    assert_eq!(ResizeEdge::LEFT, 4);
    assert_eq!(ResizeEdge::RIGHT, 8);
    assert_eq!(ResizeEdge::TOP_LEFT, ResizeEdge::TOP | ResizeEdge::LEFT);
    assert_eq!(ResizeEdge::BOTTOM_LEFT, ResizeEdge::BOTTOM | ResizeEdge::LEFT);
    assert_eq!(ResizeEdge::TOP_RIGHT, ResizeEdge::TOP | ResizeEdge::RIGHT);
    assert_eq!(ResizeEdge::BOTTOM_RIGHT, ResizeEdge::BOTTOM | ResizeEdge::RIGHT);
    let corner = ResizeEdge::from_bits(ResizeEdge::TOP_RIGHT).unwrap();
    assert_eq!(corner, ResizeEdge { top: true, bottom: false, left: false, right: true });
    assert_eq!(corner.bits(), 9);
    assert_eq!(ResizeEdge::from_bits(0), Some(ResizeEdge::empty()));
    assert_eq!(ResizeEdge::from_bits(16), None);
    assert_eq!(ResizeEdge::bottom_right().bits(), ResizeEdge::BOTTOM_RIGHT);
    let top = ResizeEdge::from_bits(ResizeEdge::TOP).unwrap();
    assert!(corner.intersects(top));
    assert!(!corner.intersects(ResizeEdge::from_bits(ResizeEdge::BOTTOM_LEFT).unwrap()));
}

#[test]
fn resize_start_remembers_the_initial_size() {
    let grab = resize_grab(ResizeEdge::BOTTOM_RIGHT);
    assert_eq!(grab.last_window_size, Size::new(200, 100));
    assert_eq!(grab.window, 1);
}

#[test]
fn resize_start_marks_the_surface_as_being_resized() {
    let mut states = SurfaceStates::new();
    states.set(1, SurfaceState { configure_sent: true, resize: ResizeSurfaceState::Idle });
    let edges = ResizeEdge::from_bits(ResizeEdge::TOP_LEFT).unwrap();
    let initial_rect = Rectangle::new(Point::new(10, 20), Size::new(200, 100));
    let grab = ResizePointerGrab::start(start_at(50, 50), 1, initial_rect, edges, &mut states);
    assert_eq!(grab.initial_rect, initial_rect);
    assert_eq!(grab.edges, edges);
    assert_eq!(states.get(1).resize, ResizeSurfaceState::Resizing { edges, initial_rect });
    assert!(states.get(1).configure_sent);
    assert_eq!(states.get(2).resize, ResizeSurfaceState::Idle);
    ResizePointerGrab::start(start_at(0, 0), 2, initial_rect, edges, &mut states);
    assert_eq!(states.get(2).resize, ResizeSurfaceState::Resizing { edges, initial_rect });
    assert!(!states.get(2).configure_sent);
}

#[test]
fn dragging_a_corner_changes_both_extents() {
    assert_eq!(size_after(ResizeEdge::BOTTOM_RIGHT, (80, 60), FREE, FREE), Size::new(230, 110));
    assert_eq!(size_after(ResizeEdge::TOP_LEFT, (80, 60), FREE, FREE), Size::new(170, 90));
    assert_eq!(size_after(ResizeEdge::TOP_LEFT, (20, 10), FREE, FREE), Size::new(230, 140));
    assert_eq!(size_after(ResizeEdge::BOTTOM_LEFT, (20, 70), FREE, FREE), Size::new(230, 120));
}

#[test]
fn dragging_one_edge_leaves_the_other_axis_alone() {
    assert_eq!(size_after(ResizeEdge::TOP, (80, 30), FREE, FREE), Size::new(200, 120));
    assert_eq!(size_after(ResizeEdge::BOTTOM, (80, 30), FREE, FREE), Size::new(200, 80));
    assert_eq!(size_after(ResizeEdge::LEFT, (30, 90), FREE, FREE), Size::new(220, 100));
    assert_eq!(size_after(ResizeEdge::RIGHT, (30, 90), FREE, FREE), Size::new(180, 100));
}

#[test]
fn dragging_no_edge_follows_the_pointer() {
    assert_eq!(size_after(0, (60, 45), FREE, FREE), Size::new(210, 95));
}

#[test]
fn resize_is_clamped_to_the_size_constraints() {
    let min = Size::new(150, 80);
    let max = Size::new(300, 120);
    assert_eq!(size_after(ResizeEdge::BOTTOM_RIGHT, (1000, 1000), min, max), Size::new(300, 120));
    assert_eq!(size_after(ResizeEdge::BOTTOM_RIGHT, (-1000, -1000), min, max), Size::new(150, 80));
    assert_eq!(size_after(ResizeEdge::BOTTOM_RIGHT, (60, 55), min, max), Size::new(210, 105));
}

#[test]
fn resized_extents_are_never_less_than_one() {
    assert_eq!(size_after(ResizeEdge::BOTTOM_RIGHT, (-1000, -1000), FREE, FREE), Size::new(1, 1));
    let odd = Size::new(-7, -7);
    assert_eq!(size_after(ResizeEdge::BOTTOM_RIGHT, (-1000, -1000), odd, FREE), Size::new(1, 1));
}

#[test]
fn zero_maximum_means_unbounded() {
    assert_eq!(
        size_after(ResizeEdge::BOTTOM_RIGHT, (8_000_000, 50), FREE, Size::new(0, 120)),
        Size::new(200 + 8_000_000 - 50, 100)
    );
}

#[test]
fn minimum_wins_over_a_smaller_maximum() {
    let min = Size::new(300, 300);
    let max = Size::new(100, 100);
    assert_eq!(size_after(ResizeEdge::BOTTOM_RIGHT, (50, 50), min, max), Size::new(300, 300));
}

#[test]
fn resize_delta_is_cut_towards_zero() {
    let space = scene(FREE, FREE);
    let mut grab = resize_grab(ResizeEdge::BOTTOM_RIGHT);
    let event = MotionEvent {
        location: FixedPoint::new(50 * 256 + 255, 50 * 256 - 255),
        serial: 1,
        time: 1,
    };
    grab.motion(&space, &event);
    assert_eq!(grab.last_window_size, Size::new(200, 100));
    let event = MotionEvent {
        location: FixedPoint::new(51 * 256, 49 * 256 - 1),
        serial: 1,
        time: 1,
    };
    grab.motion(&space, &event);
    assert_eq!(grab.last_window_size, Size::new(201, 99));
}

#[test]
fn resize_motion_asks_for_the_size_and_keeps_the_window_in_place() {
    let space = scene(FREE, FREE);
    let mut grab = resize_grab(ResizeEdge::TOP_LEFT);
    let event = motion_to(40, 30);
    let actions = grab.motion(&space, &event);
    assert_eq!(
        actions,
        vec![
            Action::PointerMotion { focus: None, event },
            Action::Configure {
                surface: 1,
                size: Some(Size::new(210, 120)),
                resizing: true,
                activated: true
            },
        ]
    );
    assert_eq!(space.element_location(1), Some(Point::new(10, 20)));
}

#[test]
fn resize_motion_of_a_vanished_window_only_moves_the_pointer() {
    let mut space = scene(FREE, FREE);
    space.destroy(1);
    let mut grab = resize_grab(ResizeEdge::BOTTOM_RIGHT);
    let event = motion_to(90, 90);
    assert_eq!(grab.motion(&space, &event), vec![Action::PointerMotion { focus: None, event }]);
    assert_eq!(grab.last_window_size, Size::new(200, 100));
    let empty = Space::new();
    assert_eq!(grab.motion(&empty, &event), vec![Action::PointerMotion { focus: None, event }]);
}

#[test]
fn finishing_a_resize_waits_for_the_last_commit() {
    let space = scene(FREE, FREE);
    let mut states = SurfaceStates::new();
    let mut grab = resize_grab(ResizeEdge::TOP_LEFT);
    grab.motion(&space, &motion_to(40, 30));
    let actions = grab.finish(&space, &mut states);
    assert_eq!(
        actions,
        vec![Action::Configure {
            surface: 1,
            size: Some(Size::new(210, 120)),
            resizing: false,
            activated: true
        }]
    );
    assert_eq!(
        states.get(1).resize,
        ResizeSurfaceState::WaitingForLastCommit {
            edges: ResizeEdge::from_bits(ResizeEdge::TOP_LEFT).unwrap(),
            initial_rect: Rectangle::new(Point::new(10, 20), Size::new(200, 100)),
        }
    );
}

#[test]
fn resize_state_goes_back_to_idle_after_the_last_commit() {
    let edges = ResizeEdge::from_bits(ResizeEdge::TOP).unwrap();
    let initial_rect = Rectangle::new(Point::new(1, 2), Size::new(3, 4));
    let mut state = ResizeSurfaceState::Resizing { edges, initial_rect };
    assert_eq!(state.commit(), Some((edges, initial_rect)));
    assert_eq!(state, ResizeSurfaceState::Resizing { edges, initial_rect });
    let mut state = ResizeSurfaceState::WaitingForLastCommit { edges, initial_rect };
    assert_eq!(state.commit(), Some((edges, initial_rect)));
    assert_eq!(state, ResizeSurfaceState::Idle);
    assert_eq!(state.commit(), None);
    assert_eq!(state, ResizeSurfaceState::Idle);
}

fn commit_with(edges: u32, committed: Size) -> (Space, SurfaceStates, Option<()>) {
    let mut space = scene(FREE, FREE);
    space.map_element(
        WindowElement::new_wayland_window(2, 1, Size::new(10, 10)),
        Point::new(0, 0),
        false,
    );
    let mut states = SurfaceStates::new();
    states.set(
        1,
        SurfaceState {
            configure_sent: true,
            resize: ResizeSurfaceState::WaitingForLastCommit {
                edges: ResizeEdge::from_bits(edges).unwrap(),
                initial_rect: Rectangle::new(Point::new(10, 20), Size::new(200, 100)),
            },
        },
    );
    space.update_element(WindowElement::new_wayland_window(1, 1, committed));
    let r = handle_commit(&mut space, &mut states, 1);
    (space, states, r)
}

#[test]
fn top_drag_keeps_the_bottom_edge_in_place() {
    let (space, states, r) = commit_with(ResizeEdge::TOP, Size::new(200, 130));
    assert_eq!(r, Some(()));
    assert_eq!(space.element_location(1), Some(Point::new(10, 20 + (100 - 130))));
    assert_eq!(states.get(1).resize, ResizeSurfaceState::Idle);
    assert!(states.get(1).configure_sent);
}

#[test]
fn left_drag_keeps_the_right_edge_in_place() {
    let (space, _, _) = commit_with(ResizeEdge::LEFT, Size::new(150, 100));
    assert_eq!(space.element_location(1), Some(Point::new(10 + (200 - 150), 20)));
}

#[test]
fn top_left_drag_corrects_both_coordinates() {
    let (space, _, _) = commit_with(ResizeEdge::TOP_LEFT, Size::new(260, 40));
    assert_eq!(space.element_location(1), Some(Point::new(10 - 60, 20 + 60)));
}

#[test]
fn bottom_right_drag_moves_nothing() {
    let (space, states, _) = commit_with(ResizeEdge::BOTTOM_RIGHT, Size::new(260, 40));
    assert_eq!(space.element_location(1), Some(Point::new(10, 20)));
    assert_eq!(states.get(1).resize, ResizeSurfaceState::Idle);
}

#[test]
fn commit_correction_keeps_stacking_and_activation() {
    let (space, _, _) = commit_with(ResizeEdge::TOP_LEFT, Size::new(260, 40));
    assert_eq!(space.entry(0).element.surface, 1);
    assert_eq!(space.entry(1).element.surface, 2);
    assert!(space.entry(0).element.activated);
    assert!(!space.entry(1).element.activated);
}

#[test]
fn commit_of_an_unknown_surface_changes_nothing() {
    let mut space = scene(FREE, FREE);
    let mut states = SurfaceStates::new();
    assert_eq!(handle_commit(&mut space, &mut states, 42), None);
    assert!(!states.contains(42));
    assert_eq!(handle_commit(&mut space, &mut states, 1), Some(()));
    assert_eq!(states.get(1).resize, ResizeSurfaceState::Idle);
    assert_eq!(space.element_location(1), Some(Point::new(10, 20)));
}

fn move_grab() -> MovePointerGrab {
    MovePointerGrab {
        start_data: start_at(50, 50),
        window: 1,
        initial_window_location: Point::new(10, 20),
    }
}

#[test]
fn move_follows_the_pointer_one_to_one() {
    let grab = move_grab();
    assert_eq!(
        grab.new_location(FixedPoint::from_point(Point::new(70, 80))),
        Point::new(30, 50)
    );
    assert_eq!(
        grab.new_location(FixedPoint::from_point(Point::new(-50, 0))),
        Point::new(-90, -30)
    );
}

#[test]
fn move_rounds_to_whole_units() {
    let grab = move_grab();
    assert_eq!(grab.new_location(FixedPoint::new(50 * 256 + 127, 50 * 256 + 128)), Point::new(10, 21));
    assert_eq!(grab.new_location(FixedPoint::new(50 * 256 - 128, 50 * 256 - 127)), Point::new(10, 20));
    let below = MovePointerGrab { initial_window_location: Point::new(-10, -10), ..move_grab() };
    assert_eq!(
        below.new_location(FixedPoint::new(50 * 256 - 128, 50 * 256 + 128)),
        Point::new(-11, -10)
    );
}

#[test]
fn move_saturates_at_the_ends_of_the_range() {
    let grab = MovePointerGrab {
        initial_window_location: Point::new(i32::MAX, i32::MIN),
        ..move_grab()
    };
    assert_eq!(
        grab.new_location(FixedPoint::new(i32::MAX, i32::MIN)),
        Point::new(i32::MAX, i32::MIN)
    );
}

#[test]
fn move_without_motion_leaves_the_window_in_place() {
    let mut space = scene(FREE, FREE);
    let grab = move_grab();
    let event = motion_to(50, 50);
    let actions = grab.motion(&mut space, &event);
    assert_eq!(actions, vec![Action::PointerMotion { focus: None, event }]);
    assert_eq!(space.element_location(1), Some(Point::new(10, 20)));
    grab.motion(&mut space, &motion_to(300, 300));
    grab.motion(&mut space, &motion_to(50, 50));
    assert_eq!(space.element_location(1), Some(Point::new(10, 20)));
}

#[test]
fn move_motion_relocates_without_restacking() {
    let mut space = scene(FREE, FREE);
    space.map_element(
        WindowElement::new_wayland_window(2, 1, Size::new(10, 10)),
        Point::new(0, 0),
        true,
    );
    move_grab().motion(&mut space, &motion_to(60, 70));
    assert_eq!(space.element_location(1), Some(Point::new(20, 40)));
    assert_eq!(space.entry(0).element.surface, 1);
    assert_eq!(space.entry(1).element.surface, 2);
    assert_eq!(space.activated(), Some(2));
}

fn ready_toplevel(state: &mut ThingState, id: u64, w: i32, h: i32) {
    state.new_toplevel(WindowElement::new_wayland_window(id, 7, Size::new(w, h)));
    state.commit(id, false, None);
    state.commit(id, false, None);
}

fn spot(x: i32, y: i32) -> FixedPoint {
    FixedPoint::from_point(Point::new(x, y))
}

#[test]
fn release_after_the_window_died_leaves_the_pointer_without_focus() {
    let mut state = ThingState::new();
    ready_toplevel(&mut state, 1, 200, 100);
    state.move_pointer_to(spot(50, 50), 0);
    state.process_pointer_button(0x110, ButtonState::Pressed, 0, true);
    assert!(state.seat.grab.is_some());
    state.surface_destroyed(1);
    let before = state.space.element_location(1);
    let actions = state.process_pointer_button(0x110, ButtonState::Released, 5, false);
    let serial = state.serial;
    assert!(state.seat.grab.is_none());
    assert_eq!(state.seat.pointer_focus, None);
    assert_eq!(state.space.element_location(1), before);
    assert_eq!(
        actions,
        vec![
            Action::PointerButton {
                event: ButtonEvent {
                    button: 0x110,
                    state: ButtonState::Released,
                    serial,
                    time: 5
                }
            },
            Action::PointerMotion {
                focus: None,
                event: MotionEvent { location: spot(50, 50), serial, time: 5 }
            },
            Action::PointerFrame,
        ]
    );
}

#[test]
fn button_events_of_a_move_of_a_dead_window_change_nothing() {
    let mut state = ThingState::new();
    ready_toplevel(&mut state, 1, 200, 100);
    state.move_pointer_to(spot(50, 50), 0);
    state.process_pointer_button(0x110, ButtonState::Pressed, 0, true);
    state.surface_destroyed(1);
    state.process_pointer_button(0x111, ButtonState::Pressed, 1, false);
    assert!(state.seat.grab.is_some());
    assert_eq!(state.seat.pointer_focus, None);
    assert_eq!(state.space.element_location(1), Some(Point::new(0, 0)));
    state.process_pointer_button(0x111, ButtonState::Released, 2, false);
    assert!(state.seat.grab.is_some());
    state.process_pointer_button(0x110, ButtonState::Released, 3, false);
    assert!(state.seat.grab.is_none());
    assert_eq!(state.seat.pointer_focus, None);
}

#[test]
fn held_button_forgets_a_destroyed_surface() {
    let mut state = ThingState::new();
    ready_toplevel(&mut state, 1, 200, 100);
    state.move_pointer_to(spot(50, 50), 0);
    state.process_pointer_button(0x110, ButtonState::Pressed, 0, false);
    let focus = Some(Focus { surface: 1, client: 7, origin: Point::new(0, 0) });
    assert_eq!(state.seat.pointer_focus, focus);
    assert_eq!(state.seat.keyboard_focus, Some(1));
    assert_eq!(state.seat.grab_start_data().unwrap().focus, focus);
    state.surface_destroyed(1);
    assert_eq!(state.seat.pointer_focus, None);
    assert_eq!(state.seat.keyboard_focus, None);
    assert_eq!(state.seat.grab_start_data().unwrap().focus, None);
    assert!(state.seat.grab.is_some());
    state.move_pointer_to(spot(60, 60), 1);
    assert_eq!(state.seat.pointer_focus, None);
    state.process_pointer_button(0x110, ButtonState::Released, 2, false);
    assert!(state.seat.grab.is_none());
    assert_eq!(state.seat.pointer_focus, None);
}

#[test]
fn destroying_another_surface_keeps_the_focus() {
    let mut state = ThingState::new();
    ready_toplevel(&mut state, 1, 200, 100);
    state.move_pointer_to(spot(50, 50), 0);
    state.process_pointer_button(0x110, ButtonState::Pressed, 0, false);
    state.surface_destroyed(9);
    assert_eq!(state.seat.pointer_focus.map(|f| f.surface), Some(1));
    assert_eq!(state.seat.keyboard_focus, Some(1));
    state.process_pointer_button(0x110, ButtonState::Released, 2, false);
    assert_eq!(state.seat.pointer_focus.map(|f| f.surface), Some(1));
}

#[test]
fn ended_grab_gives_the_focus_to_the_window_that_is_there_now() {
    let mut state = ThingState::new();
    ready_toplevel(&mut state, 1, 200, 100);
    ready_toplevel(&mut state, 2, 200, 100);
    state.space.relocate(2, Point::new(300, 0));
    state.move_pointer_to(spot(50, 50), 0);
    state.process_pointer_button(0x110, ButtonState::Pressed, 0, true);
    state.move_pointer_to(spot(360, 60), 1);
    assert_eq!(state.space.element_location(1), Some(Point::new(310, 10)));
    state.process_pointer_button(0x110, ButtonState::Released, 2, false);
    assert_eq!(state.seat.pointer_focus.map(|f| f.surface), Some(1));
    state.surface_destroyed(1);
    state.move_pointer_to(spot(360, 60), 3);
    assert_eq!(state.seat.pointer_focus.map(|f| f.surface), Some(2));
}

#[test]
fn keyboard_goes_to_nothing_when_the_root_of_a_popup_grab_is_gone() {
    let mut state = ThingState::new();
    ready_toplevel(&mut state, 1, 200, 100);
    let popup = Popup {
        surface: 10,
        parent: 1,
        client: 7,
        geometry: Rectangle::new(Point::new(5, 5), Size::new(50, 50)),
        alive: true,
        grabbed: false,
        committed: false,
        configure_sent: false,
    };
    state.new_popup(popup).unwrap();
    state.grab(10, 3);
    assert_eq!(state.seat.keyboard_focus, Some(10));
    state.surface_destroyed(1);
    assert_eq!(state.popup_manager.len(), 0);
    let actions = state.process_keyboard(30, KeyState::Pressed, 0);
    assert_eq!(state.seat.keyboard_focus, None);
    assert!(state.seat.keyboard_grab.is_none());
    assert_eq!(actions[0], Action::KeyboardFocus { surface: None, serial: state.serial });
    state.move_pointer_to(spot(50, 50), 1);
    assert!(state.seat.grab.is_none());
    assert_eq!(state.seat.pointer_focus, None);
}

#[test]
fn keyboard_skips_a_dead_popup_of_a_grabbed_chain() {
    let mut state = ThingState::new();
    ready_toplevel(&mut state, 1, 200, 100);
    let first = Popup {
        surface: 10,
        parent: 1,
        client: 7,
        geometry: Rectangle::new(Point::new(5, 5), Size::new(50, 50)),
        alive: true,
        grabbed: false,
        committed: false,
        configure_sent: false,
    };
    state.new_popup(first).unwrap();
    state.grab(10, 3);
    state.new_popup(Popup { surface: 11, parent: 10, ..first }).unwrap();
    state.grab(11, 3);
    assert_eq!(state.seat.keyboard_focus, Some(11));
    state.surface_destroyed(11);
    assert_eq!(state.seat.keyboard_focus, None);
    state.process_keyboard(30, KeyState::Pressed, 0);
    assert_eq!(state.seat.keyboard_focus, Some(10));
    state.surface_destroyed(10);
    state.process_keyboard(30, KeyState::Released, 0);
    assert_eq!(state.seat.keyboard_focus, Some(1));
}
