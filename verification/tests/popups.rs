use wayland_compositor_thing::geometry::{Point, Rectangle, Size};
use wayland_compositor_thing::popup::{Popup, PopupError, PopupGrabError, PopupManager};
use wayland_compositor_thing::seat::Action;
use wayland_compositor_thing::space::Space;
use wayland_compositor_thing::state::elements::WindowElement;

fn popup(surface: u64, parent: u64) -> Popup {
    Popup {
        surface,
        parent,
        client: 1,
        geometry: Rectangle::new(Point::new(5, 5), Size::new(50, 50)),
        alive: true,
        grabbed: false,
        committed: false,
        configure_sent: false,
    }
}

fn scene_with(roots: &[u64]) -> Space {
    let mut space = Space::new();
    for r in roots {
        space.map_element(
            WindowElement::new_wayland_window(*r, 1, Size::new(100, 100)),
            Point::new(0, 0),
            true,
        );
    }
    space
}

fn chain_of(m: &PopupManager, root: u64) -> Vec<u64> {
    match m.chain_position(root) {
        Some(c) => (0..m.chain(c).len()).map(|i| m.chain(c).popup(i).surface).collect(),
        None => Vec::new(),
    }
}

fn dismiss(surface: u64) -> Action {
    Action::DismissPopup { surface }
}

#[test]
fn popups_form_a_chain_above_their_root() {
    let space = scene_with(&[1]);
    let mut m = PopupManager::new();
    assert_eq!(m.track_popup(popup(10, 1), &space), Ok(vec![]));
    assert_eq!(m.track_popup(popup(11, 10), &space), Ok(vec![]));
    assert_eq!(m.track_popup(popup(12, 11), &space), Ok(vec![]));
    assert_eq!(chain_of(&m, 1), vec![10, 11, 12]);
    assert_eq!(m.root_of(12), Some(1));
    assert_eq!(m.root_of(1), None);
    assert_eq!(m.find_popup(11).map(|p| p.parent), Some(10));
    assert_eq!(m.find_popup(99), None);
    assert_eq!(m.len(), 1);
    assert_eq!(m.chain(0).root(), 1);
}

#[test]
fn tracking_fails_without_a_live_root() {
    let mut space = scene_with(&[1]);
    let mut m = PopupManager::new();
    assert_eq!(m.track_popup(popup(10, 7), &space), Err(PopupError::DeadResource));
    assert_eq!(m.len(), 0);
    assert_eq!(m.track_popup(popup(10, 1), &space), Ok(vec![]));
    space.destroy(1);
    assert_eq!(m.track_popup(popup(11, 10), &space), Err(PopupError::DeadResource));
    assert_eq!(m.track_popup(popup(12, 1), &space), Err(PopupError::DeadResource));
    assert_eq!(chain_of(&m, 1), vec![10]);
}

#[test]
fn tracking_fails_on_a_dead_parent_popup() {
    let space = scene_with(&[1]);
    let mut m = PopupManager::new();
    m.track_popup(popup(10, 1), &space).unwrap();
    m.destroy(10);
    assert_eq!(m.track_popup(popup(11, 10), &space), Err(PopupError::DeadResource));
}

#[test]
fn tracking_a_surface_twice_fails() {
    let space = scene_with(&[1]);
    let mut m = PopupManager::new();
    m.track_popup(popup(10, 1), &space).unwrap();
    assert_eq!(m.track_popup(popup(10, 1), &space), Err(PopupError::AlreadyTracked));
    assert_eq!(chain_of(&m, 1), vec![10]);
}

#[test]
fn a_new_popup_closes_what_stood_above_its_parent() {
    let space = scene_with(&[1]);
    let mut m = PopupManager::new();
    m.track_popup(popup(10, 1), &space).unwrap();
    m.track_popup(popup(11, 10), &space).unwrap();
    m.track_popup(popup(12, 11), &space).unwrap();
    assert_eq!(m.track_popup(popup(13, 10), &space), Ok(vec![dismiss(12), dismiss(11)]));
    assert_eq!(chain_of(&m, 1), vec![10, 13]);
    assert_eq!(m.track_popup(popup(14, 1), &space), Ok(vec![dismiss(13), dismiss(10)]));
    assert_eq!(chain_of(&m, 1), vec![14]);
}

#[test]
fn each_root_has_its_own_chain() {
    let space = scene_with(&[1, 2]);
    let mut m = PopupManager::new();
    m.track_popup(popup(10, 1), &space).unwrap();
    m.track_popup(popup(20, 2), &space).unwrap();
    m.track_popup(popup(21, 20), &space).unwrap();
    assert_eq!(chain_of(&m, 1), vec![10]);
    assert_eq!(chain_of(&m, 2), vec![20, 21]);
    assert_eq!(m.ungrab_all(2), vec![dismiss(21), dismiss(20)]);
    assert_eq!(chain_of(&m, 2), Vec::<u64>::new());
    assert_eq!(chain_of(&m, 1), vec![10]);
    assert_eq!(m.ungrab_all(2), vec![]);
}

#[test]
fn grabs_start_at_the_root() {
    let space = scene_with(&[1]);
    let mut m = PopupManager::new();
    m.track_popup(popup(10, 1), &space).unwrap();
    m.track_popup(popup(11, 10), &space).unwrap();
    assert_eq!(m.grab_popup(11), Err(PopupGrabError::NotTheTopmostPopup));
    assert_eq!(m.current_grab(1), None);
    assert_eq!(m.grab_popup(10), Ok(()));
    assert_eq!(m.current_grab(1), Some(10));
    assert_eq!(m.grab_popup(11), Ok(()));
    assert_eq!(m.current_grab(1), Some(11));
    assert!(m.find_popup(11).unwrap().grabbed);
    assert_eq!(m.current_grab(5), None);
}

#[test]
fn grab_is_refused_to_dead_unknown_and_committed_popups() {
    let space = scene_with(&[1]);
    let mut m = PopupManager::new();
    assert_eq!(m.grab_popup(10), Err(PopupGrabError::DeadResource));
    m.track_popup(popup(10, 1), &space).unwrap();
    assert_eq!(
        m.commit(10),
        vec![Action::ConfigurePopup {
            surface: 10,
            geometry: Rectangle::new(Point::new(5, 5), Size::new(50, 50))
        }]
    );
    assert_eq!(m.grab_popup(10), Err(PopupGrabError::InvalidGrab));
    m.track_popup(popup(11, 10), &space).unwrap();
    m.destroy(11);
    assert_eq!(m.grab_popup(11), Err(PopupGrabError::DeadResource));
}

#[test]
fn popup_is_configured_once() {
    let space = scene_with(&[1]);
    let mut m = PopupManager::new();
    m.track_popup(popup(10, 1), &space).unwrap();
    assert_eq!(m.commit(10).len(), 1);
    assert_eq!(m.commit(10), vec![]);
    assert_eq!(m.commit(99), vec![]);
    let p = m.find_popup(10).unwrap();
    assert!(p.committed && p.configure_sent);
}

#[test]
fn a_tracked_popup_enters_without_a_grab() {
    let space = scene_with(&[1]);
    let mut m = PopupManager::new();
    let mut p = popup(10, 1);
    p.grabbed = true;
    m.track_popup(p, &space).unwrap();
    assert!(!m.find_popup(10).unwrap().grabbed);
}

#[test]
fn cleanup_cuts_a_chain_at_its_first_dead_popup() {
    let space = scene_with(&[1]);
    let mut m = PopupManager::new();
    m.track_popup(popup(10, 1), &space).unwrap();
    m.track_popup(popup(11, 10), &space).unwrap();
    m.track_popup(popup(12, 11), &space).unwrap();
    m.destroy(11);
    assert_eq!(m.cleanup(&space), vec![dismiss(12), dismiss(11)]);
    assert_eq!(chain_of(&m, 1), vec![10]);
    assert_eq!(m.cleanup(&space), vec![]);
    m.destroy(10);
    assert_eq!(m.cleanup(&space), vec![dismiss(10)]);
    assert_eq!(m.len(), 0);
}

#[test]
fn no_popup_outlives_its_root() {
    let mut space = scene_with(&[1, 2]);
    let mut m = PopupManager::new();
    m.track_popup(popup(10, 1), &space).unwrap();
    m.track_popup(popup(11, 10), &space).unwrap();
    m.track_popup(popup(20, 2), &space).unwrap();
    space.destroy(1);
    assert_eq!(m.cleanup(&space), vec![dismiss(11), dismiss(10)]);
    assert_eq!(chain_of(&m, 1), Vec::<u64>::new());
    assert_eq!(chain_of(&m, 2), vec![20]);
    assert_eq!(m.find_popup(10), None);
    assert_eq!(m.find_popup(11), None);
    space.unmap_elem(2);
    assert_eq!(m.cleanup(&space), vec![dismiss(20)]);
    assert_eq!(m.len(), 0);
}

#[test]
fn parent_offsets_add_up_along_the_chain() {
    let space = scene_with(&[1]);
    let mut m = PopupManager::new();
    let mut a = popup(10, 1);
    a.geometry = Rectangle::new(Point::new(5, 7), Size::new(50, 50));
    let mut b = popup(11, 10);
    b.geometry = Rectangle::new(Point::new(30, -2), Size::new(50, 50));
    m.track_popup(a, &space).unwrap();
    m.track_popup(b, &space).unwrap();
    assert_eq!(m.offset_of_parent(&popup(12, 1)), Point::new(0, 0));
    assert_eq!(m.offset_of_parent(&popup(12, 10)), Point::new(5, 7));
    assert_eq!(m.offset_of_parent(&popup(12, 11)), Point::new(35, 5));
    assert_eq!(m.resolve(&space, &popup(12, 11)), Some(1));
    assert_eq!(m.resolve(&space, &popup(12, 1)), Some(1));
    assert_eq!(m.resolve(&space, &popup(12, 3)), None);
}
