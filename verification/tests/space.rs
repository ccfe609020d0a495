use wayland_compositor_thing::geometry::{FixedPoint, Point, Rectangle, Size};
use wayland_compositor_thing::space::Space;
use wayland_compositor_thing::state::elements::{SurfaceRegion, WindowElement, WindowKind};

fn window(id: u64, w: i32, h: i32) -> WindowElement {
    let mut window = WindowElement::new_wayland_window(id, 1, Size::new(w, h));
    window.mapped = true;
    window
}

fn menu(id: u64, w: i32, h: i32) -> WindowElement {
    let mut window = WindowElement::new_x11_window(id, 2, Size::new(w, h), true);
    window.mapped = true;
    window
}

fn at(x: i32, y: i32) -> FixedPoint {
    FixedPoint::from_point(Point::new(x, y))
}

fn order(space: &Space) -> Vec<u64> {
    (0..space.len()).map(|i| space.entry(i).element.surface).collect()
}

fn activated(space: &Space) -> Vec<u64> {
    (0..space.len())
        .filter(|i| space.entry(*i).element.activated)
        .map(|i| space.entry(i).element.surface)
        .collect()
}

#[test]
fn last_mapped_window_is_topmost() {
    let mut space = Space::new();
    space.map_element(window(1, 100, 100), Point::new(0, 0), false);
    space.map_element(window(2, 100, 100), Point::new(10, 10), false);
    space.map_element(window(3, 100, 100), Point::new(20, 20), false);
    assert_eq!(order(&space), vec![1, 2, 3]);
    space.map_element(window(1, 100, 100), Point::new(5, 5), false);
    assert_eq!(order(&space), vec![2, 3, 1]);
    assert_eq!(space.element_location(1), Some(Point::new(5, 5)));
}

#[test]
fn raised_window_is_topmost() {
    let mut space = Space::new();
    space.map_element(window(1, 100, 100), Point::new(0, 0), false);
    space.map_element(window(2, 100, 100), Point::new(10, 10), false);
    space.raise_element(1, false);
    assert_eq!(order(&space), vec![2, 1]);
    space.raise_element(7, false);
    assert_eq!(order(&space), vec![2, 1]);
}

#[test]
fn element_under_finds_the_topmost_overlapping_window() {
    let mut space = Space::new();
    space.map_element(window(1, 100, 100), Point::new(0, 0), false);
    space.map_element(window(2, 100, 100), Point::new(50, 50), false);
    assert_eq!(space.element_under(at(60, 60)), Some((2, at(10, 10))));
    assert_eq!(space.element_under(at(10, 10)), Some((1, at(10, 10))));
    assert_eq!(space.element_under(at(200, 200)), None);
    space.raise_element(1, false);
    assert_eq!(space.element_under(at(60, 60)), Some((1, at(60, 60))));
}

#[test]
fn activation_is_exclusive() {
    let mut space = Space::new();
    space.map_element(window(1, 10, 10), Point::new(0, 0), true);
    assert_eq!(activated(&space), vec![1]);
    space.map_element(window(2, 10, 10), Point::new(0, 0), true);
    assert_eq!(activated(&space), vec![2]);
    space.map_element(window(3, 10, 10), Point::new(0, 0), false);
    assert_eq!(activated(&space), vec![2]);
    space.raise_element(1, true);
    assert_eq!(activated(&space), vec![1]);
    assert_eq!(space.activated(), Some(1));
    space.deactivate_all();
    assert_eq!(activated(&space), Vec::<u64>::new());
    assert_eq!(space.activated(), None);
}

#[test]
fn remapping_without_activation_keeps_the_activation() {
    let mut space = Space::new();
    space.map_element(window(1, 10, 10), Point::new(0, 0), true);
    space.map_element(window(2, 10, 10), Point::new(0, 0), false);
    space.map_element(window(1, 10, 10), Point::new(3, 3), false);
    assert_eq!(order(&space), vec![2, 1]);
    assert_eq!(activated(&space), vec![1]);
}

#[test]
fn unmap_is_idempotent() {
    let mut space = Space::new();
    space.map_element(window(1, 10, 10), Point::new(0, 0), true);
    space.unmap_elem(1);
    assert_eq!(space.len(), 0);
    space.unmap_elem(1);
    assert_eq!(space.len(), 0);
    assert_eq!(space.element_location(1), None);
}

#[test]
fn destroyed_windows_are_left_alone() {
    let mut space = Space::new();
    space.map_element(window(1, 100, 100), Point::new(0, 0), true);
    space.map_element(window(2, 100, 100), Point::new(200, 0), false);
    space.destroy(1);
    assert!(!space.alive(1));
    assert_eq!(space.element_under(at(10, 10)), None);
    space.raise_element(1, true);
    assert_eq!(order(&space), vec![1, 2]);
    space.relocate(1, Point::new(9, 9));
    assert_eq!(space.element_location(1), Some(Point::new(0, 0)));
    let mut dead = window(3, 10, 10);
    dead.alive = false;
    space.map_element(dead, Point::new(0, 0), true);
    assert_eq!(order(&space), vec![1, 2]);
    space.refresh();
    assert_eq!(order(&space), vec![2]);
}

#[test]
fn override_redirect_windows_stay_on_top_and_inactive() {
    let mut space = Space::new();
    space.map_element(window(1, 100, 100), Point::new(0, 0), true);
    space.map_element(menu(9, 10, 10), Point::new(0, 0), true);
    assert_eq!(order(&space), vec![1, 9]);
    assert_eq!(activated(&space), vec![1]);
    space.map_element(window(2, 100, 100), Point::new(0, 0), true);
    assert_eq!(order(&space), vec![1, 2, 9]);
    assert_eq!(activated(&space), vec![2]);
    space.raise_element(1, false);
    assert_eq!(order(&space), vec![2, 1, 9]);
    space.map_element(menu(8, 10, 10), Point::new(0, 0), false);
    assert_eq!(order(&space), vec![2, 1, 9, 8]);
    space.raise_element(9, true);
    assert_eq!(order(&space), vec![2, 1, 8, 9]);
    assert_eq!(activated(&space), vec![2]);
    assert_eq!(space.element_under(at(5, 5)), Some((9, at(5, 5))));
}

#[test]
fn relocate_changes_the_position_only() {
    let mut space = Space::new();
    space.map_element(window(1, 10, 10), Point::new(0, 0), true);
    space.map_element(window(2, 10, 10), Point::new(0, 0), false);
    space.relocate(1, Point::new(40, 50));
    assert_eq!(order(&space), vec![1, 2]);
    assert_eq!(activated(&space), vec![1]);
    assert_eq!(space.element_location(1), Some(Point::new(40, 50)));
    assert_eq!(
        space.element_geometry(1),
        Some(Rectangle::new(Point::new(40, 50), Size::new(10, 10)))
    );
}

#[test]
fn hit_test_follows_the_surface_tree() {
    let mut w = window(1, 100, 100);
    w.geometry = Rectangle::new(Point::new(10, 10), Size::new(80, 80));
    w.bbox = Rectangle::new(Point::new(0, 0), Size::new(150, 100));
    w.tree = vec![
        SurfaceRegion {
            surface: 11,
            origin: Point::new(100, 0),
            region: Rectangle::new(Point::new(100, 0), Size::new(50, 50)),
        },
        SurfaceRegion {
            surface: 1,
            origin: Point::new(0, 0),
            region: Rectangle::new(Point::new(0, 0), Size::new(100, 100)),
        },
    ];
    let mut space = Space::new();
    space.map_element(w, Point::new(110, 110), true);
    // The main surface starts at (100, 100): the geometry is inset by (10, 10).
    assert_eq!(space.element_under(at(100, 100)), Some((1, at(0, 0))));
    assert_eq!(space.element_under(at(230, 120)), Some((1, at(130, 20))));
    assert_eq!(space.element_under(at(99, 100)), None);
    // Inside the bounding box but on no surface.
    assert_eq!(space.element_under(at(220, 180)), None);
    let entry = space.element(1).unwrap();
    assert_eq!(entry.render_location(), Point::new(100, 100));
    assert_eq!(entry.bbox(), Rectangle::new(Point::new(100, 100), Size::new(150, 100)));
    assert_eq!(
        entry.element.surface_under(at(120, 10)),
        Some((11, Point::new(100, 0)))
    );
    assert_eq!(entry.element.surface_under(at(20, 10)), Some((1, Point::new(0, 0))));
    assert_eq!(entry.element.surface_under(at(120, 60)), None);
    assert_eq!(space.element_bbox(1), Some(entry.bbox()));
}

#[test]
fn input_region_of_several_rectangles() {
    let mut w = window(1, 100, 100);
    w.tree = vec![
        SurfaceRegion {
            surface: 1,
            origin: Point::new(0, 0),
            region: Rectangle::new(Point::new(10, 10), Size::new(20, 20)),
        },
        SurfaceRegion {
            surface: 1,
            origin: Point::new(0, 0),
            region: Rectangle::new(Point::new(60, 60), Size::new(20, 20)),
        },
    ];
    assert_eq!(w.surface_under(at(15, 15)), Some((1, Point::new(0, 0))));
    assert_eq!(w.surface_under(at(65, 65)), Some((1, Point::new(0, 0))));
    assert_eq!(w.surface_under(at(40, 40)), None);
    let mut space = Space::new();
    space.map_element(w, Point::new(100, 100), true);
    assert_eq!(space.element_under(at(115, 115)), Some((1, at(15, 15))));
    assert_eq!(space.element_under(at(140, 140)), None);
}

#[test]
fn outputs_are_mapped_once() {
    let mut space = Space::new();
    space.map_output(1, Rectangle::new(Point::new(0, 0), Size::new(800, 600)));
    space.map_output(2, Rectangle::new(Point::new(800, 0), Size::new(800, 600)));
    space.map_output(1, Rectangle::new(Point::new(0, 0), Size::new(1024, 768)));
    assert_eq!(space.output_count(), 2);
    assert_eq!(space.output(0).id, 1);
    assert_eq!(
        space.output_geometry(1),
        Some(Rectangle::new(Point::new(0, 0), Size::new(1024, 768)))
    );
    space.unmap_output(1);
    assert_eq!(space.output_geometry(1), None);
    assert_eq!(space.output_count(), 1);
    space.unmap_output(1);
    assert_eq!(space.output_count(), 1);
}

#[test]
fn output_union_covers_the_outputs_a_window_overlaps() {
    let mut space = Space::new();
    space.map_output(1, Rectangle::new(Point::new(0, 0), Size::new(800, 600)));
    space.map_output(2, Rectangle::new(Point::new(800, 0), Size::new(800, 600)));
    space.map_output(3, Rectangle::new(Point::new(0, 600), Size::new(800, 600)));
    space.map_element(window(1, 100, 100), Point::new(750, 10), true);
    assert_eq!(space.outputs_for_element(1), vec![1, 2]);
    assert_eq!(
        space.output_geometry_union(1),
        Rectangle::new(Point::new(0, 0), Size::new(1600, 600))
    );
    space.map_element(window(2, 100, 100), Point::new(5000, 5000), true);
    assert_eq!(space.outputs_for_element(2), Vec::<u64>::new());
    assert_eq!(space.output_geometry_union(2), Rectangle::zero());
    assert_eq!(space.visible_region(2), None);
    assert_eq!(space.output_geometry_union(77), Rectangle::zero());
    assert_eq!(space.outputs_for_element(77), Vec::<u64>::new());
}

#[test]
fn update_keeps_kind_place_and_activation() {
    let mut space = Space::new();
    space.map_element(window(1, 10, 10), Point::new(4, 4), true);
    space.map_element(window(2, 10, 10), Point::new(0, 0), false);
    let mut committed = WindowElement::new_x11_window(1, 1, Size::new(30, 40), true);
    committed.min_size = Size::new(5, 5);
    space.update_element(committed);
    let entry = space.element(1).unwrap();
    assert_eq!(entry.element.kind, WindowKind::Wayland);
    assert!(entry.element.activated);
    assert_eq!(entry.element.geometry.size, Size::new(30, 40));
    assert_eq!(entry.element.min_size, Size::new(5, 5));
    assert_eq!(entry.location, Point::new(4, 4));
    assert_eq!(order(&space), vec![1, 2]);
}

#[test]
fn window_takes_no_input_before_it_is_ready() {
    let mut space = Space::new();
    space.map_element(
        WindowElement::new_wayland_window(1, 1, Size::new(100, 100)),
        Point::new(0, 0),
        true,
    );
    assert_eq!(space.element_under(at(10, 10)), None);
    space.set_mapped(1, true);
    assert_eq!(space.element_under(at(10, 10)), Some((1, at(10, 10))));
    space.update_element(WindowElement::new_wayland_window(1, 1, Size::new(50, 50)));
    assert_eq!(space.element_under(at(10, 10)), Some((1, at(10, 10))));
    assert_eq!(space.element_under(at(60, 60)), None);
    space.set_mapped(1, false);
    assert_eq!(space.element_under(at(10, 10)), None);
    space.set_mapped(9, true);
    assert_eq!(space.len(), 1);
}

#[test]
fn take_hands_the_entry_over() {
    let mut space = Space::new();
    space.map_element(window(1, 10, 10), Point::new(4, 4), true);
    let entry = space.take(1).unwrap();
    assert_eq!(entry.location, Point::new(4, 4));
    assert_eq!(entry.element.surface, 1);
    assert!(space.take(1).is_none());
    assert_eq!(space.position(1), None);
}
