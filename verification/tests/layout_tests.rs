use worm::layout::Layout;
use worm::x::{Request, Window, WindowChanges};
use worm::Screen;

fn screen() -> Screen {
    Screen { width: 810, height: 610, x: 0, y: 0 }
}

fn win(id: u32) -> Window {
    Window::new(id, 0, 0, 0, 0)
}

fn changes(x: u32, y: u32, width: u32, height: u32) -> WindowChanges {
    WindowChanges { x, y, width, height, border_width: 0, sibling: 0, stack_mode: 0 }
}

fn place(id: u32, c: WindowChanges) -> Vec<Request> {
    vec![
        Request::StopWindowEvents(id),
        Request::MapWindow(id),
        Request::ConfigureWindow(id, c),
        Request::TrackWindowEvents(id),
    ]
}

#[test]
fn tile_empty_is_noop() {
    let r = Layout::Tile.apply(&Vec::new(), &screen());
    assert!(r.is_empty());
}

#[test]
fn tile_single_window_spans_screen() {
    // master width is 0 for one window, yet the lone window spans the
    // full screen
    let r = Layout::Tile.apply(&vec![win(1)], &screen());
    assert_eq!(r, place(1, changes(0, 0, 810, 610)));
}

#[test]
fn tile_two_windows_split_master_column() {
    // master column width is (810 - 10) / 2 = 400, truncating
    let r = Layout::Tile.apply(&vec![win(1), win(2)], &screen());
    let mut expected = place(1, changes(0, 0, 400, 610));
    expected.extend(place(2, changes(410, 0, 400, 610)));
    assert_eq!(r, expected);
}

#[test]
fn tile_three_windows_stack_right_column() {
    let r = Layout::Tile.apply(&vec![win(1), win(2), win(3)], &screen());
    let mut expected = place(1, changes(0, 0, 400, 610));
    expected.extend(place(2, changes(410, 0, 400, 300)));
    expected.extend(place(3, changes(410, 310, 400, 300)));
    assert_eq!(r, expected);
}

#[test]
fn tile_rectangles_cover_screen_minus_gaps() {
    // n = 3 on 810 x 610: areas 400*610 + 400*300 + 400*300 = 484000;
    // gap area = 10*610 (between columns) + 1*10*400 (between stacked
    // windows) = 10100; screen area 810*610 = 494100
    let r = Layout::Tile.apply(&vec![win(1), win(2), win(3)], &screen());
    let mut area: u64 = 0;
    for req in &r {
        if let Request::ConfigureWindow(_, c) = req {
            area += c.width as u64 * c.height as u64;
        }
    }
    assert_eq!(area, 484_000);
    assert_eq!(810u64 * 610 - (10 * 610 + 10 * 400), 484_000);
}

#[test]
fn tile_rectangles_do_not_overlap() {
    let r = Layout::Tile.apply(&vec![win(1), win(2), win(3), win(4)], &screen());
    let mut rects: Vec<WindowChanges> = Vec::new();
    for req in &r {
        if let Request::ConfigureWindow(_, c) = req {
            rects.push(*c);
        }
    }
    assert_eq!(rects.len(), 4);
    for i in 0..rects.len() {
        for j in 0..rects.len() {
            if i != j {
                let a = &rects[i];
                let b = &rects[j];
                let disjoint = a.x + a.width <= b.x
                    || b.x + b.width <= a.x
                    || a.y + a.height <= b.y
                    || b.y + b.height <= a.y;
                assert!(disjoint);
            }
        }
    }
}

#[test]
fn tile_many_windows_cover_screen() {
    // twelve windows: the eleven stacked ones share the column under
    // ten gaps; the areas still sum to the screen minus the gap strips
    let ws: Vec<Window> = (1..=12).map(win).collect();
    let r = Layout::Tile.apply(&ws, &screen());
    let mut rects: Vec<WindowChanges> = Vec::new();
    for req in &r {
        if let Request::ConfigureWindow(_, c) = req {
            rects.push(*c);
        }
    }
    assert_eq!(rects.len(), 12);
    let area: u64 = rects.iter().map(|c| c.width as u64 * c.height as u64).sum();
    assert_eq!(area, 810 * 610 - (10 * 610 + 10 * 10 * 400));
    for c in &rects {
        assert!(c.x + c.width <= 810 && c.y + c.height <= 610);
    }
    for i in 0..rects.len() {
        for j in 0..i {
            let (a, b) = (&rects[i], &rects[j]);
            assert!(
                a.x + a.width <= b.x
                    || b.x + b.width <= a.x
                    || a.y + a.height <= b.y
                    || b.y + b.height <= a.y
            );
        }
    }
}

#[test]
fn tile_respects_screen_origin() {
    let offset = Screen { width: 810, height: 610, x: 50, y: 30 };
    let r = Layout::Tile.apply(&vec![win(1), win(2)], &offset);
    let mut expected = place(1, changes(50, 30, 400, 610));
    expected.extend(place(2, changes(460, 30, 400, 610)));
    assert_eq!(r, expected);
}

#[test]
fn monocle_places_every_window_fullscreen() {
    // the monocle layout step maps and places every window at the full
    // screen rectangle; visibility of a single one is enforced by the
    // cycle and add/delete operations, not here
    let r = Layout::Monocle.apply(&vec![win(1), win(2)], &screen());
    let mut expected = place(1, changes(0, 0, 810, 610));
    expected.extend(place(2, changes(0, 0, 810, 610)));
    assert_eq!(r, expected);
}

#[test]
fn float_shows_windows_without_geometry() {
    let r = Layout::Float.apply(&vec![win(7), win(8)], &screen());
    let expected = vec![
        Request::StopWindowEvents(7),
        Request::MapWindow(7),
        Request::TrackWindowEvents(7),
        Request::StopWindowEvents(8),
        Request::MapWindow(8),
        Request::TrackWindowEvents(8),
    ];
    assert_eq!(r, expected);
}

#[test]
fn apply_is_idempotent() {
    let ws = vec![win(1), win(2), win(3)];
    let first = Layout::Tile.apply(&ws, &screen());
    let second = Layout::Tile.apply(&ws, &screen());
    assert_eq!(first, second);
}
