use worm::command::Direction;
use worm::desktop::{Desktop, Desktops};
use worm::layout::Layout;
use worm::x::{Request, Window};
use worm::Screen;

fn screen() -> Screen {
    Screen { width: 810, height: 610, x: 0, y: 0 }
}

fn win(id: u32) -> Window {
    Window::new(id, 0, 0, 0, 0)
}

fn ids(d: &Desktop) -> Vec<u32> {
    d.windows.iter().map(|w| w.window).collect()
}

fn tile_desktop(window_ids: &[u32], focused: Option<usize>) -> Desktop {
    let mut d = Desktop::new(false, Layout::Tile, Vec::new(), &screen());
    for id in window_ids {
        d.windows.push(win(*id));
    }
    d.focused_window = focused;
    d
}

#[test]
fn add_window_focuses_first_window_only() {
    let mut d = Desktop::new(false, Layout::Tile, Vec::new(), &screen());
    d.add_window(win(1));
    assert_eq!(d.focused_window, Some(0));
    d.add_window(win(2));
    d.add_window(win(3));
    // later insertions leave focus alone
    assert_eq!(d.focused_window, Some(0));
    assert_eq!(ids(&d), vec![1, 2, 3]);
}

#[test]
fn contains_goes_by_identity() {
    let mut d = tile_desktop(&[5], Some(0));
    // same identifier, different remembered geometry: still the same
    // window
    assert!(d.contains(&Window::new(5, 99, 99, 99, 99)));
    assert!(!d.contains(&win(6)));
    d.windows.clear();
    d.focused_window = None;
    assert!(!d.contains(&win(5)));
}

#[test]
fn remove_window_returns_the_resolved_window() {
    let mut d = tile_desktop(&[1, 2, 3], Some(0));
    let removed = d.remove_window(Some(1));
    assert_eq!(removed, Some(win(2)));
    assert_eq!(ids(&d), vec![1, 3]);
    let removed = d.remove_window(None);
    assert_eq!(removed, None);
    assert_eq!(ids(&d), vec![1, 3]);
}

#[test]
fn change_layout_same_layout_is_noop() {
    let mut d = tile_desktop(&[1, 2], Some(0));
    let r = d.change_layout(&Layout::Tile);
    assert!(r.is_empty());
    assert_eq!(d.layout, Layout::Tile);
}

#[test]
fn change_layout_to_monocle_maps_all_windows() {
    // the layout step under monocle places and maps every window; the
    // single-visible convention is restored by cycle/add/delete, so a
    // fresh switch to monocle deliberately maps them all
    let mut d = tile_desktop(&[1, 2], Some(0));
    let r = d.change_layout(&Layout::Monocle);
    assert_eq!(d.layout, Layout::Monocle);
    let maps: Vec<u32> = r
        .iter()
        .filter_map(|q| match q {
            Request::MapWindow(id) => Some(*id),
            _ => None,
        })
        .collect();
    assert_eq!(maps, vec![1, 2]);
}

#[test]
fn delete_then_refocus_prefers_master_without_marker() {
    // windows [A, B, C] focused at B with no last-focused: deleting
    // yields [A, C] focused at index 0, per the "marked window, else
    // the master" rule
    let mut d = tile_desktop(&[10, 20, 30], Some(1));
    d.focused_last = None;
    let r = d.delete_focused_window();
    assert_eq!(ids(&d), vec![10, 30]);
    assert_eq!(d.focused_window, Some(0));
    assert_eq!(d.focused_last, None);
    assert_eq!(r[0], Request::DeleteWindow(20));
    assert_eq!(r[1], Request::Flush);
    assert_eq!(*r.last().unwrap(), Request::FocusWindow(10));
}

#[test]
fn delete_follows_valid_marker() {
    let mut d = tile_desktop(&[10, 20, 30], Some(0));
    d.focused_last = Some(2);
    d.delete_focused_window();
    assert_eq!(ids(&d), vec![20, 30]);
    // focus finds window 30 again at its new position
    assert_eq!(d.focused_window, Some(1));
}

#[test]
fn delete_last_window_clears_focus() {
    let mut d = tile_desktop(&[10], Some(0));
    let r = d.delete_focused_window();
    assert!(ids(&d).is_empty());
    assert_eq!(d.focused_window, None);
    assert_eq!(d.focused_last, None);
    assert_eq!(r, vec![Request::DeleteWindow(10), Request::Flush]);
}

#[test]
fn delete_without_focus_is_noop() {
    let mut d = tile_desktop(&[], None);
    let r = d.delete_focused_window();
    assert!(r.is_empty());
}

#[test]
fn move_up_swaps_with_stack_neighbour() {
    let mut d = tile_desktop(&[1, 2, 3], Some(2));
    d.move_window(&Direction::Up);
    assert_eq!(ids(&d), vec![1, 3, 2]);
    assert_eq!(d.focused_window, Some(1));
}

#[test]
fn move_up_stops_below_master() {
    let mut d = tile_desktop(&[1, 2, 3], Some(1));
    let r = d.move_window(&Direction::Up);
    assert_eq!(ids(&d), vec![1, 2, 3]);
    assert_eq!(d.focused_window, Some(1));
    assert!(r.is_empty());
}

#[test]
fn move_down_swaps_towards_bottom() {
    let mut d = tile_desktop(&[1, 2, 3], Some(1));
    d.move_window(&Direction::Down);
    assert_eq!(ids(&d), vec![1, 3, 2]);
    assert_eq!(d.focused_window, Some(2));
}

#[test]
fn move_left_promotes_to_master_and_marks_return() {
    let mut d = tile_desktop(&[1, 2, 3], Some(2));
    d.move_window(&Direction::Left);
    assert_eq!(ids(&d), vec![3, 2, 1]);
    assert_eq!(d.focused_window, Some(0));
    assert_eq!(d.focused_last, Some(2));
}

#[test]
fn move_right_returns_master_to_marked_slot() {
    let mut d = tile_desktop(&[1, 2, 3], Some(0));
    d.focused_last = Some(2);
    d.move_window(&Direction::Right);
    assert_eq!(ids(&d), vec![3, 2, 1]);
    assert_eq!(d.focused_window, Some(2));
    assert_eq!(d.focused_last, Some(0));
}

#[test]
fn move_right_defaults_to_top_stack_slot() {
    let mut d = tile_desktop(&[1, 2, 3], Some(0));
    d.focused_last = None;
    d.move_window(&Direction::Right);
    assert_eq!(ids(&d), vec![2, 1, 3]);
    assert_eq!(d.focused_window, Some(1));
    assert_eq!(d.focused_last, Some(0));
}

#[test]
fn move_ignores_non_tile_layouts() {
    let mut d = tile_desktop(&[1, 2, 3], Some(1));
    d.layout = Layout::Monocle;
    let r = d.move_window(&Direction::Down);
    assert_eq!(ids(&d), vec![1, 2, 3]);
    assert_eq!(d.focused_window, Some(1));
    assert!(r.is_empty());
}

#[test]
fn move_needs_two_windows_and_focus() {
    let mut d = tile_desktop(&[1], Some(0));
    assert!(d.move_window(&Direction::Down).is_empty());
    assert_eq!(ids(&d), vec![1]);
    let mut empty = tile_desktop(&[], None);
    assert!(empty.move_window(&Direction::Left).is_empty());
}

#[test]
fn focus_index_valid_or_absent_through_operations() {
    // the focus invariant: absent exactly on an empty desktop, in
    // bounds otherwise, across adds, moves, focus moves and deletes
    let mut ds = Desktops::new(
        vec![Desktop::new(false, Layout::Tile, Vec::new(), &screen())],
        0,
    );
    let check = |ds: &Desktops| {
        let d = &ds.desktops[0];
        match d.focused_window {
            None => assert!(d.windows.is_empty()),
            Some(f) => assert!(f < d.windows.len()),
        }
    };
    check(&ds);
    for id in 1..=4u32 {
        ds.add_window(win(id));
        check(&ds);
    }
    for dir in [Direction::Down, Direction::Up, Direction::Right, Direction::Left] {
        ds.focus_window(&dir);
        check(&ds);
        ds.move_window_tile(&dir);
        check(&ds);
    }
    ds.remove_window(&win(2));
    check(&ds);
    while ds.desktops[0].focused_window.is_some() {
        ds.delete_focused_window();
        check(&ds);
    }
    assert!(ds.desktops[0].windows.is_empty());
}

#[test]
fn remove_window_keeps_focus_on_same_window() {
    let mut ds = Desktops::new(vec![tile_desktop(&[1, 2, 3], Some(2))], 0);
    ds.remove_window(&win(2));
    // the focused window (id 3) slid down one slot
    assert_eq!(ids(&ds.desktops[0]), vec![1, 3]);
    assert_eq!(ds.desktops[0].focused_window, Some(1));
    assert_eq!(ds.desktops[0].focused_last, None);
}

#[test]
fn remove_focused_window_slides_focus() {
    let mut ds = Desktops::new(vec![tile_desktop(&[1, 2], Some(1))], 0);
    ds.remove_window(&win(2));
    assert_eq!(ids(&ds.desktops[0]), vec![1]);
    assert_eq!(ds.desktops[0].focused_window, Some(0));
}

#[test]
fn remove_untracked_window_is_noop() {
    let mut ds = Desktops::new(vec![tile_desktop(&[1, 2], Some(0))], 0);
    ds.remove_window(&win(9));
    assert_eq!(ids(&ds.desktops[0]), vec![1, 2]);
    assert_eq!(ds.desktops[0].focused_window, Some(0));
}
