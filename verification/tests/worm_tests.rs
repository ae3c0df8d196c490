use worm::command::{Command, Direction};
use worm::key::{Key, KeyMap, Modifier};
use worm::layout::Layout;
use worm::x::{Request, Window, WindowChanges, XEvent};
use worm::{Screen, WmError, Worm, NUM_DESKTOPS};

fn screen() -> Screen {
    Screen { width: 810, height: 610, x: 0, y: 0 }
}

fn win(id: u32) -> Window {
    Window::new(id, 0, 0, 0, 0)
}

fn changes(x: u32, y: u32, width: u32, height: u32) -> WindowChanges {
    WindowChanges { x, y, width, height, border_width: 0, sibling: 0, stack_mode: 0 }
}

fn manage_then_place(id: u32, placements: &[(u32, WindowChanges)], focus: u32) -> Vec<Request> {
    let mut expected = vec![
        Request::GrabKeys(id),
        Request::RegisterWindow(id),
        Request::TrackWindowEvents(id),
    ];
    for (placed, c) in placements {
        expected.push(Request::StopWindowEvents(*placed));
        expected.push(Request::MapWindow(*placed));
        expected.push(Request::ConfigureWindow(*placed, *c));
        expected.push(Request::TrackWindowEvents(*placed));
    }
    expected.push(Request::FocusWindow(focus));
    expected
}

fn bindings() -> KeyMap {
    let mut binds = KeyMap::new();
    binds.bind(Key::new(&Modifier::Mod1, 0x74), Command::ChangeLayout(Layout::Tile));
    binds.bind(Key::new(&Modifier::Mod1, 0x73), Command::ChangeLayout(Layout::Float));
    binds.bind(Key::new(&Modifier::Mod1, 0x6d), Command::ChangeLayout(Layout::Monocle));
    binds.bind(Key::new(&Modifier::Mod1, 0x68), Command::FocusDirection(Direction::Left));
    binds.bind(Key::new(&Modifier::Mod1, 0x6a), Command::FocusDirection(Direction::Down));
    binds.bind(Key::new(&Modifier::Mod1, 0x6b), Command::FocusDirection(Direction::Up));
    binds.bind(Key::new(&Modifier::Mod1, 0x6c), Command::FocusDirection(Direction::Right));
    binds.bind(Key::new(&Modifier::Mod1, 0x77), Command::KillFocused);
    binds
}

#[test]
fn it_works() {
    assert_eq!(2 + 2, 4);
}

#[test]
fn new_manager_has_nine_empty_tile_desktops() {
    let wm = Worm::new(bindings(), screen());
    assert_eq!(wm.desktops.desktops.len(), NUM_DESKTOPS);
    assert_eq!(wm.desktops.focused_desktop, 0);
    for d in &wm.desktops.desktops {
        assert!(d.windows.is_empty());
        assert_eq!(d.layout, Layout::Tile);
        assert_eq!(d.focused_window, None);
        assert_eq!(d.focused_last, None);
    }
}

#[test]
fn three_map_requests_tile_in_order() {
    // start empty in tile layout; map W1, W2, W3 in order: W1 is the
    // master at the full master column, W2 and W3 split the stack
    // column, and the focused index stays 0 throughout
    let mut wm = Worm::new(bindings(), screen());

    let r = wm.handle_event(XEvent::MapRequest(win(1))).unwrap();
    assert_eq!(r, manage_then_place(1, &[(1, changes(0, 0, 810, 610))], 1));
    assert_eq!(wm.desktops.desktops[0].focused_window, Some(0));

    let r = wm.handle_event(XEvent::MapRequest(win(2))).unwrap();
    assert_eq!(
        r,
        manage_then_place(
            2,
            &[
                (1, changes(0, 0, 400, 610)),
                (2, changes(410, 0, 400, 610)),
            ],
            1,
        )
    );
    assert_eq!(wm.desktops.desktops[0].focused_window, Some(0));

    let r = wm.handle_event(XEvent::MapRequest(win(3))).unwrap();
    assert_eq!(
        r,
        manage_then_place(
            3,
            &[
                (1, changes(0, 0, 400, 610)),
                (2, changes(410, 0, 400, 300)),
                (3, changes(410, 310, 400, 300)),
            ],
            1,
        )
    );
    assert_eq!(wm.desktops.desktops[0].focused_window, Some(0));
}

#[test]
fn mapping_a_managed_window_is_a_fatal_guard() {
    let mut wm = Worm::new(bindings(), screen());
    wm.handle_event(XEvent::MapRequest(win(1))).unwrap();
    let r = wm.handle_event(XEvent::MapRequest(win(1)));
    assert_eq!(r, Err(WmError::AlreadyManaged));
}

#[test]
fn unbound_key_is_a_fatal_guard() {
    let mut wm = Worm::new(bindings(), screen());
    let r = wm.handle_event(XEvent::KeyPress(Key { modifier: 8, key: 0x7a }));
    assert_eq!(r, Err(WmError::UnboundKey));
}

#[test]
fn bound_key_executes_its_command() {
    let mut wm = Worm::new(bindings(), screen());
    wm.handle_event(XEvent::MapRequest(win(1))).unwrap();
    wm.handle_event(XEvent::MapRequest(win(2))).unwrap();
    // Mod1 + l focuses right: from the master into the stack
    let r = wm
        .handle_event(XEvent::KeyPress(Key { modifier: 8, key: 0x6c }))
        .unwrap();
    assert_eq!(wm.desktops.desktops[0].focused_window, Some(1));
    assert_eq!(r, vec![Request::FocusWindow(2)]);
}

#[test]
fn kill_focused_closes_and_refocuses() {
    let mut wm = Worm::new(bindings(), screen());
    wm.handle_event(XEvent::MapRequest(win(1))).unwrap();
    wm.handle_event(XEvent::MapRequest(win(2))).unwrap();
    let r = wm
        .handle_event(XEvent::KeyPress(Key { modifier: 8, key: 0x77 }))
        .unwrap();
    assert_eq!(r[0], Request::DeleteWindow(1));
    assert_eq!(r[1], Request::Flush);
    // the survivor is refocused, asserted once by the desktop and once
    // more by the desktop set
    assert_eq!(*r.last().unwrap(), Request::FocusWindow(2));
    assert_eq!(wm.desktops.desktops[0].windows.len(), 1);
    assert_eq!(wm.desktops.desktops[0].focused_window, Some(0));
}

#[test]
fn unmap_notify_drops_the_window() {
    let mut wm = Worm::new(bindings(), screen());
    wm.handle_event(XEvent::MapRequest(win(1))).unwrap();
    wm.handle_event(XEvent::MapRequest(win(2))).unwrap();
    let r = wm.handle_event(XEvent::UnmapNotify(win(1))).unwrap();
    assert!(r.is_empty());
    assert_eq!(wm.desktops.desktops[0].windows.len(), 1);
    assert_eq!(wm.desktops.desktops[0].windows[0].window, 2);
    assert_eq!(wm.desktops.desktops[0].focused_window, Some(0));
}

#[test]
fn destroy_notify_of_untracked_window_is_tolerated() {
    let mut wm = Worm::new(bindings(), screen());
    wm.handle_event(XEvent::MapRequest(win(1))).unwrap();
    let r = wm.handle_event(XEvent::DestroyNotify(win(42))).unwrap();
    assert!(r.is_empty());
    assert_eq!(wm.desktops.desktops[0].windows.len(), 1);
}

#[test]
fn configure_request_is_honored_verbatim() {
    let mut wm = Worm::new(bindings(), screen());
    let asked = changes(5, 6, 300, 200);
    let r = wm
        .handle_event(XEvent::ConfigureRequest(win(9), asked))
        .unwrap();
    assert_eq!(r, vec![Request::ConfigureWindow(9, asked)]);
}

#[test]
fn change_layout_command_reapplies_layout() {
    let mut wm = Worm::new(bindings(), screen());
    wm.handle_event(XEvent::MapRequest(win(1))).unwrap();
    wm.handle_event(XEvent::MapRequest(win(2))).unwrap();
    let r = wm
        .handle_event(XEvent::KeyPress(Key { modifier: 8, key: 0x6d }))
        .unwrap();
    assert_eq!(wm.desktops.desktops[0].layout, Layout::Monocle);
    // every window is placed at the full screen rectangle
    let full = changes(0, 0, 810, 610);
    assert_eq!(
        r,
        vec![
            Request::StopWindowEvents(1),
            Request::MapWindow(1),
            Request::ConfigureWindow(1, full),
            Request::TrackWindowEvents(1),
            Request::StopWindowEvents(2),
            Request::MapWindow(2),
            Request::ConfigureWindow(2, full),
            Request::TrackWindowEvents(2),
        ]
    );
    // switching to the layout already in place does nothing
    let r = wm
        .handle_event(XEvent::KeyPress(Key { modifier: 8, key: 0x6d }))
        .unwrap();
    assert!(r.is_empty());
}

#[test]
fn modifier_masks_follow_the_protocol() {
    assert_eq!(Modifier::Shift.get_mod_mask(), 1);
    assert_eq!(Modifier::Lock.get_mod_mask(), 2);
    assert_eq!(Modifier::Control.get_mod_mask(), 4);
    assert_eq!(Modifier::Mod1.get_mod_mask(), 8);
    assert_eq!(Modifier::Mod2.get_mod_mask(), 16);
    assert_eq!(Modifier::Mod3.get_mod_mask(), 32);
    assert_eq!(Modifier::Mod4.get_mod_mask(), 64);
    assert_eq!(Modifier::Mod5.get_mod_mask(), 128);
}

#[test]
fn key_map_lookup_finds_latest_binding() {
    let mut binds = KeyMap::new();
    let key = Key::new(&Modifier::Mod4, 0x20);
    assert_eq!(binds.lookup(&key), None);
    binds.bind(key, Command::KillFocused);
    assert_eq!(binds.lookup(&key), Some(Command::KillFocused));
    binds.bind(key, Command::ChangeLayout(Layout::Float));
    assert_eq!(binds.lookup(&key), Some(Command::ChangeLayout(Layout::Float)));
    assert_eq!(binds.key_map.len(), 1);
    let other = Key::new(&Modifier::Mod4, 0x21);
    assert_eq!(binds.lookup(&other), None);
}

#[test]
fn window_keeps_identity_and_geometry() {
    let w = Window::new(7, 1, 2, 3, 4);
    assert_eq!(w.as_xcb_window(), 7);
    assert_eq!((w.x, w.y, w.width, w.height), (1, 2, 3, 4));
}
